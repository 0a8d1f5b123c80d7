//! The default completer: a dictionary of keywords, matched against the
//! text left of the cursor, and a history-backed completer for whole lines.

use vstd::prelude::*;

use crate::completion::base::{Completer, Span};
use crate::text_manipulation::{chars_of, string_from_chars};

verus! {

/// Lexicographic order on character sequences, by code point.
pub open spec fn lex_less(a: Seq<char>, b: Seq<char>) -> bool
    decreases a.len(),
{
    if b.len() == 0 {
        false
    } else if a.len() == 0 {
        true
    } else if a[0] as u32 == b[0] as u32 {
        lex_less(a.drop_first(), b.drop_first())
    } else {
        (a[0] as u32) < (b[0] as u32)
    }
}

/// Two sequences are equal, or one is lexicographically below the other.
pub proof fn lemma_lex_trichotomy(a: Seq<char>, b: Seq<char>)
    ensures
        lex_less(a, b) || lex_less(b, a) || a == b,
    decreases a.len(),
{
    if a.len() == 0 && b.len() == 0 {
        assert(a =~= b);
    } else if a.len() > 0 && b.len() > 0 && a[0] as u32 == b[0] as u32 {
        lemma_lex_trichotomy(a.drop_first(), b.drop_first());
        vstd::utf8::char_u32_cast(a[0], a[0] as u32);
        vstd::utf8::char_u32_cast(b[0], b[0] as u32);
        assert(a[0] == b[0]);
        if a.drop_first() == b.drop_first() {
            assert(a =~= seq![a[0]] + a.drop_first());
            assert(b =~= seq![b[0]] + b.drop_first());
        }
    }
}

/// The words are strictly increasing: sorted with no duplicates.
pub open spec fn sorted_strict(ws: Seq<Seq<char>>) -> bool {
    forall|i: int| 0 <= i && i + 1 < ws.len() ==> lex_less(#[trigger] ws[i], ws[i + 1])
}

/// Whether the character counts as alphanumeric under Unicode.
pub uninterp spec fn unicode_alphanumeric(c: char) -> bool;

/// Relies on `char::is_alphanumeric`: whether the character is alphanumeric
/// per the Unicode derived property, a function of the character alone.
#[verifier::external_body]
fn is_alphanumeric_char(c: char) -> (r: bool)
    ensures
        r == unicode_alphanumeric(c),
{
    c.is_alphanumeric()
}

/// Whether `c` may appear in a stored word: an alphanumeric character, one
/// of the common whitespace characters, or one of the whitelisted
/// inclusions.
pub open spec fn allowed_char(incl: Seq<char>, c: char) -> bool {
    ||| incl.contains(c)
    ||| unicode_alphanumeric(c)
    ||| c == ' '
    ||| c == '\t'
    ||| c == '\n'
    ||| c == '\r'
}

/// The longest prefix of `w` made of allowed characters: insertion truncates
/// a word at its first disallowed character.
pub open spec fn truncate_word(incl: Seq<char>, w: Seq<char>) -> Seq<char>
    decreases w.len(),
{
    if w.len() == 0 {
        w
    } else if allowed_char(incl, w[0]) {
        seq![w[0]] + truncate_word(incl, w.drop_first())
    } else {
        Seq::empty()
    }
}

/// Whether position `i` starts a word of the queried text: it holds a
/// non-space whose left neighbour is a space or the start.
pub open spec fn is_anchor(s: Seq<char>, i: int) -> bool {
    s[i] != ' ' && (i == 0 || s[i - 1] == ' ')
}

/// The completion pairs one anchor contributes: every stored word that
/// extends the text from the anchor to the cursor and reaches past it, in
/// dictionary order, with the span from the anchor to the cursor.
pub open spec fn anchor_pairs(dict: Seq<Seq<char>>, s: Seq<char>, a: int) -> Seq<(Span, Seq<char>)>
    decreases dict.len(),
{
    if dict.len() == 0 {
        Seq::empty()
    } else {
        let rest = anchor_pairs(dict.drop_first(), s, a);
        if s.subrange(a, s.len() as int).is_prefix_of(dict[0]) && dict[0].len() > s.len() - a {
            seq![(Span { start: a as usize, end: s.len() as usize }, dict[0])] + rest
        } else {
            rest
        }
    }
}

/// All completion pairs contributed by anchors left of `p`, nearest anchor
/// first.
pub open spec fn completions_upto(dict: Seq<Seq<char>>, s: Seq<char>, p: int) -> Seq<
    (Span, Seq<char>),
>
    decreases p,
{
    if p <= 0 {
        Seq::empty()
    } else if is_anchor(s, p - 1) {
        anchor_pairs(dict, s, p - 1) + completions_upto(dict, s, p - 1)
    } else {
        completions_upto(dict, s, p - 1)
    }
}

/// The full result of completing `s` (the text left of the cursor) against
/// the dictionary: the pairs of every word start, nearest first.
pub open spec fn completions_spec(dict: Seq<Seq<char>>, s: Seq<char>) -> Seq<(Span, Seq<char>)> {
    completions_upto(dict, s, s.len() as int)
}

/// A completer matching the text left of the cursor against a dictionary of
/// keywords.
///
/// A keyword is stored truncated at its first disallowed character (see
/// [`allowed_char`]); by default alphanumeric and whitespace characters are
/// allowed, and further characters can be whitelisted with
/// [`DefaultCompleter::with_inclusions`]. Words shorter than the minimum
/// word length are ignored.
#[derive(Debug)]
pub struct DefaultCompleter {
    words: Vec<String>,
    inclusions: Vec<char>,
    min_word_len: usize,
}

impl View for DefaultCompleter {
    type V = Seq<Seq<char>>;

    closed spec fn view(&self) -> Seq<Seq<char>> {
        self.words@.map_values(|s: String| s@)
    }
}

impl DefaultCompleter {
    /// The whitelisted extra characters.
    pub closed spec fn inclusions_spec(&self) -> Seq<char> {
        self.inclusions@
    }

    /// The minimum length a word must have to be stored.
    pub closed spec fn min_word_len_spec(&self) -> int {
        self.min_word_len as int
    }

    /// The dictionary is strictly sorted.
    pub open spec fn wf(&self) -> bool {
        sorted_strict(self@)
    }

    /// Construct the default completer with a list of commands/keywords to
    /// complete on.
    pub fn new(external_commands: Vec<String>) -> (dc: DefaultCompleter)
        ensures
            dc.wf(),
            dc.inclusions_spec() == Seq::<char>::empty(),
            dc.min_word_len_spec() == 2,
            forall|x: Seq<char>|
                dc@.contains(x) <==> (exists|j: int|
                    0 <= j < external_commands@.len() && #[trigger] external_commands@[j]@.len()
                        >= 2 && x == truncate_word(Seq::<char>::empty(), external_commands@[j]@)),
    {
        let mut dc = DefaultCompleter::default();
        dc.insert(external_commands);
        dc
    }

    /// Construct the default completer with a list of commands/keywords to
    /// complete on, given a minimum word length.
    pub fn new_with_wordlen(external_commands: Vec<String>, min_word_len: usize) -> (dc:
        DefaultCompleter)
        ensures
            dc.wf(),
            dc.inclusions_spec() == Seq::<char>::empty(),
            dc.min_word_len_spec() == min_word_len,
            forall|x: Seq<char>|
                dc@.contains(x) <==> (exists|j: int|
                    0 <= j < external_commands@.len() && #[trigger] external_commands@[j]@.len()
                        >= min_word_len && x == truncate_word(
                        Seq::<char>::empty(),
                        external_commands@[j]@,
                    )),
    {
        let mut dc = DefaultCompleter::default().set_min_word_len(min_word_len);
        dc.insert(external_commands);
        dc
    }

    /// Create a new `DefaultCompleter` with the given non-alphanumeric
    /// characters whitelisted, so that words holding them are not truncated
    /// there.
    pub fn with_inclusions(incl: &[char]) -> (dc: DefaultCompleter)
        ensures
            dc.wf(),
            dc@ == Seq::<Seq<char>>::empty(),
            dc.inclusions_spec() == incl@,
            dc.min_word_len_spec() == 2,
    {
        let mut inclusions: Vec<char> = Vec::new();
        let mut i: usize = 0;
        while i < incl.len()
            invariant
                i <= incl@.len(),
                inclusions@ == incl@.subrange(0, i as int),
            decreases incl@.len() - i,
        {
            inclusions.push(incl[i]);
            proof {
                assert(inclusions@ =~= incl@.subrange(0, i + 1));
            }
            i = i + 1;
        }
        proof {
            assert(incl@.subrange(0, incl@.len() as int) =~= incl@);
        }
        let dc = DefaultCompleter { words: Vec::new(), inclusions, min_word_len: 2 };
        proof {
            assert(dc@ =~= Seq::<Seq<char>>::empty());
        }
        dc
    }

    /// Removes every stored word.
    pub fn clear(&mut self)
        ensures
            final(self)@ == Seq::<Seq<char>>::empty(),
            final(self).wf(),
            final(self).inclusions_spec() == old(self).inclusions_spec(),
            final(self).min_word_len_spec() == old(self).min_word_len_spec(),
    {
        self.words = Vec::new();
        proof {
            assert(self@ =~= Seq::<Seq<char>>::empty());
        }
    }

    /// How many words are stored (clamped to the counter's width).
    pub fn word_count(&self) -> (n: u32)
        ensures
            n == if self@.len() <= u32::MAX {
                self@.len() as int
            } else {
                u32::MAX as int
            },
    {
        let len = self.words.len();
        if len <= u32::MAX as usize {
            len as u32
        } else {
            u32::MAX
        }
    }

    /// The minimum word length to store. Shorter words handed to
    /// [`DefaultCompleter::insert`] are ignored, so whole sentences can be
    /// inserted without filling the dictionary with tiny words.
    pub fn min_word_len(&self) -> (n: usize)
        ensures
            n == self.min_word_len_spec(),
    {
        self.min_word_len
    }

    /// Sets the minimum word length to store. This only affects future
    /// insertions, not what the dictionary already holds.
    pub fn set_min_word_len(self, len: usize) -> (dc: DefaultCompleter)
        ensures
            dc@ == self@,
            dc.wf() == self.wf(),
            dc.inclusions_spec() == self.inclusions_spec(),
            dc.min_word_len_spec() == len,
    {
        DefaultCompleter { min_word_len: len, ..self }
    }

    /// Stores each given word, truncated at its first disallowed character;
    /// words shorter than the minimum word length are ignored.
    pub fn insert(&mut self, words: Vec<String>)
        requires
            old(self).wf(),
        ensures
            final(self).wf(),
            final(self).inclusions_spec() == old(self).inclusions_spec(),
            final(self).min_word_len_spec() == old(self).min_word_len_spec(),
            forall|x: Seq<char>|
                final(self)@.contains(x) <==> (old(self)@.contains(x) || exists|j: int|
                    0 <= j < words@.len() && #[trigger] words@[j]@.len()
                        >= old(self).min_word_len_spec() && x == truncate_word(
                        old(self).inclusions_spec(),
                        words@[j]@,
                    )),
    {
        let n = words.len();
        let mut j: usize = 0;
        while j < n
            invariant
                j <= n,
                n == words@.len(),
                self.wf(),
                self.inclusions_spec() == old(self).inclusions_spec(),
                self.min_word_len_spec() == old(self).min_word_len_spec(),
                forall|x: Seq<char>|
                    self@.contains(x) <==> (old(self)@.contains(x) || exists|k: int|
                        0 <= k < j && #[trigger] words@[k]@.len() >= old(self).min_word_len_spec()
                            && x == truncate_word(old(self).inclusions_spec(), words@[k]@)),
            decreases n - j,
        {
            let w = chars_of(words[j].as_str());
            if w.len() >= self.min_word_len {
                let t = truncate_exec(&self.inclusions, &w);
                self.insert_one(t);
            }
            j = j + 1;
        }
    }

    /// Stores one word (already truncated) at its sorted position, unless it
    /// is already there.
    fn insert_one(&mut self, w: Vec<char>)
        requires
            old(self).wf(),
        ensures
            final(self).wf(),
            final(self).inclusions_spec() == old(self).inclusions_spec(),
            final(self).min_word_len_spec() == old(self).min_word_len_spec(),
            forall|x: Seq<char>|
                final(self)@.contains(x) <==> (old(self)@.contains(x) || x == w@),
    {
        let n = self.words.len();
        let mut k: usize = 0;
        while k < n && lex_less_exec(&self.words[k], &w)
            invariant
                k <= n,
                n == self@.len(),
                self == old(self),
                forall|i: int| 0 <= i < k ==> lex_less(#[trigger] self@[i], w@),
            decreases n - k,
        {
            k = k + 1;
        }
        if k < n && seq_eq_exec(&self.words[k], &w) {
            proof {
                assert(self@[k as int] == self.words@[k as int]@);
                assert(self@.contains(w@));
            }
            return ;
        }
        proof {
            if k < n {
                assert(self@[k as int] == self.words@[k as int]@);
                assert(!lex_less(self@[k as int], w@));
                assert(self@[k as int] != w@);
                lemma_lex_trichotomy(self@[k as int], w@);
                assert(lex_less(w@, self@[k as int]));
            }
        }
        let s = string_from_chars(&w);
        self.words.insert(k, s);
        proof {
            let m = self@;
            let o = old(self)@;
            assert(m =~= o.subrange(0, k as int) + seq![w@] + o.subrange(k as int, o.len() as int));
            assert(o.len() == n && m.len() == n + 1);
            assert(forall|j: int| 0 <= j < k ==> #[trigger] m[j] == o[j]);
            assert(m[k as int] == w@);
            assert(forall|j: int| k < j < m.len() ==> #[trigger] m[j] == o[j - 1]);
            assert forall|i: int| 0 <= i && i + 1 < m.len() implies lex_less(
                #[trigger] m[i],
                m[i + 1],
            ) by {
                if i + 1 < k {
                    assert(lex_less(o[i], o[i + 1]));
                } else if i + 1 == k {
                    assert(m[i] == o[i] && m[i + 1] == w@);
                } else if i == k {
                    assert(m[i] == w@ && m[i + 1] == o[i]);
                } else {
                    assert(m[i] == o[i - 1] && m[i + 1] == o[i]);
                }
            }
            assert forall|x: Seq<char>| m.contains(x) implies (o.contains(x) || x == w@) by {
                let i = choose|i: int| 0 <= i < m.len() && m[i] == x;
                if i < k {
                    assert(o[i] == x);
                } else if i > k {
                    assert(o[i - 1] == x);
                }
            }
            assert forall|x: Seq<char>| o.contains(x) implies m.contains(x) by {
                let i = choose|i: int| 0 <= i < o.len() && o[i] == x;
                if i < k {
                    assert(m[i] == x);
                } else {
                    assert(m[i + 1] == x);
                }
            }
            assert(m[k as int] == w@);
        }
    }
}

impl Default for DefaultCompleter {
    /// An empty dictionary: no inclusions, minimum word length two.
    fn default() -> (dc: DefaultCompleter)
        ensures
            dc.wf(),
            dc@ == Seq::<Seq<char>>::empty(),
            dc.inclusions_spec() == Seq::<char>::empty(),
            dc.min_word_len_spec() == 2,
    {
        let dc = DefaultCompleter { words: Vec::new(), inclusions: Vec::new(), min_word_len: 2 };
        proof {
            assert(dc@ =~= Seq::<Seq<char>>::empty());
            assert(dc.inclusions_spec() =~= Seq::<char>::empty());
        }
        dc
    }
}

/// The longest prefix of `w` made of allowed characters.
fn truncate_exec(incl: &Vec<char>, w: &Vec<char>) -> (t: Vec<char>)
    ensures
        t@ == truncate_word(incl@, w@),
{
    let mut t: Vec<char> = Vec::new();
    let n = w.len();
    proof {
        assert(t@ =~= w@.subrange(0, 0));
        assert(w@.subrange(0, n as int) =~= w@);
        assert(w@.subrange(0, 0) + truncate_word(incl@, w@.subrange(0, n as int)) =~= truncate_word(
            incl@,
            w@,
        ));
    }
    let mut i: usize = 0;
    while i < n
        invariant
            i <= n,
            n == w@.len(),
            t@ == w@.subrange(0, i as int),
            truncate_word(incl@, w@) == w@.subrange(0, i as int) + truncate_word(
                incl@,
                w@.subrange(i as int, n as int),
            ),
        decreases n - i,
    {
        let c = w[i];
        if !allowed_char_exec(incl, c) {
            proof {
                assert(truncate_word(incl@, w@.subrange(i as int, n as int)) =~= Seq::<
                    char,
                >::empty());
                assert(truncate_word(incl@, w@) =~= t@);
            }
            return t;
        }
        proof {
            let tail = w@.subrange(i as int, n as int);
            assert(tail[0] == w@[i as int]);
            assert(tail.drop_first() =~= w@.subrange(i + 1, n as int));
            assert(w@.subrange(0, i as int) + seq![w@[i as int]] =~= w@.subrange(0, i + 1));
            assert(w@.subrange(0, i as int) + (seq![tail[0]] + truncate_word(
                incl@,
                tail.drop_first(),
            )) =~= w@.subrange(0, i + 1) + truncate_word(incl@, w@.subrange(i + 1, n as int)));
        }
        t.push(c);
        proof {
            assert(t@ =~= w@.subrange(0, i + 1));
        }
        i = i + 1;
    }
    proof {
        assert(truncate_word(incl@, w@.subrange(n as int, n as int)) =~= Seq::<char>::empty());
        assert(t@ =~= w@.subrange(0, n as int));
        assert(truncate_word(incl@, w@) =~= t@);
    }
    t
}

/// Whether `c` may appear in a stored word.
fn allowed_char_exec(incl: &Vec<char>, c: char) -> (r: bool)
    ensures
        r == allowed_char(incl@, c),
{
    if is_alphanumeric_char(c) || c == ' ' || c == '\t' || c == '\n' || c == '\r' {
        return true;
    }
    let n = incl.len();
    let mut i: usize = 0;
    while i < n
        invariant
            i <= n,
            n == incl@.len(),
            forall|j: int| 0 <= j < i ==> incl@[j] != c,
        decreases n - i,
    {
        if incl[i] == c {
            return true;
        }
        i = i + 1;
    }
    proof {
        assert(!incl@.contains(c));
    }
    false
}

/// Strict lexicographic comparison of a stored word against a query.
fn lex_less_exec(a: &String, b: &Vec<char>) -> (r: bool)
    ensures
        r == lex_less(a@, b@),
{
    let a_chars = chars_of(a.as_str());
    lex_less_chars(&a_chars, b)
}

fn lex_less_chars(a: &Vec<char>, b: &Vec<char>) -> (r: bool)
    ensures
        r == lex_less(a@, b@),
{
    let na = a.len();
    let nb = b.len();
    proof {
        assert(a@.subrange(0, na as int) =~= a@);
        assert(b@.subrange(0, nb as int) =~= b@);
    }
    let mut i: usize = 0;
    loop
        invariant
            i <= na,
            i <= nb,
            na == a@.len(),
            nb == b@.len(),
            lex_less(a@, b@) == lex_less(
                a@.subrange(i as int, na as int),
                b@.subrange(i as int, nb as int),
            ),
        ensures
            i <= na,
            i <= nb,
            lex_less(a@, b@) == lex_less(
                a@.subrange(i as int, na as int),
                b@.subrange(i as int, nb as int),
            ),
            i >= na || i >= nb || a@[i as int] as u32 != b@[i as int] as u32,
        decreases na - i,
    {
        if i >= na || i >= nb {
            break ;
        }
        let ca = a[i] as u32;
        let cb = b[i] as u32;
        if ca != cb {
            break ;
        }
        proof {
            let sa = a@.subrange(i as int, na as int);
            let sb = b@.subrange(i as int, nb as int);
            assert(sa[0] as u32 == sb[0] as u32);
            assert(sa.drop_first() =~= a@.subrange(i + 1, na as int));
            assert(sb.drop_first() =~= b@.subrange(i + 1, nb as int));
        }
        i = i + 1;
    }
    proof {
        let sa = a@.subrange(i as int, na as int);
        let sb = b@.subrange(i as int, nb as int);
        if i >= na {
            assert(sa.len() == 0);
        } else if i >= nb {
            assert(sb.len() == 0);
        }
    }
    if i >= nb {
        false
    } else if i >= na {
        true
    } else {
        (a[i] as u32) < (b[i] as u32)
    }
}

/// Whether a stored word equals a query, character for character.
fn seq_eq_exec(a: &String, b: &Vec<char>) -> (r: bool)
    ensures
        r == (a@ == b@),
{
    let n = a.unicode_len();
    if n != b.len() {
        return false;
    }
    let mut i: usize = 0;
    while i < n
        invariant
            i <= n,
            n == a@.len() == b@.len(),
            forall|j: int| 0 <= j < i ==> a@[j] == b@[j],
        decreases n - i,
    {
        if a.get_char(i) != b[i] {
            return false;
        }
        i = i + 1;
    }
    proof {
        assert(a@ =~= b@);
    }
    true
}

} // verus!

verus! {

/// Whether the characters of `s` in `[a, b)` are a prefix of `word`.
fn range_is_prefix_of(s: &Vec<char>, a: usize, b: usize, word: &String) -> (r: bool)
    requires
        a <= b <= s@.len(),
    ensures
        r == s@.subrange(a as int, b as int).is_prefix_of(word@),
{
    let m = word.unicode_len();
    if b - a > m {
        return false;
    }
    let mut i: usize = 0;
    while i < b - a
        invariant
            a <= b <= s@.len(),
            i <= b - a <= m,
            m == word@.len(),
            forall|j: int| 0 <= j < i ==> s@[a + j] == word@[j],
        decreases b - a - i,
    {
        if word.get_char(i) != s[a + i] {
            proof {
                assert(s@.subrange(a as int, b as int)[i as int] != word@[i as int]);
            }
            return false;
        }
        i = i + 1;
    }
    proof {
        assert(s@.subrange(a as int, b as int) =~= word@.subrange(0, b - a));
    }
    true
}

impl DefaultCompleter {
    /// The completion pairs of one anchor, in dictionary order.
    fn collect_anchor(&self, s: &Vec<char>, a: usize, end: usize) -> (out: Vec<(Span, String)>)
        requires
            a < end,
            end == s@.len(),
        ensures
            out@.map_values(|p: (Span, String)| (p.0, p.1@)) == anchor_pairs(self@, s@, a as int),
    {
        let n = self.words.len();
        let mut out: Vec<(Span, String)> = Vec::new();
        proof {
            assert(self@.subrange(0, n as int) =~= self@);
            assert(out@.map_values(|p: (Span, String)| (p.0, p.1@)) + anchor_pairs(
                self@,
                s@,
                a as int,
            ) =~= anchor_pairs(self@, s@, a as int));
        }
        let mut k: usize = 0;
        while k < n
            invariant
                k <= n,
                a < end,
                end == s@.len(),
                n == self@.len(),
                out@.map_values(|p: (Span, String)| (p.0, p.1@)) + anchor_pairs(
                    self@.subrange(k as int, n as int),
                    s@,
                    a as int,
                ) == anchor_pairs(self@, s@, a as int),
            decreases n - k,
        {
            let ghost pre = out@.map_values(|p: (Span, String)| (p.0, p.1@));
            let ghost sub = self@.subrange(k as int, n as int);
            proof {
                assert(sub[0] == self@[k as int]);
                assert(sub.drop_first() =~= self@.subrange(k + 1, n as int));
                assert(self@[k as int] == self.words@[k as int]@);
            }
            let wlen = self.words[k].unicode_len();
            if wlen > end - a && range_is_prefix_of(s, a, end, &self.words[k]) {
                out.push((Span::new(a, end), self.words[k].clone()));
                proof {
                    assert(out@.map_values(|p: (Span, String)| (p.0, p.1@)) =~= pre + seq![
                        (Span { start: a, end }, self@[k as int]),
                    ]);
                    assert(pre + (seq![(Span { start: a, end }, self@[k as int])] + anchor_pairs(
                        self@.subrange(k + 1, n as int),
                        s@,
                        a as int,
                    )) =~= (pre + seq![(Span { start: a, end }, self@[k as int])]) + anchor_pairs(
                        self@.subrange(k + 1, n as int),
                        s@,
                        a as int,
                    ));
                }
            } else {
                proof {
                    assert(anchor_pairs(sub, s@, a as int) == anchor_pairs(
                        self@.subrange(k + 1, n as int),
                        s@,
                        a as int,
                    ));
                }
            }
            k = k + 1;
        }
        proof {
            assert(self@.subrange(n as int, n as int) =~= Seq::<Seq<char>>::empty());
            assert(anchor_pairs(self@.subrange(n as int, n as int), s@, a as int) =~= Seq::<
                (Span, Seq<char>),
            >::empty());
            assert(out@.map_values(|p: (Span, String)| (p.0, p.1@)) + Seq::<
                (Span, Seq<char>),
            >::empty() =~= out@.map_values(|p: (Span, String)| (p.0, p.1@)));
        }
        out
    }
}

impl Completer for DefaultCompleter {
    /// Completes the text left of the cursor against the dictionary: for
    /// every word start in that text, nearest first, every stored word that
    /// extends it beyond the cursor, in dictionary order, with the span to
    /// replace. The candidate query is the literal text between the word
    /// start and the cursor, spaces included as typed; a cursor right after
    /// a space starts no word of its own, so nothing is offered there. A
    /// position past the end of the line is clamped to its end.
    fn complete(&self, line: &str, pos: usize) -> (r: Vec<(Span, String)>)
        ensures
            ({
                let cut = if pos as int <= line@.len() {
                    pos as int
                } else {
                    line@.len() as int
                };
                r@.map_values(|p: (Span, String)| (p.0, p.1@)) == completions_spec(
                    self@,
                    line@.subrange(0, cut),
                )
            }),
    {
        let all = chars_of(line);
        let n = all.len();
        let cut = if pos <= n {
            pos
        } else {
            n
        };
        let mut s: Vec<char> = Vec::new();
        let mut i: usize = 0;
        while i < cut
            invariant
                i <= cut <= n,
                n == line@.len(),
                all@ == line@,
                s@ == line@.subrange(0, i as int),
            decreases cut - i,
        {
            s.push(all[i]);
            proof {
                assert(s@ =~= line@.subrange(0, i + 1));
            }
            i = i + 1;
        }
        let ghost sv = s@;
        let ghost total = completions_spec(self@, sv);
        let mut out: Vec<(Span, String)> = Vec::new();
        let mut p = cut;
        proof {
            assert(out@.map_values(|q: (Span, String)| (q.0, q.1@)) + completions_upto(
                self@,
                sv,
                p as int,
            ) =~= completions_upto(self@, sv, p as int));
        }
        while p > 0
            invariant
                p <= cut,
                s@ == sv,
                sv.len() == cut,
                out@.map_values(|q: (Span, String)| (q.0, q.1@)) + completions_upto(
                    self@,
                    sv,
                    p as int,
                ) == total,
                total == completions_spec(self@, sv),
            decreases p,
        {
            let is_anchor_here = s[p - 1] != ' ' && (p - 1 == 0 || s[p - 2] == ' ');
            if is_anchor_here {
                let ghost pre = out@.map_values(|q: (Span, String)| (q.0, q.1@));
                let mut grp = self.collect_anchor(&s, p - 1, cut);
                let ghost grp_view = grp@.map_values(|q: (Span, String)| (q.0, q.1@));
                out.append(&mut grp);
                proof {
                    assert(is_anchor(sv, p - 1));
                    assert(out@.map_values(|q: (Span, String)| (q.0, q.1@)) =~= pre + grp_view);
                    assert((pre + grp_view) + completions_upto(self@, sv, p - 1) =~= pre + (grp_view
                        + completions_upto(self@, sv, p - 1)));
                    assert(grp_view + completions_upto(self@, sv, p - 1) =~= completions_upto(
                        self@,
                        sv,
                        p as int,
                    ));
                }
            } else {
                proof {
                    assert(!is_anchor(sv, p - 1));
                    assert(completions_upto(self@, sv, p - 1) == completions_upto(
                        self@,
                        sv,
                        p as int,
                    ));
                }
            }
            p = p - 1;
        }
        proof {
            assert(completions_upto(self@, sv, 0) =~= Seq::<(Span, Seq<char>)>::empty());
            assert(out@.map_values(|q: (Span, String)| (q.0, q.1@)) + Seq::<
                (Span, Seq<char>),
            >::empty() =~= out@.map_values(|q: (Span, String)| (q.0, q.1@)));
        }
        out
    }
}

} // verus!

verus! {

/// The length of the longest common prefix of two sequences.
pub open spec fn lcp_len(a: Seq<char>, b: Seq<char>) -> int
    decreases a.len(),
{
    if a.len() == 0 || b.len() == 0 {
        0
    } else if a[0] == b[0] {
        1 + lcp_len(a.drop_first(), b.drop_first())
    } else {
        0
    }
}

pub proof fn lemma_lcp_bounds(a: Seq<char>, b: Seq<char>)
    ensures
        0 <= lcp_len(a, b) <= a.len(),
        lcp_len(a, b) <= b.len(),
    decreases a.len(),
{
    if a.len() > 0 && b.len() > 0 && a[0] == b[0] {
        lemma_lcp_bounds(a.drop_first(), b.drop_first());
    }
}

/// How many distinct non-empty prefixes the first `i` words contribute when
/// the words are sorted: each word adds what reaches past its common prefix
/// with its predecessor. This is the number of nodes a prefix tree of the
/// words would have, less its root.
pub open spec fn prefix_count(ws: Seq<Seq<char>>, i: int) -> int
    decreases i,
{
    if i <= 0 {
        0
    } else {
        prefix_count(ws, i - 1) + ws[i - 1].len() - if i == 1 {
            0
        } else {
            lcp_len(ws[i - 1], ws[i - 2])
        }
    }
}

pub proof fn lemma_prefix_count_mono(ws: Seq<Seq<char>>, i: int)
    requires
        0 <= i <= ws.len(),
    ensures
        prefix_count(ws, i) >= 0,
        i > 0 ==> prefix_count(ws, i) >= prefix_count(ws, i - 1),
    decreases i,
{
    if i > 0 {
        lemma_prefix_count_mono(ws, i - 1);
        if i == 1 {
        } else {
            lemma_lcp_bounds(ws[i - 1], ws[i - 2]);
        }
    }
}

impl DefaultCompleter {
    /// The size of the dictionary's prefix tree: one node for each distinct
    /// non-empty prefix of a stored word, and one root (clamped to the
    /// counter's width).
    pub fn size(&self) -> (r: u32)
        requires
            self.wf(),
        ensures
            r == if 1 + prefix_count(self@, self@.len() as int) <= u32::MAX {
                1 + prefix_count(self@, self@.len() as int)
            } else {
                u32::MAX as int
            },
    {
        let n = self.words.len();
        let mut acc: u64 = 1;
        let mut i: usize = 0;
        while i < n
            invariant
                i <= n,
                n == self@.len(),
                self.wf(),
                1 <= acc <= u32::MAX as u64,
                acc == if 1 + prefix_count(self@, i as int) <= u32::MAX {
                    1 + prefix_count(self@, i as int)
                } else {
                    u32::MAX as int
                },
            decreases n - i,
        {
            proof {
                lemma_prefix_count_mono(self@, i as int);
                lemma_prefix_count_mono(self@, i + 1);
                assert(self@[i as int] == self.words@[i as int]@);
                if i > 0 {
                    assert(self@[i as int - 1] == self.words@[i as int - 1]@);
                }
            }
            let wlen = self.words[i].unicode_len();
            let shared = if i == 0 {
                0
            } else {
                lcp_exec(&self.words[i], &self.words[i - 1])
            };
            proof {
                if i > 0 {
                    lemma_lcp_bounds(self@[i as int], self@[i as int - 1]);
                }
            }
            let add = (wlen - shared) as u64;
            if acc >= u32::MAX as u64 || add >= u32::MAX as u64 - acc {
                acc = u32::MAX as u64;
            } else {
                acc = acc + add;
            }
            i = i + 1;
        }
        acc as u32
    }
}

/// The length of the longest common prefix of two stored words.
fn lcp_exec(a: &String, b: &String) -> (r: usize)
    ensures
        r == lcp_len(a@, b@),
        r <= a@.len(),
        r <= b@.len(),
{
    let na = a.unicode_len();
    let nb = b.unicode_len();
    proof {
        assert(a@.subrange(0, na as int) =~= a@);
        assert(b@.subrange(0, nb as int) =~= b@);
    }
    let mut i: usize = 0;
    while i < na && i < nb && a.get_char(i) == b.get_char(i)
        invariant
            i <= na,
            i <= nb,
            na == a@.len(),
            nb == b@.len(),
            lcp_len(a@, b@) == i + lcp_len(
                a@.subrange(i as int, na as int),
                b@.subrange(i as int, nb as int),
            ),
        decreases na - i,
    {
        proof {
            let sa = a@.subrange(i as int, na as int);
            let sb = b@.subrange(i as int, nb as int);
            assert(sa[0] == sb[0]);
            assert(sa.drop_first() =~= a@.subrange(i + 1, na as int));
            assert(sb.drop_first() =~= b@.subrange(i + 1, nb as int));
        }
        i = i + 1;
    }
    proof {
        let sa = a@.subrange(i as int, na as int);
        let sb = b@.subrange(i as int, nb as int);
        assert(lcp_len(sa, sb) == 0);
        lemma_lcp_bounds(a@, b@);
    }
    i
}

/// A history-specific completer with a focus on completing whole lines of
/// history.
#[derive(Debug)]
pub struct HistoryCompleter {
    history: Vec<String>,
}

/// The entries that start with the query, oldest first.
pub open spec fn history_matches(hist: Seq<Seq<char>>, q: Seq<char>) -> Seq<Seq<char>>
    decreases hist.len(),
{
    if hist.len() == 0 {
        Seq::empty()
    } else {
        let rest = history_matches(hist.drop_first(), q);
        if q.is_prefix_of(hist[0]) {
            seq![hist[0]] + rest
        } else {
            rest
        }
    }
}

impl HistoryCompleter {
    /// The stored history lines.
    pub closed spec fn history_spec(&self) -> Seq<Seq<char>> {
        self.history@.map_values(|s: String| s@)
    }

    /// A completer over the given history lines.
    pub fn new(history: Vec<String>) -> (r: Self)
        ensures
            r.history_spec() == history@.map_values(|s: String| s@),
    {
        HistoryCompleter { history }
    }
}

impl Completer for HistoryCompleter {
    /// Completes a whole line of history: of the entries that start with the
    /// text left of the cursor, the most recent one, carried as the text
    /// that follows the cursor with the span from the cursor to the end of
    /// the line. An empty line, a cursor past its end, or no match give no
    /// completions.
    fn complete(&self, line: &str, pos: usize) -> (r: Vec<(Span, String)>)
        ensures
            ({
                let q = line@.subrange(
                    0,
                    if pos as int <= line@.len() {
                        pos as int
                    } else {
                        line@.len() as int
                    },
                );
                let ms = history_matches(self.history_spec(), q);
                if line@.len() == 0 || pos as int > line@.len() || ms.len() == 0 {
                    r@.len() == 0
                } else {
                    r@.len() == 1 && r@[0].0 == (Span { start: pos, end: line@.len() as usize })
                        && r@[0].1@ == ms.last().skip(pos as int)
                }
            }),
    {
        let n = line.unicode_len();
        if n == 0 || pos > n {
            return Vec::new();
        }
        let chars = chars_of(line);
        let hn = self.history.len();
        let mut best: Option<&String> = None;
        let ghost q = line@.subrange(0, pos as int);
        let mut k: usize = 0;
        proof {
            assert(history_matches(self.history_spec().subrange(0, 0), q) =~= Seq::<
                Seq<char>,
            >::empty());
        }
        while k < hn
            invariant
                k <= hn,
                hn == self.history_spec().len(),
                pos <= n == line@.len(),
                chars@ == line@,
                q == line@.subrange(0, pos as int),
                ({
                    let ms = history_matches(self.history_spec().subrange(0, k as int), q);
                    match best {
                        Some(s) => ms.len() > 0 && s@ == ms.last() && q.is_prefix_of(s@),
                        None => ms.len() == 0,
                    }
                }),
            decreases hn - k,
        {
            proof {
                let sub = self.history_spec().subrange(0, k + 1);
                assert(self.history_spec()[k as int] == self.history@[k as int]@);
                lemma_history_matches_snoc(self.history_spec(), q, k as int);
            }
            if range_is_prefix_of(&chars, 0, pos, &self.history[k]) {
                proof {
                    assert(chars@.subrange(0, pos as int) == q);
                }
                best = Some(&self.history[k]);
            }
            k = k + 1;
        }
        proof {
            assert(self.history_spec().subrange(0, hn as int) =~= self.history_spec());
        }
        match best {
            Some(s) => {
                let slen = s.unicode_len();
                if pos <= slen {
                    let suffix = s.substring_char(pos, slen).to_owned();
                    let mut out: Vec<(Span, String)> = Vec::new();
                    out.push((Span::new(pos, n), suffix));
                    proof {
                        let ms = history_matches(self.history_spec(), q);
                        assert(out@[0].1@ =~= ms.last().skip(pos as int));
                    }
                    out
                } else {
                    // A prefix of length `pos` is at least that long, so
                    // this branch cannot be reached.
                    proof {
                        assert(q.len() <= s@.len());
                        assert(false);
                    }
                    Vec::new()
                }
            },
            None => Vec::new(),
        }
    }
}

/// Extending the scanned part of the history by one entry appends it to the
/// matches exactly when the query is its prefix.
proof fn lemma_history_matches_snoc(hist: Seq<Seq<char>>, q: Seq<char>, k: int)
    requires
        0 <= k < hist.len(),
    ensures
        history_matches(hist.subrange(0, k + 1), q) == if q.is_prefix_of(hist[k]) {
            history_matches(hist.subrange(0, k), q).push(hist[k])
        } else {
            history_matches(hist.subrange(0, k), q)
        },
    decreases k,
{
    let pre = hist.subrange(0, k + 1);
    if k == 0 {
        assert(pre.drop_first() =~= hist.subrange(0, 0));
        assert(history_matches(hist.subrange(0, 0), q) =~= Seq::<Seq<char>>::empty());
        if q.is_prefix_of(hist[0]) {
            assert(seq![hist[0]] + Seq::<Seq<char>>::empty() =~= history_matches(
                hist.subrange(0, 0),
                q,
            ).push(hist[0]));
        }
    } else {
        let tail = hist.subrange(1, hist.len() as int);
        lemma_history_matches_snoc(tail, q, k - 1);
        assert(pre.drop_first() =~= tail.subrange(0, k));
        assert(hist.subrange(0, k).drop_first() =~= tail.subrange(0, k - 1));
        assert(tail[k - 1] == hist[k]);
        assert(pre[0] == hist[0]);
        assert(hist.subrange(0, k)[0] == hist[0]);
        if q.is_prefix_of(hist[0]) {
            if q.is_prefix_of(hist[k]) {
                assert(seq![hist[0]] + history_matches(tail.subrange(0, k - 1), q).push(hist[k])
                    =~= (seq![hist[0]] + history_matches(tail.subrange(0, k - 1), q)).push(
                    hist[k],
                ));
            }
        }
    }
}

} // verus!
