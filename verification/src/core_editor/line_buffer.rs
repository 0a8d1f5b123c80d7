//! An in-memory line buffer: the characters of the line being edited and the
//! cursor position inside them.
//!
//! The mathematical model of a buffer is a [`BufState`]: the character
//! sequence together with the cursor. Every mutator's contract states the new
//! model as a function of the old one, so the effect of each editing
//! primitive is pinned exactly.

use vstd::prelude::*;

verus! {

/// The mathematical state of a line buffer: its characters and the cursor
/// position, `0 <= cur <= text.len()`.
pub struct BufState {
    /// The characters of the buffer.
    pub text: Seq<char>,
    /// The cursor position, as a character offset.
    pub cur: int,
}

/// A buffer state is well formed when the cursor lies inside the text.
pub open spec fn buf_wf(st: BufState) -> bool {
    0 <= st.cur <= st.text.len()
}

/// Characters that separate words.
pub open spec fn is_word_sep(c: char) -> bool {
    c == ' ' || c == '\t' || c == '\n' || c == '\r'
}

/// The greatest position at or left of `p` whose left neighbour is not a
/// word separator (the left edge of a separator run).
pub open spec fn skip_sep_left(s: Seq<char>, p: int) -> int
    decreases p,
{
    if p <= 0 {
        0
    } else if is_word_sep(s[p - 1]) {
        skip_sep_left(s, p - 1)
    } else {
        p
    }
}

/// The greatest position at or left of `p` whose left neighbour is a word
/// separator (the left edge of a word-character run).
pub open spec fn skip_word_left(s: Seq<char>, p: int) -> int
    decreases p,
{
    if p <= 0 {
        0
    } else if !is_word_sep(s[p - 1]) {
        skip_word_left(s, p - 1)
    } else {
        p
    }
}

/// The least position at or right of `p` that does not hold a word separator.
pub open spec fn skip_sep_right(s: Seq<char>, p: int) -> int
    decreases s.len() - p,
{
    if p < 0 || p >= s.len() {
        s.len() as int
    } else if is_word_sep(s[p]) {
        skip_sep_right(s, p + 1)
    } else {
        p
    }
}

/// The least position at or right of `p` that holds a word separator.
pub open spec fn skip_word_right(s: Seq<char>, p: int) -> int
    decreases s.len() - p,
{
    if p < 0 || p >= s.len() {
        s.len() as int
    } else if !is_word_sep(s[p]) {
        skip_word_right(s, p + 1)
    } else {
        p
    }
}

/// Where the cursor lands when it moves one word to the left: the start of
/// the word whose separators (if any) lie directly left of `p`.
pub open spec fn word_left_index(s: Seq<char>, p: int) -> int {
    skip_word_left(s, skip_sep_left(s, p))
}

/// Where the cursor lands when it moves one word to the right: the end of
/// the word that starts at or right of `p`.
pub open spec fn word_right_index(s: Seq<char>, p: int) -> int {
    skip_word_right(s, skip_sep_right(s, p))
}

/// The start of the line holding position `p`: the position right after the
/// previous newline, or `0`.
pub open spec fn line_start_of(s: Seq<char>, p: int) -> int
    decreases p,
{
    if p <= 0 {
        0
    } else if s[p - 1] == '\n' {
        p
    } else {
        line_start_of(s, p - 1)
    }
}

/// The end of the line holding position `p`: the position of the next
/// newline, or the end of the buffer.
pub open spec fn line_end_of(s: Seq<char>, p: int) -> int
    decreases s.len() - p,
{
    if p < 0 || p >= s.len() {
        s.len() as int
    } else if s[p] == '\n' {
        p
    } else {
        line_end_of(s, p + 1)
    }
}

pub proof fn lemma_line_start_bounds(s: Seq<char>, p: int)
    requires
        0 <= p <= s.len(),
    ensures
        0 <= line_start_of(s, p) <= p,
    decreases p,
{
    if p > 0 && s[p - 1] != '\n' {
        lemma_line_start_bounds(s, p - 1);
    }
}

pub proof fn lemma_line_end_bounds(s: Seq<char>, p: int)
    requires
        0 <= p <= s.len(),
    ensures
        p <= line_end_of(s, p) <= s.len(),
    decreases s.len() - p,
{
    if p < s.len() && s[p] != '\n' {
        lemma_line_end_bounds(s, p + 1);
    }
}

} // verus!

verus! {

/// `t` spliced into the text at position `i`, with the cursor at the end of
/// the inserted part.
pub open spec fn insert_at_st(st: BufState, i: int, t: Seq<char>) -> BufState {
    BufState {
        text: st.text.subrange(0, i) + t + st.text.subrange(i, st.text.len() as int),
        cur: i + t.len(),
    }
}

/// One character inserted at the cursor.
pub open spec fn insert_char_st(st: BufState, c: char) -> BufState {
    insert_at_st(st, st.cur, seq![c])
}

/// A string of characters inserted at the cursor.
pub open spec fn insert_seq_st(st: BufState, t: Seq<char>) -> BufState {
    insert_at_st(st, st.cur, t)
}

/// The range `[a, b)` removed from the text. A cursor inside the removed
/// range moves to its start; one behind it moves left by the removed length.
pub open spec fn remove_range_st(st: BufState, a: int, b: int) -> BufState {
    BufState {
        text: st.text.subrange(0, a) + st.text.subrange(b, st.text.len() as int),
        cur: if st.cur <= a {
            st.cur
        } else if st.cur < b {
            a
        } else {
            st.cur - (b - a)
        },
    }
}

/// The character left of the cursor removed, if there is one.
pub open spec fn backspace_st(st: BufState) -> BufState {
    if st.cur > 0 {
        remove_range_st(st, st.cur - 1, st.cur)
    } else {
        st
    }
}

/// The character under the cursor removed, if there is one.
pub open spec fn delete_st(st: BufState) -> BufState {
    if st.cur < st.text.len() {
        remove_range_st(st, st.cur, st.cur + 1)
    } else {
        st
    }
}

/// The word left of the cursor removed.
pub open spec fn backspace_word_st(st: BufState) -> BufState {
    remove_range_st(st, word_left_index(st.text, st.cur), st.cur)
}

/// The word right of the cursor removed.
pub open spec fn delete_word_st(st: BufState) -> BufState {
    remove_range_st(st, st.cur, word_right_index(st.text, st.cur))
}

/// The empty buffer.
pub open spec fn clear_st(st: BufState) -> BufState {
    BufState { text: Seq::empty(), cur: 0 }
}

/// Everything from the cursor on removed.
pub open spec fn clear_to_end_st(st: BufState) -> BufState {
    BufState { text: st.text.subrange(0, st.cur), cur: st.cur }
}

/// Everything from the cursor to the end of the current line removed.
pub open spec fn clear_to_line_end_st(st: BufState) -> BufState {
    remove_range_st(st, st.cur, line_end_of(st.text, st.cur))
}

/// The cursor moved to the given position; the text unchanged.
pub open spec fn with_cursor_st(st: BufState, p: int) -> BufState {
    BufState { text: st.text, cur: p }
}

/// The cursor moved one character left, if possible.
pub open spec fn move_left_st(st: BufState) -> BufState {
    if st.cur > 0 {
        with_cursor_st(st, st.cur - 1)
    } else {
        st
    }
}

/// The cursor moved one character right, if possible.
pub open spec fn move_right_st(st: BufState) -> BufState {
    if st.cur < st.text.len() {
        with_cursor_st(st, st.cur + 1)
    } else {
        st
    }
}

} // verus!

verus! {

/// The line under edit and the cursor inside it.
///
/// Cursor positions are character offsets; the buffer's model is a
/// [`BufState`] and every mutator states its exact effect on that model.
#[derive(Debug)]
pub struct LineBuffer {
    buffer: Vec<char>,
    insertion_point: usize,
}

impl View for LineBuffer {
    type V = BufState;

    closed spec fn view(&self) -> BufState {
        BufState { text: self.buffer@, cur: self.insertion_point as int }
    }
}

impl LineBuffer {
    /// The cursor lies inside the text.
    pub open spec fn wf(&self) -> bool {
        buf_wf(self@)
    }

    /// An empty buffer with the cursor at its start.
    pub fn new() -> (lb: LineBuffer)
        ensures
            lb.wf(),
            lb@.text == Seq::<char>::empty(),
            lb@.cur == 0,
    {
        LineBuffer { buffer: Vec::new(), insertion_point: 0 }
    }

    /// The cursor position.
    pub fn offset(&self) -> (p: usize)
        ensures
            p == self@.cur,
    {
        self.insertion_point
    }

    /// The number of characters in the buffer.
    pub fn char_count(&self) -> (n: usize)
        ensures
            n == self@.text.len(),
    {
        self.buffer.len()
    }

    /// Whether the buffer holds no characters.
    pub fn is_empty(&self) -> (r: bool)
        ensures
            r == (self@.text.len() == 0),
    {
        self.buffer.len() == 0
    }

    /// The buffer's contents as a string.
    pub fn get_buffer(&self) -> (s: String)
        ensures
            s@ == self@.text,
    {
        crate::text_manipulation::string_from_chars(&self.buffer)
    }

    /// Places the cursor at the given character offset.
    pub fn set_insertion_point(&mut self, pos: usize)
        requires
            pos <= old(self)@.text.len(),
        ensures
            final(self)@ == with_cursor_st(old(self)@, pos as int),
            final(self).wf(),
    {
        self.insertion_point = pos;
    }

    /// Replaces the whole text. The cursor keeps its position, clamped to the
    /// new end.
    pub fn set_buffer(&mut self, buffer: String)
        ensures
            final(self)@.text == buffer@,
            final(self)@.cur == if old(self)@.cur <= buffer@.len() {
                old(self)@.cur
            } else {
                buffer@.len() as int
            },
            final(self).wf(),
    {
        let chars = crate::text_manipulation::chars_of(buffer.as_str());
        if self.insertion_point > chars.len() {
            self.insertion_point = chars.len();
        }
        self.buffer = chars;
    }

    /// Moves the cursor to the start of the buffer.
    pub fn move_to_start(&mut self)
        ensures
            final(self)@ == with_cursor_st(old(self)@, 0),
            final(self).wf(),
    {
        self.insertion_point = 0;
    }

    /// Moves the cursor to the end of the buffer.
    pub fn move_to_end(&mut self)
        ensures
            final(self)@ == with_cursor_st(old(self)@, old(self)@.text.len() as int),
            final(self).wf(),
    {
        self.insertion_point = self.buffer.len();
    }

    /// Moves the cursor one character to the left, if possible.
    pub fn move_left(&mut self)
        requires
            old(self).wf(),
        ensures
            final(self)@ == move_left_st(old(self)@),
            final(self).wf(),
    {
        if self.insertion_point > 0 {
            self.insertion_point = self.insertion_point - 1;
        }
    }

    /// Moves the cursor one character to the right, if possible.
    pub fn move_right(&mut self)
        requires
            old(self).wf(),
        ensures
            final(self)@ == move_right_st(old(self)@),
            final(self).wf(),
    {
        if self.insertion_point < self.buffer.len() {
            self.insertion_point = self.insertion_point + 1;
        }
    }

    /// Inserts a character at the cursor and steps over it.
    pub fn insert_char(&mut self, c: char)
        requires
            old(self).wf(),
        ensures
            final(self)@ == insert_char_st(old(self)@, c),
            final(self).wf(),
    {
        self.buffer.insert(self.insertion_point, c);
        let n = self.buffer.len();
        proof {
            assert(self.insertion_point < n);
        }
        self.insertion_point = self.insertion_point + 1;
        proof {
            assert(self@.text =~= insert_char_st(old(self)@, c).text);
        }
    }

    /// Inserts a string at the cursor; the cursor ends behind the inserted
    /// part.
    pub fn insert_str(&mut self, s: &str)
        requires
            old(self).wf(),
        ensures
            final(self)@ == insert_seq_st(old(self)@, s@),
            final(self).wf(),
    {
        let chars = crate::text_manipulation::chars_of(s);
        let base = self.insertion_point;
        let mut j: usize = 0;
        while j < chars.len()
            invariant
                old(self).wf(),
                chars@ == s@,
                base == old(self)@.cur,
                base + j <= self.buffer@.len(),
                j <= chars@.len(),
                self.insertion_point == base,
                self.buffer@ == old(self)@.text.subrange(0, base as int) + chars@.subrange(
                    0,
                    j as int,
                ) + old(self)@.text.subrange(base as int, old(self)@.text.len() as int),
            decreases chars@.len() - j,
        {
            let blen = self.buffer.len();
            proof {
                assert(base + j <= blen);
            }
            self.buffer.insert(base + j, chars[j]);
            proof {
                assert(self.buffer@ =~= old(self)@.text.subrange(0, base as int)
                    + chars@.subrange(0, j + 1) + old(self)@.text.subrange(
                    base as int,
                    old(self)@.text.len() as int,
                ));
            }
            j = j + 1;
        }
        let n = self.buffer.len();
        proof {
            assert(base + chars@.len() <= n);
        }
        self.insertion_point = base + chars.len();
        proof {
            assert(chars@.subrange(0, chars@.len() as int) =~= s@);
            assert(self@.text =~= insert_seq_st(old(self)@, s@).text);
        }
    }
}

} // verus!

verus! {

impl Clone for LineBuffer {
    /// A clone carries the same characters and cursor.
    fn clone(&self) -> (r: Self)
        ensures
            r@ == self@,
    {
        let buffer = self.buffer.clone();
        proof {
            assert(buffer@ =~= self.buffer@);
        }
        LineBuffer { buffer, insertion_point: self.insertion_point }
    }
}

/// Whether `c` separates words.
pub fn is_sep(c: char) -> (r: bool)
    ensures
        r == is_word_sep(c),
{
    c == ' ' || c == '\t' || c == '\n' || c == '\r'
}

fn scan_sep_left(buf: &Vec<char>, pos: usize) -> (r: usize)
    requires
        pos <= buf@.len(),
    ensures
        r == skip_sep_left(buf@, pos as int),
        r <= pos,
{
    let mut p = pos;
    while p > 0 && is_sep(buf[p - 1])
        invariant
            p <= pos <= buf@.len(),
            skip_sep_left(buf@, pos as int) == skip_sep_left(buf@, p as int),
        decreases p,
    {
        p = p - 1;
    }
    p
}

fn scan_word_left(buf: &Vec<char>, pos: usize) -> (r: usize)
    requires
        pos <= buf@.len(),
    ensures
        r == skip_word_left(buf@, pos as int),
        r <= pos,
{
    let mut p = pos;
    while p > 0 && !is_sep(buf[p - 1])
        invariant
            p <= pos <= buf@.len(),
            skip_word_left(buf@, pos as int) == skip_word_left(buf@, p as int),
        decreases p,
    {
        p = p - 1;
    }
    p
}

fn scan_sep_right(buf: &Vec<char>, pos: usize) -> (r: usize)
    requires
        pos <= buf@.len(),
    ensures
        r == skip_sep_right(buf@, pos as int),
        pos <= r <= buf@.len(),
{
    let n = buf.len();
    let mut p = pos;
    while p < n && is_sep(buf[p])
        invariant
            pos <= p <= n,
            n == buf@.len(),
            skip_sep_right(buf@, pos as int) == skip_sep_right(buf@, p as int),
        decreases n - p,
    {
        p = p + 1;
    }
    p
}

fn scan_word_right(buf: &Vec<char>, pos: usize) -> (r: usize)
    requires
        pos <= buf@.len(),
    ensures
        r == skip_word_right(buf@, pos as int),
        pos <= r <= buf@.len(),
{
    let n = buf.len();
    let mut p = pos;
    while p < n && !is_sep(buf[p])
        invariant
            pos <= p <= n,
            n == buf@.len(),
            skip_word_right(buf@, pos as int) == skip_word_right(buf@, p as int),
        decreases n - p,
    {
        p = p + 1;
    }
    p
}

fn scan_line_start(buf: &Vec<char>, pos: usize) -> (r: usize)
    requires
        pos <= buf@.len(),
    ensures
        r == line_start_of(buf@, pos as int),
        r <= pos,
{
    let mut p = pos;
    while p > 0 && buf[p - 1] != '\n'
        invariant
            p <= pos <= buf@.len(),
            line_start_of(buf@, pos as int) == line_start_of(buf@, p as int),
        decreases p,
    {
        p = p - 1;
    }
    p
}

fn scan_line_end(buf: &Vec<char>, pos: usize) -> (r: usize)
    requires
        pos <= buf@.len(),
    ensures
        r == line_end_of(buf@, pos as int),
        pos <= r <= buf@.len(),
{
    let n = buf.len();
    let mut p = pos;
    while p < n && buf[p] != '\n'
        invariant
            pos <= p <= n,
            n == buf@.len(),
            line_end_of(buf@, pos as int) == line_end_of(buf@, p as int),
        decreases n - p,
    {
        p = p + 1;
    }
    p
}

impl LineBuffer {
    /// Removes the characters in `[a, b)`.
    pub fn remove_range(&mut self, a: usize, b: usize)
        requires
            old(self).wf(),
            a <= b <= old(self)@.text.len(),
        ensures
            final(self)@ == remove_range_st(old(self)@, a as int, b as int),
            final(self).wf(),
    {
        let ghost orig = self.buffer@;
        let mut k = b - a;
        while k > 0
            invariant
                a <= b <= orig.len(),
                k <= b - a,
                self.insertion_point == old(self).insertion_point,
                old(self).wf(),
                orig == old(self)@.text,
                self.buffer@ == orig.subrange(0, a as int) + orig.subrange(
                    b - k,
                    orig.len() as int,
                ),
            decreases k,
        {
            proof {
                assert(self.buffer@.len() == a + (orig.len() - (b - k)));
            }
            self.buffer.remove(a);
            proof {
                assert(self.buffer@ =~= orig.subrange(0, a as int) + orig.subrange(
                    b - k + 1,
                    orig.len() as int,
                ));
            }
            k = k - 1;
        }
        if self.insertion_point > a {
            if self.insertion_point < b {
                self.insertion_point = a;
            } else {
                self.insertion_point = self.insertion_point - (b - a);
            }
        }
        proof {
            assert(self@.text =~= remove_range_st(old(self)@, a as int, b as int).text);
        }
    }

    /// The characters in `[a, b)`, copied out.
    pub fn chars_range(&self, a: usize, b: usize) -> (out: Vec<char>)
        requires
            a <= b <= self@.text.len(),
        ensures
            out@ == self@.text.subrange(a as int, b as int),
    {
        let mut out: Vec<char> = Vec::new();
        let mut k = a;
        while k < b
            invariant
                a <= k <= b <= self@.text.len(),
                out@ == self@.text.subrange(a as int, k as int),
            decreases b - k,
        {
            out.push(self.buffer[k]);
            proof {
                assert(out@ =~= self@.text.subrange(a as int, k + 1));
            }
            k = k + 1;
        }
        out
    }

    /// Replaces the characters in `[a, b)` with `s`; the cursor ends behind
    /// the replacement.
    pub fn replace_range(&mut self, a: usize, b: usize, s: &str)
        requires
            old(self).wf(),
            a <= b <= old(self)@.text.len(),
        ensures
            final(self)@.text == old(self)@.text.subrange(0, a as int) + s@ + old(
                self,
            )@.text.subrange(b as int, old(self)@.text.len() as int),
            final(self)@.cur == a + s@.len(),
            final(self).wf(),
    {
        self.remove_range(a, b);
        let chars = crate::text_manipulation::chars_of(s);
        self.insert_at(a, &chars);
        proof {
            assert(self@.text =~= old(self)@.text.subrange(0, a as int) + s@ + old(
                self,
            )@.text.subrange(b as int, old(self)@.text.len() as int));
        }
    }

    /// Inserts the characters at position `i`; the cursor ends behind them.
    fn insert_at(&mut self, i: usize, chars: &Vec<char>)
        requires
            old(self).wf(),
            i <= old(self)@.text.len(),
        ensures
            final(self)@ == insert_at_st(old(self)@, i as int, chars@),
            final(self).wf(),
    {
        let mut j: usize = 0;
        while j < chars.len()
            invariant
                i + j <= self.buffer@.len(),
                j <= chars@.len(),
                i <= old(self)@.text.len(),
                self.insertion_point == old(self).insertion_point,
                self.buffer@ == old(self)@.text.subrange(0, i as int) + chars@.subrange(
                    0,
                    j as int,
                ) + old(self)@.text.subrange(i as int, old(self)@.text.len() as int),
            decreases chars@.len() - j,
        {
            let blen = self.buffer.len();
            proof {
                assert(i + j <= blen);
            }
            self.buffer.insert(i + j, chars[j]);
            proof {
                assert(self.buffer@ =~= old(self)@.text.subrange(0, i as int) + chars@.subrange(
                    0,
                    j + 1,
                ) + old(self)@.text.subrange(i as int, old(self)@.text.len() as int));
            }
            j = j + 1;
        }
        let n = self.buffer.len();
        proof {
            assert(i + chars@.len() <= n);
        }
        self.insertion_point = i + chars.len();
        proof {
            assert(chars@.subrange(0, chars@.len() as int) =~= chars@);
            assert(self@.text =~= insert_at_st(old(self)@, i as int, chars@).text);
        }
    }

    /// Removes the character left of the cursor, if there is one.
    pub fn backspace(&mut self)
        requires
            old(self).wf(),
        ensures
            final(self)@ == backspace_st(old(self)@),
            final(self).wf(),
    {
        if self.insertion_point > 0 {
            let p = self.insertion_point;
            self.remove_range(p - 1, p);
        }
    }

    /// Removes the character under the cursor, if there is one.
    pub fn delete(&mut self)
        requires
            old(self).wf(),
        ensures
            final(self)@ == delete_st(old(self)@),
            final(self).wf(),
    {
        let p = self.insertion_point;
        if p < self.buffer.len() {
            self.remove_range(p, p + 1);
        }
    }

    /// Removes the word left of the cursor.
    pub fn backspace_word(&mut self)
        requires
            old(self).wf(),
        ensures
            final(self)@ == backspace_word_st(old(self)@),
            final(self).wf(),
    {
        let p = self.insertion_point;
        let a = scan_word_left(&self.buffer, scan_sep_left(&self.buffer, p));
        self.remove_range(a, p);
    }

    /// Removes the word right of the cursor.
    pub fn delete_word(&mut self)
        requires
            old(self).wf(),
        ensures
            final(self)@ == delete_word_st(old(self)@),
            final(self).wf(),
    {
        let p = self.insertion_point;
        let b = scan_word_right(&self.buffer, scan_sep_right(&self.buffer, p));
        self.remove_range(p, b);
    }

    /// Empties the buffer.
    pub fn clear(&mut self)
        ensures
            final(self)@ == clear_st(old(self)@),
            final(self).wf(),
    {
        self.buffer = Vec::new();
        self.insertion_point = 0;
    }

    /// Removes everything from the cursor to the end of the buffer.
    pub fn clear_to_end(&mut self)
        requires
            old(self).wf(),
        ensures
            final(self)@ == clear_to_end_st(old(self)@),
            final(self).wf(),
    {
        self.buffer.truncate(self.insertion_point);
    }

    /// Removes everything from the cursor to the end of the current line.
    pub fn clear_to_line_end(&mut self)
        requires
            old(self).wf(),
        ensures
            final(self)@ == clear_to_line_end_st(old(self)@),
            final(self).wf(),
    {
        let p = self.insertion_point;
        let e = scan_line_end(&self.buffer, p);
        self.remove_range(p, e);
        proof {
            lemma_line_end_bounds(old(self)@.text, p as int);
        }
    }

    /// Moves the cursor to the start of the current line.
    pub fn move_to_line_start(&mut self)
        requires
            old(self).wf(),
        ensures
            final(self)@ == with_cursor_st(old(self)@, line_start_of(old(self)@.text, old(self)@.cur)),
            final(self).wf(),
    {
        self.insertion_point = scan_line_start(&self.buffer, self.insertion_point);
    }

    /// Moves the cursor to the end of the current line.
    pub fn move_to_line_end(&mut self)
        requires
            old(self).wf(),
        ensures
            final(self)@ == with_cursor_st(old(self)@, line_end_of(old(self)@.text, old(self)@.cur)),
            final(self).wf(),
    {
        self.insertion_point = scan_line_end(&self.buffer, self.insertion_point);
    }

    /// Moves the cursor one word to the left.
    pub fn move_word_left(&mut self)
        requires
            old(self).wf(),
        ensures
            final(self)@ == with_cursor_st(old(self)@, word_left_index(old(self)@.text, old(self)@.cur)),
            final(self).wf(),
    {
        self.insertion_point = scan_word_left(
            &self.buffer,
            scan_sep_left(&self.buffer, self.insertion_point),
        );
    }

    /// Moves the cursor one word to the right.
    pub fn move_word_right(&mut self)
        requires
            old(self).wf(),
        ensures
            final(self)@ == with_cursor_st(old(self)@, word_right_index(old(self)@.text, old(self)@.cur)),
            final(self).wf(),
    {
        self.insertion_point = scan_word_right(
            &self.buffer,
            scan_sep_right(&self.buffer, self.insertion_point),
        );
    }

    /// Whether no newline lies left of the cursor.
    pub fn is_cursor_at_first_line(&self) -> (r: bool)
        requires
            self.wf(),
        ensures
            r == (line_start_of(self@.text, self@.cur) == 0),
    {
        scan_line_start(&self.buffer, self.insertion_point) == 0
    }

    /// Whether no newline lies at or right of the cursor.
    pub fn is_cursor_at_last_line(&self) -> (r: bool)
        requires
            self.wf(),
        ensures
            r == (line_end_of(self@.text, self@.cur) == self@.text.len()),
    {
        scan_line_end(&self.buffer, self.insertion_point) == self.buffer.len()
    }
}

} // verus!

verus! {

/// The least position `i >= from` with `s[i] == c`, or `-1` when there is
/// none.
pub open spec fn find_char_right(s: Seq<char>, from: int, c: char) -> int
    decreases s.len() - from,
{
    if from < 0 || from >= s.len() {
        -1
    } else if s[from] == c {
        from
    } else {
        find_char_right(s, from + 1, c)
    }
}

/// The greatest position `i <= from` with `s[i] == c`, or `-1` when there is
/// none.
pub open spec fn find_char_left(s: Seq<char>, from: int, c: char) -> int
    decreases from + 1,
{
    if from < 0 || from >= s.len() {
        -1
    } else if s[from] == c {
        from
    } else {
        find_char_left(s, from - 1, c)
    }
}

/// The cursor moved onto (or, with `before`, just left of) the next
/// occurrence of `c` right of the cursor; unchanged when there is none.
pub open spec fn move_right_until_st(st: BufState, c: char, before: bool) -> BufState {
    let i = find_char_right(st.text, st.cur + 1, c);
    if i == -1 {
        st
    } else if before {
        with_cursor_st(st, i - 1)
    } else {
        with_cursor_st(st, i)
    }
}

/// The cursor moved onto (or, with `before`, just right of) the previous
/// occurrence of `c` left of the cursor; unchanged when there is none.
pub open spec fn move_left_until_st(st: BufState, c: char, before: bool) -> BufState {
    let i = find_char_left(st.text, st.cur - 1, c);
    if i == -1 {
        st
    } else if before {
        with_cursor_st(st, i + 1)
    } else {
        with_cursor_st(st, i)
    }
}

/// Everything from the cursor through (or, with `before`, up to) the next
/// occurrence of `c` removed; unchanged when there is none.
pub open spec fn cut_right_until_st(st: BufState, c: char, before: bool) -> BufState {
    let i = find_char_right(st.text, st.cur + 1, c);
    if i == -1 {
        st
    } else if before {
        remove_range_st(st, st.cur, i)
    } else {
        remove_range_st(st, st.cur, i + 1)
    }
}

/// Everything from (or, with `before`, from just right of) the previous
/// occurrence of `c` up to the cursor removed; unchanged when there is none.
pub open spec fn cut_left_until_st(st: BufState, c: char, before: bool) -> BufState {
    let i = find_char_left(st.text, st.cur - 1, c);
    if i == -1 {
        st
    } else if before {
        remove_range_st(st, i + 1, st.cur)
    } else {
        remove_range_st(st, i, st.cur)
    }
}

/// `c` with an ASCII lower-case letter turned upper case.
pub open spec fn upper_char(c: char) -> char {
    if 97 <= c as u32 <= 122 {
        ((c as u8) - 32) as char
    } else {
        c
    }
}

/// `c` with an ASCII upper-case letter turned lower case.
pub open spec fn lower_char(c: char) -> char {
    if 65 <= c as u32 <= 90 {
        ((c as u8) + 32) as char
    } else {
        c
    }
}

/// The characters in `[cursor, end of word)` turned upper case, the cursor
/// moved behind them.
pub open spec fn uppercase_word_st(st: BufState) -> BufState {
    let e = word_right_index(st.text, st.cur);
    BufState {
        text: Seq::new(
            st.text.len(),
            |i: int|
                if st.cur <= i < e {
                    upper_char(st.text[i])
                } else {
                    st.text[i]
                },
        ),
        cur: e,
    }
}

/// The characters in `[cursor, end of word)` turned lower case, the cursor
/// moved behind them.
pub open spec fn lowercase_word_st(st: BufState) -> BufState {
    let e = word_right_index(st.text, st.cur);
    BufState {
        text: Seq::new(
            st.text.len(),
            |i: int|
                if st.cur <= i < e {
                    lower_char(st.text[i])
                } else {
                    st.text[i]
                },
        ),
        cur: e,
    }
}

/// The character under the cursor turned upper case and the cursor stepped
/// over it; unchanged at the end of the buffer.
pub open spec fn capitalize_char_st(st: BufState) -> BufState {
    if st.cur < st.text.len() {
        BufState { text: st.text.update(st.cur, upper_char(st.text[st.cur])), cur: st.cur + 1 }
    } else {
        st
    }
}

/// The characters around the cursor exchanged and the cursor stepped right;
/// unchanged at either edge of the buffer.
pub open spec fn swap_graphemes_st(st: BufState) -> BufState {
    if 0 < st.cur < st.text.len() {
        BufState {
            text: st.text.update(st.cur - 1, st.text[st.cur]).update(st.cur, st.text[st.cur - 1]),
            cur: st.cur + 1,
        }
    } else {
        st
    }
}

/// The word left of the cursor and the word at or right of it exchanged,
/// with the cursor behind the swapped region; unchanged when either side
/// holds no word.
pub open spec fn swap_words_st(st: BufState) -> BufState {
    let s = st.text;
    let b1 = skip_sep_left(s, st.cur);
    let a1 = skip_word_left(s, b1);
    let a2 = skip_sep_right(s, st.cur);
    let b2 = skip_word_right(s, a2);
    if a1 < b1 && a2 < b2 {
        BufState {
            text: s.subrange(0, a1) + s.subrange(a2, b2) + s.subrange(b1, a2) + s.subrange(a1, b1)
                + s.subrange(b2, s.len() as int),
            cur: b2,
        }
    } else {
        st
    }
}

/// The cursor moved to the same column one line up; unchanged on the first
/// line. Columns past the end of the shorter line land on its end.
pub open spec fn move_line_up_st(st: BufState) -> BufState {
    let cs = line_start_of(st.text, st.cur);
    if cs == 0 {
        st
    } else {
        let col = st.cur - cs;
        let ps = line_start_of(st.text, cs - 1);
        let pe = cs - 1;
        with_cursor_st(
            st,
            if ps + col < pe {
                ps + col
            } else {
                pe
            },
        )
    }
}

/// The cursor moved to the same column one line down; unchanged on the last
/// line. Columns past the end of the shorter line land on its end.
pub open spec fn move_line_down_st(st: BufState) -> BufState {
    let ce = line_end_of(st.text, st.cur);
    if ce == st.text.len() {
        st
    } else {
        let cs = line_start_of(st.text, st.cur);
        let col = st.cur - cs;
        let ns = ce + 1;
        let ne = line_end_of(st.text, ns);
        with_cursor_st(
            st,
            if ns + col < ne {
                ns + col
            } else {
                ne
            },
        )
    }
}

} // verus!

verus! {

/// `c` with an ASCII lower-case letter turned upper case.
pub fn to_upper(c: char) -> (r: char)
    ensures
        r == upper_char(c),
{
    let u = c as u32;
    if 97 <= u && u <= 122 {
        ((c as u8) - 32) as char
    } else {
        c
    }
}

/// `c` with an ASCII upper-case letter turned lower case.
pub fn to_lower(c: char) -> (r: char)
    ensures
        r == lower_char(c),
{
    let u = c as u32;
    if 65 <= u && u <= 90 {
        ((c as u8) + 32) as char
    } else {
        c
    }
}

fn scan_char_right(buf: &Vec<char>, from: usize, c: char) -> (r: Option<usize>)
    ensures
        match r {
            Some(i) => i == find_char_right(buf@, from as int, c) && from <= i < buf@.len(),
            None => find_char_right(buf@, from as int, c) == -1,
        },
{
    let n = buf.len();
    let mut p = from;
    if p >= n {
        return None;
    }
    while p < n && buf[p] != c
        invariant
            from <= p <= n,
            n == buf@.len(),
            find_char_right(buf@, from as int, c) == find_char_right(buf@, p as int, c),
        decreases n - p,
    {
        p = p + 1;
    }
    if p < n {
        Some(p)
    } else {
        None
    }
}

fn scan_char_left(buf: &Vec<char>, from: usize, c: char) -> (r: Option<usize>)
    requires
        from < buf@.len(),
    ensures
        match r {
            Some(i) => i == find_char_left(buf@, from as int, c) && i <= from,
            None => find_char_left(buf@, from as int, c) == -1,
        },
{
    let mut p = from;
    while buf[p] != c && p > 0
        invariant
            p <= from < buf@.len(),
            find_char_left(buf@, from as int, c) == find_char_left(buf@, p as int, c),
        decreases p,
    {
        p = p - 1;
    }
    if buf[p] == c {
        Some(p)
    } else {
        proof {
            assert(find_char_left(buf@, -1, c) == -1);
        }
        None
    }
}

impl LineBuffer {
    /// Moves the cursor onto (or, with `before`, just left of) the next
    /// occurrence of `c`; no move when there is none.
    pub fn move_right_until(&mut self, c: char, before: bool)
        requires
            old(self).wf(),
        ensures
            final(self)@ == move_right_until_st(old(self)@, c, before),
            final(self).wf(),
    {
        if self.insertion_point >= self.buffer.len() {
            return ;
        }
        match scan_char_right(&self.buffer, self.insertion_point + 1, c) {
            Some(i) => {
                if before {
                    self.insertion_point = i - 1;
                } else {
                    self.insertion_point = i;
                }
            },
            None => {},
        }
    }

    /// Moves the cursor onto (or, with `before`, just right of) the previous
    /// occurrence of `c`; no move when there is none.
    pub fn move_left_until(&mut self, c: char, before: bool)
        requires
            old(self).wf(),
        ensures
            final(self)@ == move_left_until_st(old(self)@, c, before),
            final(self).wf(),
    {
        if self.insertion_point == 0 {
            proof {
                assert(find_char_left(self@.text, self@.cur - 1, c) == -1);
            }
            return ;
        }
        match scan_char_left(&self.buffer, self.insertion_point - 1, c) {
            Some(i) => {
                if before {
                    self.insertion_point = i + 1;
                } else {
                    self.insertion_point = i;
                }
            },
            None => {},
        }
    }

    /// Removes everything from the cursor through (or, with `before`, up to)
    /// the next occurrence of `c`, and hands the removed part back; nothing
    /// happens when there is none.
    pub fn cut_right_until(&mut self, c: char, before: bool) -> (cut: Option<Vec<char>>)
        requires
            old(self).wf(),
        ensures
            final(self)@ == cut_right_until_st(old(self)@, c, before),
            final(self).wf(),
            match cut {
                Some(v) => find_char_right(old(self)@.text, old(self)@.cur + 1, c) != -1 && v@
                    == old(self)@.text.subrange(old(self)@.cur, cut_end_of(old(self)@, c, before)),
                None => find_char_right(old(self)@.text, old(self)@.cur + 1, c) == -1,
            },
    {
        let n = self.buffer.len();
        if self.insertion_point >= n {
            return None;
        }
        match scan_char_right(&self.buffer, self.insertion_point + 1, c) {
            Some(i) => {
                let p = self.insertion_point;
                proof {
                    assert(i < n);
                }
                let b = if before {
                    i
                } else {
                    i + 1
                };
                let cut = self.chars_range(p, b);
                self.remove_range(p, b);
                Some(cut)
            },
            None => None,
        }
    }

    /// Removes everything from (or, with `before`, from just right of) the
    /// previous occurrence of `c` up to the cursor, and hands the removed
    /// part back; nothing happens when there is none.
    pub fn cut_left_until(&mut self, c: char, before: bool) -> (cut: Option<Vec<char>>)
        requires
            old(self).wf(),
        ensures
            final(self)@ == cut_left_until_st(old(self)@, c, before),
            final(self).wf(),
            match cut {
                Some(v) => find_char_left(old(self)@.text, old(self)@.cur - 1, c) != -1 && v@
                    == old(self)@.text.subrange(
                    cut_start_of(old(self)@, c, before),
                    old(self)@.cur,
                ),
                None => find_char_left(old(self)@.text, old(self)@.cur - 1, c) == -1,
            },
    {
        if self.insertion_point == 0 {
            proof {
                assert(find_char_left(self@.text, self@.cur - 1, c) == -1);
            }
            return None;
        }
        match scan_char_left(&self.buffer, self.insertion_point - 1, c) {
            Some(i) => {
                let p = self.insertion_point;
                let a = if before {
                    i + 1
                } else {
                    i
                };
                let cut = self.chars_range(a, p);
                self.remove_range(a, p);
                Some(cut)
            },
            None => None,
        }
    }
}

/// Where a rightward cut to character `c` ends: just past (or, with
/// `before`, just before) the next occurrence, or the cursor itself when
/// there is none (an empty cut).
pub open spec fn cut_end_of(st: BufState, c: char, before: bool) -> int {
    let i = find_char_right(st.text, st.cur + 1, c);
    if i == -1 {
        st.cur
    } else if before {
        i
    } else {
        i + 1
    }
}

/// Where a leftward cut to character `c` starts: at (or, with `before`, just
/// right of) the previous occurrence, or the cursor itself when there is
/// none (an empty cut).
pub open spec fn cut_start_of(st: BufState, c: char, before: bool) -> int {
    let i = find_char_left(st.text, st.cur - 1, c);
    if i == -1 {
        st.cur
    } else if before {
        i + 1
    } else {
        i
    }
}

} // verus!

verus! {

impl LineBuffer {
    fn transform_range_upper(&mut self, a: usize, b: usize, upper: bool)
        requires
            old(self).wf(),
            a <= b <= old(self)@.text.len(),
        ensures
            final(self)@.cur == old(self)@.cur,
            final(self)@.text == Seq::new(
                old(self)@.text.len(),
                |i: int|
                    if a <= i < b {
                        if upper {
                            upper_char(old(self)@.text[i])
                        } else {
                            lower_char(old(self)@.text[i])
                        }
                    } else {
                        old(self)@.text[i]
                    },
            ),
            final(self).wf(),
    {
        let mut k = a;
        while k < b
            invariant
                a <= k <= b <= self.buffer@.len(),
                self.buffer@.len() == old(self)@.text.len(),
                self.insertion_point == old(self).insertion_point,
                forall|i: int|
                    0 <= i < self.buffer@.len() ==> self.buffer@[i] == if a <= i < k {
                        if upper {
                            upper_char(old(self)@.text[i])
                        } else {
                            lower_char(old(self)@.text[i])
                        }
                    } else {
                        old(self)@.text[i]
                    },
            decreases b - k,
        {
            let c = self.buffer[k];
            let t = if upper {
                to_upper(c)
            } else {
                to_lower(c)
            };
            self.buffer[k] = t;
            k = k + 1;
        }
        proof {
            assert(self@.text =~= Seq::new(
                old(self)@.text.len(),
                |i: int|
                    if a <= i < b {
                        if upper {
                            upper_char(old(self)@.text[i])
                        } else {
                            lower_char(old(self)@.text[i])
                        }
                    } else {
                        old(self)@.text[i]
                    },
            ));
        }
    }

    /// Upper-cases from the cursor to the end of the word and moves the
    /// cursor there.
    pub fn uppercase_word(&mut self)
        requires
            old(self).wf(),
        ensures
            final(self)@ == uppercase_word_st(old(self)@),
            final(self).wf(),
    {
        let p = self.insertion_point;
        let e = scan_word_right(&self.buffer, scan_sep_right(&self.buffer, p));
        self.transform_range_upper(p, e, true);
        self.insertion_point = e;
        proof {
            assert(self@.text =~= uppercase_word_st(old(self)@).text);
        }
    }

    /// Lower-cases from the cursor to the end of the word and moves the
    /// cursor there.
    pub fn lowercase_word(&mut self)
        requires
            old(self).wf(),
        ensures
            final(self)@ == lowercase_word_st(old(self)@),
            final(self).wf(),
    {
        let p = self.insertion_point;
        let e = scan_word_right(&self.buffer, scan_sep_right(&self.buffer, p));
        self.transform_range_upper(p, e, false);
        self.insertion_point = e;
        proof {
            assert(self@.text =~= lowercase_word_st(old(self)@).text);
        }
    }

    /// Upper-cases the character under the cursor and steps over it.
    pub fn capitalize_char(&mut self)
        requires
            old(self).wf(),
        ensures
            final(self)@ == capitalize_char_st(old(self)@),
            final(self).wf(),
    {
        let p = self.insertion_point;
        if p < self.buffer.len() {
            let c = self.buffer[p];
            let t = to_upper(c);
            self.buffer[p] = t;
            self.insertion_point = p + 1;
        }
    }

    /// Exchanges the characters around the cursor and steps right.
    pub fn swap_graphemes(&mut self)
        requires
            old(self).wf(),
        ensures
            final(self)@ == swap_graphemes_st(old(self)@),
            final(self).wf(),
    {
        let p = self.insertion_point;
        if 0 < p && p < self.buffer.len() {
            let a = self.buffer[p - 1];
            let b = self.buffer[p];
            self.buffer[p - 1] = b;
            self.buffer[p] = a;
            self.insertion_point = p + 1;
        }
    }

    /// Exchanges the word left of the cursor with the word at or right of it
    /// and puts the cursor behind the swapped region.
    pub fn swap_words(&mut self)
        requires
            old(self).wf(),
        ensures
            final(self)@ == swap_words_st(old(self)@),
            final(self).wf(),
    {
        let p = self.insertion_point;
        let b1 = scan_sep_left(&self.buffer, p);
        let a1 = scan_word_left(&self.buffer, b1);
        let a2 = scan_sep_right(&self.buffer, p);
        let b2 = scan_word_right(&self.buffer, a2);
        if a1 < b1 && a2 < b2 {
            let n = self.buffer.len();
            let mut out = self.chars_range(0, a1);
            let mut w2 = self.chars_range(a2, b2);
            let mut mid = self.chars_range(b1, a2);
            let mut w1 = self.chars_range(a1, b1);
            let mut tail = self.chars_range(b2, n);
            out.append(&mut w2);
            out.append(&mut mid);
            out.append(&mut w1);
            out.append(&mut tail);
            self.buffer = out;
            self.insertion_point = b2;
        }
    }

    /// Moves the cursor to the same column one line up; clamped to the end
    /// of a shorter line, and no move on the first line.
    pub fn move_line_up(&mut self)
        requires
            old(self).wf(),
        ensures
            final(self)@ == move_line_up_st(old(self)@),
            final(self).wf(),
    {
        let p = self.insertion_point;
        let cs = scan_line_start(&self.buffer, p);
        if cs > 0 {
            let col = p - cs;
            let ps = scan_line_start(&self.buffer, cs - 1);
            let pe = cs - 1;
            proof {
                lemma_line_start_bounds(self@.text, cs - 1);
            }
            if ps + col < pe {
                self.insertion_point = ps + col;
            } else {
                self.insertion_point = pe;
            }
        }
    }

    /// Moves the cursor to the same column one line down; clamped to the end
    /// of a shorter line, and no move on the last line.
    pub fn move_line_down(&mut self)
        requires
            old(self).wf(),
        ensures
            final(self)@ == move_line_down_st(old(self)@),
            final(self).wf(),
    {
        let p = self.insertion_point;
        let n = self.buffer.len();
        let ce = scan_line_end(&self.buffer, p);
        if ce < n {
            let cs = scan_line_start(&self.buffer, p);
            let col = p - cs;
            let ns = ce + 1;
            let ne = scan_line_end(&self.buffer, ns);
            proof {
                lemma_line_end_bounds(self@.text, ns as int);
            }
            if col < ne - ns {
                self.insertion_point = ns + col;
            } else {
                self.insertion_point = ne;
            }
        }
    }
}

impl Default for LineBuffer {
    /// The default buffer is empty with the cursor at its start.
    fn default() -> (lb: LineBuffer)
        ensures
            lb.wf(),
            lb@.text == Seq::<char>::empty(),
            lb@.cur == 0,
    {
        LineBuffer::new()
    }
}

} // verus!

verus! {

impl LineBuffer {
    /// The position one word to the left of the cursor.
    pub fn word_left_pos(&self) -> (r: usize)
        requires
            self.wf(),
        ensures
            r == word_left_index(self@.text, self@.cur),
            0 <= r <= self@.cur,
    {
        scan_word_left(&self.buffer, scan_sep_left(&self.buffer, self.insertion_point))
    }

    /// The position one word to the right of the cursor.
    pub fn word_right_pos(&self) -> (r: usize)
        requires
            self.wf(),
        ensures
            r == word_right_index(self@.text, self@.cur),
            self@.cur <= r <= self@.text.len(),
    {
        scan_word_right(&self.buffer, scan_sep_right(&self.buffer, self.insertion_point))
    }

    /// The start of the line holding the cursor.
    pub fn line_start_pos(&self) -> (r: usize)
        requires
            self.wf(),
        ensures
            r == line_start_of(self@.text, self@.cur),
            0 <= r <= self@.cur,
    {
        scan_line_start(&self.buffer, self.insertion_point)
    }

    /// The end of the line holding the cursor.
    pub fn line_end_pos(&self) -> (r: usize)
        requires
            self.wf(),
        ensures
            r == line_end_of(self@.text, self@.cur),
            self@.cur <= r <= self@.text.len(),
    {
        scan_line_end(&self.buffer, self.insertion_point)
    }

    /// Inserts the characters at position `i`; the cursor ends behind them.
    pub fn insert_chars_at(&mut self, i: usize, chars: &Vec<char>)
        requires
            old(self).wf(),
            i <= old(self)@.text.len(),
        ensures
            final(self)@ == insert_at_st(old(self)@, i as int, chars@),
            final(self).wf(),
    {
        self.insert_at(i, chars);
    }

    /// Removes the characters in `[a, b)` and hands them back.
    pub fn cut_range(&mut self, a: usize, b: usize) -> (cut: Vec<char>)
        requires
            old(self).wf(),
            a <= b <= old(self)@.text.len(),
        ensures
            final(self)@ == remove_range_st(old(self)@, a as int, b as int),
            final(self).wf(),
            cut@ == old(self)@.text.subrange(a as int, b as int),
    {
        let cut = self.chars_range(a, b);
        self.remove_range(a, b);
        cut
    }
}

} // verus!
