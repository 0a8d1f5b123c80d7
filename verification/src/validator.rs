//! The validator decides whether a submitted buffer is a finished input or
//! still awaits continuation lines.

use vstd::prelude::*;

verus! {

/// Whether a buffer is a finished input.
#[derive(Debug, Clone, Copy, PartialEq, Eq, Structural)]
pub enum ValidationResult {
    /// The buffer can be submitted.
    Complete,
    /// The buffer awaits more input (multi-line continuation).
    Incomplete,
}

/// How often `c` occurs in `s`.
pub open spec fn count_char(s: Seq<char>, c: char) -> int
    decreases s.len(),
{
    if s.len() == 0 {
        0
    } else {
        count_char(s.drop_last(), c) + if s.last() == c {
            1int
        } else {
            0int
        }
    }
}

/// A buffer is incomplete exactly when some kind of bracket has more openers
/// than closers.
pub open spec fn incomplete_spec(s: Seq<char>) -> bool {
    ||| count_char(s, '(') > count_char(s, ')')
    ||| count_char(s, '[') > count_char(s, ']')
    ||| count_char(s, '{') > count_char(s, '}')
}

/// Decides whether a line can be submitted.
pub trait Validator {
    /// Whether the buffer is a finished input.
    fn validate(&self, line: &str) -> ValidationResult;
}

/// The default validator: a buffer with unclosed brackets of any kind is
/// incomplete, everything else is complete.
#[derive(Debug, Clone, Copy, Default)]
pub struct DefaultValidator;

/// How often `c` occurs in `s`.
fn count_occurrences(s: &str, c: char) -> (count: usize)
    ensures
        count == count_char(s@, c),
{
    let n = s.unicode_len();
    let mut count: usize = 0;
    let mut i: usize = 0;
    while i < n
        invariant
            i <= n,
            n == s@.len(),
            count <= i,
            count == count_char(s@.subrange(0, i as int), c),
        decreases n - i,
    {
        proof {
            assert(s@.subrange(0, i + 1).drop_last() =~= s@.subrange(0, i as int));
            assert(s@.subrange(0, i + 1).last() == s@[i as int]);
        }
        if s.get_char(i) == c {
            count = count + 1;
        }
        i = i + 1;
    }
    proof {
        assert(s@.subrange(0, n as int) =~= s@);
    }
    count
}

impl Validator for DefaultValidator {
    /// The buffer is incomplete exactly when some kind of bracket has more
    /// openers than closers.
    fn validate(&self, line: &str) -> (r: ValidationResult)
        ensures
            r == (if incomplete_spec(line@) {
                ValidationResult::Incomplete
            } else {
                ValidationResult::Complete
            }),
    {
        if count_occurrences(line, '(') > count_occurrences(line, ')') || count_occurrences(
            line,
            '[',
        ) > count_occurrences(line, ']') || count_occurrences(line, '{') > count_occurrences(
            line,
            '}',
        ) {
            ValidationResult::Incomplete
        } else {
            ValidationResult::Complete
        }
    }
}

} // verus!
