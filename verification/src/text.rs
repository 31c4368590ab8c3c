//! Character classes and maximal-run scanning over document text.
//!
//! Every field recognizer works on the sequence of characters of the
//! source text.  The helpers here classify single characters, measure
//! maximal runs of a class, and test token boundaries, each with an
//! exact specification.

use vstd::prelude::*;
use vstd::string::StrSliceExecFns;

verus! {

/// An ASCII decimal digit.
pub open spec fn is_digit(c: char) -> bool {
    '0' <= c && c <= '9'
}

/// An ASCII uppercase letter.
pub open spec fn is_upper(c: char) -> bool {
    'A' <= c && c <= 'Z'
}

/// An ASCII lowercase letter.
pub open spec fn is_lower(c: char) -> bool {
    'a' <= c && c <= 'z'
}

/// A word character: ASCII letter, digit, or underscore.  Word
/// boundaries of the token patterns are defined against this class.
pub open spec fn is_word(c: char) -> bool {
    is_digit(c) || is_upper(c) || is_lower(c) || c == '_'
}

/// ASCII whitespace, as the separator patterns accept it.
pub open spec fn is_space(c: char) -> bool {
    c == ' ' || c == '\t' || c == '\n' || c == '\r' || c == '\x0b' || c == '\x0c'
}

/// Lowers an ASCII uppercase letter; leaves every other character as it is.
pub open spec fn lower(c: char) -> char {
    if is_upper(c) {
        ((c as u32) + 32) as char
    } else {
        c
    }
}

/// The character classes that the token patterns measure runs of.
#[derive(Clone, Copy, PartialEq, Eq, Structural, Debug)]
pub enum CharClass {
    /// ASCII decimal digits.
    Digit,
    /// ASCII lowercase letters.
    Lower,
    /// ASCII whitespace.
    Space,
    /// A colon or ASCII whitespace: the separator after a field label.
    Label,
    /// A digit or a comma: the body of a dollar amount.
    Amount,
}

/// Whether `c` belongs to the class `cls`.
pub open spec fn in_class(cls: CharClass, c: char) -> bool {
    match cls {
        CharClass::Digit => is_digit(c),
        CharClass::Lower => is_lower(c),
        CharClass::Space => is_space(c),
        CharClass::Label => c == ':' || is_space(c),
        CharClass::Amount => is_digit(c) || c == ',',
    }
}

pub fn exec_is_digit(c: char) -> (r: bool)
    ensures
        r == is_digit(c),
{
    '0' <= c && c <= '9'
}

pub fn exec_is_upper(c: char) -> (r: bool)
    ensures
        r == is_upper(c),
{
    'A' <= c && c <= 'Z'
}

pub fn exec_is_word(c: char) -> (r: bool)
    ensures
        r == is_word(c),
{
    exec_is_digit(c) || exec_is_upper(c) || ('a' <= c && c <= 'z') || c == '_'
}

pub fn exec_in_class(cls: CharClass, c: char) -> (r: bool)
    ensures
        r == in_class(cls, c),
{
    match cls {
        CharClass::Digit => '0' <= c && c <= '9',
        CharClass::Lower => 'a' <= c && c <= 'z',
        CharClass::Space => {
            c == ' ' || c == '\t' || c == '\n' || c == '\r' || c == '\x0b' || c == '\x0c'
        },
        CharClass::Label => {
            c == ':' || c == ' ' || c == '\t' || c == '\n' || c == '\r' || c == '\x0b'
                || c == '\x0c'
        },
        CharClass::Amount => ('0' <= c && c <= '9') || c == ',',
    }
}

/// The position just before `i` holds no word character (or `i` opens
/// the text), so a word-bounded token may begin at `i`.
pub open spec fn boundary_before(t: Seq<char>, i: int) -> bool {
    i == 0 || !is_word(t[i - 1])
}

/// The position `i` holds no word character (or `i` closes the text),
/// so a word-bounded token may end just before `i`.
pub open spec fn boundary_at(t: Seq<char>, i: int) -> bool {
    i >= t.len() || !is_word(t[i])
}

/// Length of the maximal run of characters of class `cls` beginning at `i`.
pub open spec fn run_len(t: Seq<char>, cls: CharClass, i: int) -> int
    decreases t.len() - i,
{
    if i < 0 || i >= t.len() || !in_class(cls, t[i]) {
        0
    } else {
        1 + run_len(t, cls, i + 1)
    }
}

/// What a maximal run means: its length is non-negative, it stays in
/// the text, every character in it is of the class, and the character
/// after it (if any) is not.
pub proof fn lemma_run_len(t: Seq<char>, cls: CharClass, i: int)
    requires
        0 <= i <= t.len(),
    ensures
        0 <= run_len(t, cls, i),
        i + run_len(t, cls, i) <= t.len(),
        forall|j: int| i <= j < i + run_len(t, cls, i) ==> in_class(cls, t[j]),
        i + run_len(t, cls, i) < t.len() ==> !in_class(cls, t[i + run_len(t, cls, i)]),
    decreases t.len() - i,
{
    if i < t.len() && in_class(cls, t[i]) {
        lemma_run_len(t, cls, i + 1);
    }
}

/// The characters of `s`, in order, as a vector.
pub fn chars_vec(s: &str) -> (r: Vec<char>)
    ensures
        r@ == s@,
{
    let n: usize = s.unicode_len();
    let mut r: Vec<char> = Vec::new();
    let mut i: usize = 0;
    while i < n
        invariant
            n == s@.len(),
            i <= n,
            r@ == s@.subrange(0, i as int),
        decreases n - i,
    {
        r.push(s.get_char(i));
        assert(r@ =~= s@.subrange(0, i as int + 1));
        i = i + 1;
    }
    assert(r@ =~= s@);
    r
}

/// Measures the maximal run of class `cls` beginning at `i`.
pub fn class_run(t: &Vec<char>, cls: CharClass, i: usize) -> (r: usize)
    requires
        i <= t@.len(),
    ensures
        r == run_len(t@, cls, i as int),
        i + r <= t@.len(),
{
    let mut j: usize = i;
    while j < t.len() && exec_in_class(cls, t[j])
        invariant
            i <= j <= t@.len(),
            run_len(t@, cls, i as int) == (j - i) + run_len(t@, cls, j as int),
        decreases t@.len() - j,
    {
        j = j + 1;
    }
    proof {
        lemma_run_len(t@, cls, j as int);
    }
    j - i
}

} // verus!
