//! What a templated golden file must spare `upon`.
//!
//! `upon` reads a list index in a path (`users.12.name`) into a `usize` and
//! takes for granted that the digits fit. A source with a list index that does
//! not fit is no template; it is told apart here, before `upon` sees it.
//!
//! A list index is a run of digits that starts between the parts of a path.
//! Digits in plain text, in a string, in a number or in a name are none. To
//! tell them apart the source is read as `upon` reads it: character by
//! character, keeping track of what the current character is part of.

use vstd::prelude::*;

use crate::text::chars_of;

verus! {

/// What the next character of a template source is part of.
#[derive(Debug, Clone, Copy, PartialEq, Eq, Structural)]
pub enum Scan {
    /// Plain text, outside every expression.
    Text,
    /// Plain text after a `{`, which opens an expression if another follows.
    Brace,
    /// An expression, between two of its parts. `path` tells whether a name
    /// was read since the expression opened or since the last `|`, `,` or `:`.
    Gap { path: bool },
    /// An expression after a `}`, which closes it if another follows.
    Closing,
    /// A string. `escaped` tells whether the last character was a backslash.
    Str { path: bool, escaped: bool },
    /// A number.
    Number,
    /// A name.
    Name,
    /// A list index.
    Index,
}

/// A character that may stand between the parts of an expression.
pub open spec fn is_blank(c: char) -> bool {
    c == ' ' || c == '\t'
}

/// An ASCII digit.
pub open spec fn is_digit(c: char) -> bool {
    '0' as u32 <= c as u32 <= '9' as u32
}

/// An ASCII letter.
pub open spec fn is_letter(c: char) -> bool {
    'a' as u32 <= c as u32 <= 'z' as u32 || 'A' as u32 <= c as u32 <= 'Z' as u32
}

/// A character that a number goes on with.
pub open spec fn is_number_char(c: char) -> bool {
    is_digit(c) || is_letter(c) || c == '_' || c == '-' || c == '+' || c == '.'
}

/// A character that a name goes on with. Of the characters beyond ASCII some
/// cannot stand in a name; `upon` refuses the source where one of them occurs
/// in an expression outside a string, so they are not told apart here.
pub open spec fn is_name_char(c: char) -> bool {
    is_digit(c) || is_letter(c) || c == '_' || c as u32 >= 128
}

/// What a character that starts a part of an expression starts. A character
/// that starts nothing is taken for the start of a name: `upon` refuses the
/// source where one occurs. The words that `upon` keeps for itself (`true`,
/// `if`) are read as names too: `upon` refuses the source where a `.` or a
/// digit follows one.
pub open spec fn part_start(path: bool, c: char) -> Scan {
    if c == '}' {
        Scan::Closing
    } else if c == '.' || c == '+' || c == '-' || is_blank(c) {
        Scan::Gap { path }
    } else if c == '|' || c == ',' || c == ':' {
        Scan::Gap { path: false }
    } else if c == '"' {
        Scan::Str { path, escaped: false }
    } else if is_digit(c) {
        if path {
            Scan::Index
        } else {
            Scan::Number
        }
    } else {
        Scan::Name
    }
}

/// What the character after `c` is part of, where `c` is part of `state`.
pub open spec fn step(state: Scan, c: char) -> Scan {
    match state {
        Scan::Text => if c == '{' {
            Scan::Brace
        } else {
            Scan::Text
        },
        Scan::Brace => if c == '{' {
            Scan::Gap { path: false }
        } else {
            Scan::Text
        },
        Scan::Gap { path } => part_start(path, c),
        Scan::Closing => Scan::Text,
        Scan::Str { path, escaped } => if c == '"' && !escaped {
            Scan::Gap { path }
        } else {
            Scan::Str { path, escaped: c == '\\' }
        },
        Scan::Number => if is_number_char(c) {
            Scan::Number
        } else {
            part_start(false, c)
        },
        Scan::Name => if is_name_char(c) {
            Scan::Name
        } else {
            part_start(true, c)
        },
        Scan::Index => if is_digit(c) {
            Scan::Index
        } else {
            part_start(true, c)
        },
    }
}

/// What the character at `at` is part of, once `s` was read up to it.
pub open spec fn scan(s: Seq<char>, at: int) -> Scan
    decreases at,
{
    if at <= 0 {
        Scan::Text
    } else {
        step(scan(s, at - 1), s[at - 1])
    }
}

/// The decimal number that starts with the digits `acc` and goes on with the
/// digits of `s` from `from`, as far as they go.
pub open spec fn run_value(s: Seq<char>, from: int, acc: int) -> int
    decreases s.len() - from,
{
    if 0 <= from < s.len() && is_digit(s[from]) {
        run_value(s, from + 1, acc * 10 + (s[from] as u32 - '0' as u32))
    } else {
        acc
    }
}

/// A list index starts at `at`.
pub open spec fn index_starts_at(s: Seq<char>, at: int) -> bool {
    0 <= at < s.len() && scan(s, at + 1) == Scan::Index && scan(s, at) != Scan::Index
}

/// A list index starts at `at`, and it does not fit a `usize`.
pub open spec fn overflowing_index_at(s: Seq<char>, at: int) -> bool {
    index_starts_at(s, at) && run_value(s, at, 0) > usize::MAX
}

/// Every list index of `s` fits a `usize`.
pub open spec fn indexes_fit(s: Seq<char>) -> bool {
    forall|at: int| !#[trigger] overflowing_index_at(s, at)
}

/// `{{` stands at `at`.
pub open spec fn opens_at(s: Seq<char>, at: int) -> bool {
    0 <= at && at + 1 < s.len() && s[at] == '{' && s[at + 1] == '{'
}

fn digit(c: char) -> (r: bool)
    ensures
        r == is_digit(c),
{
    '0' as u32 <= c as u32 && c as u32 <= '9' as u32
}

fn letter(c: char) -> (r: bool)
    ensures
        r == is_letter(c),
{
    ('a' as u32 <= c as u32 && c as u32 <= 'z' as u32) || ('A' as u32 <= c as u32 && c as u32
        <= 'Z' as u32)
}

fn start_part(path: bool, c: char) -> (next: Scan)
    ensures
        next == part_start(path, c),
{
    if c == '}' {
        Scan::Closing
    } else if c == '.' || c == '+' || c == '-' || c == ' ' || c == '\t' {
        Scan::Gap { path }
    } else if c == '|' || c == ',' || c == ':' {
        Scan::Gap { path: false }
    } else if c == '"' {
        Scan::Str { path, escaped: false }
    } else if digit(c) {
        if path {
            Scan::Index
        } else {
            Scan::Number
        }
    } else {
        Scan::Name
    }
}

/// What the character after `c` is part of, where `c` is part of `state`.
pub fn advance(state: Scan, c: char) -> (next: Scan)
    ensures
        next == step(state, c),
{
    match state {
        Scan::Text => if c == '{' {
            Scan::Brace
        } else {
            Scan::Text
        },
        Scan::Brace => if c == '{' {
            Scan::Gap { path: false }
        } else {
            Scan::Text
        },
        Scan::Gap { path } => start_part(path, c),
        Scan::Closing => Scan::Text,
        Scan::Str { path, escaped } => if c == '"' && !escaped {
            Scan::Gap { path }
        } else {
            Scan::Str { path, escaped: c == '\\' }
        },
        Scan::Number => if digit(c) || letter(c) || c == '_' || c == '-' || c == '+' || c == '.' {
            Scan::Number
        } else {
            start_part(false, c)
        },
        Scan::Name => if digit(c) || letter(c) || c == '_' || c as u32 >= 128 {
            Scan::Name
        } else {
            start_part(true, c)
        },
        Scan::Index => if digit(c) {
            Scan::Index
        } else {
            start_part(true, c)
        },
    }
}

/// More digits never make the number smaller.
proof fn lemma_run_value_grows(s: Seq<char>, from: int, acc: int)
    requires
        0 <= acc,
    ensures
        run_value(s, from, acc) >= acc,
    decreases s.len() - from,
{
    if 0 <= from < s.len() && is_digit(s[from]) {
        lemma_run_value_grows(s, from + 1, acc * 10 + (s[from] as u32 - '0' as u32));
    }
}

/// Whether the digits from `from` on, read as a decimal number, exceed
/// `usize::MAX`.
fn run_overflows(chars: &Vec<char>, from: usize) -> (r: bool)
    requires
        from <= chars@.len(),
    ensures
        r == (run_value(chars@, from as int, 0) > usize::MAX),
{
    let n: usize = chars.len();
    let mut i: usize = from;
    let mut acc: usize = 0;
    while i < n && digit(chars[i])
        invariant
            from <= i <= n,
            n == chars@.len(),
            run_value(chars@, from as int, 0) == run_value(chars@, i as int, acc as int),
        decreases n - i,
    {
        let value: usize = (chars[i] as u32 - '0' as u32) as usize;
        let next = match acc.checked_mul(10) {
            Some(tens) => tens.checked_add(value),
            None => None,
        };
        match next {
            Some(sum) => {
                acc = sum;
            },
            None => {
                proof {
                    assert(is_digit(chars@[i as int]));
                    assert(run_value(chars@, i as int, acc as int) == run_value(
                        chars@,
                        i + 1,
                        acc * 10 + value,
                    ));
                    lemma_run_value_grows(chars@, i + 1, acc * 10 + value);
                }
                return true;
            },
        }
        i += 1;
    }
    false
}

/// Whether every list index of `source` fits a `usize`.
pub fn check_indexes(source: &str) -> (fit: bool)
    ensures
        fit == indexes_fit(source@),
{
    let chars = chars_of(source);
    let n: usize = chars.len();
    let mut state = Scan::Text;
    let mut i: usize = 0;
    while i < n
        invariant
            i <= n,
            n == chars@.len(),
            chars@ == source@,
            state == scan(chars@, i as int),
            forall|d: int| 0 <= d < i ==> !#[trigger] overflowing_index_at(chars@, d),
        decreases n - i,
    {
        let next = advance(state, chars[i]);
        assert(next == scan(chars@, i + 1));
        if next == Scan::Index && state != Scan::Index {
            if run_overflows(&chars, i) {
                assert(overflowing_index_at(chars@, i as int));
                return false;
            }
        }
        state = next;
        i += 1;
    }
    true
}

/// A list index starts with a digit between the parts of a path, and nowhere
/// else: not in plain text, not in a string, a number or a name, and not
/// before a name was read.
pub proof fn law_index_starts_in_a_path(s: Seq<char>, at: int)
    requires
        index_starts_at(s, at),
    ensures
        is_digit(s[at]),
        scan(s, at) == (Scan::Gap { path: true }),
{
}

/// Where `s` opens no expression up to `at`, the character at `at` is plain text.
proof fn lemma_text_stays_text(s: Seq<char>, at: int)
    requires
        0 <= at <= s.len(),
        forall|open: int| !opens_at(s, open),
    ensures
        scan(s, at) == Scan::Text || (scan(s, at) == Scan::Brace && at >= 1 && s[at - 1] == '{'),
    decreases at,
{
    if at > 0 {
        lemma_text_stays_text(s, at - 1);
        if scan(s, at - 1) == Scan::Brace && s[at - 1] == '{' {
            assert(opens_at(s, at - 2));
        }
    }
}

/// A source that opens no expression spares `upon` whatever else it holds:
/// digits in plain text are never read as an index.
pub proof fn law_plain_text_fits(s: Seq<char>)
    requires
        forall|open: int| !opens_at(s, open),
    ensures
        indexes_fit(s),
{
    assert forall|at: int| !#[trigger] overflowing_index_at(s, at) by {
        if index_starts_at(s, at) {
            lemma_text_stays_text(s, at + 1);
        }
    }
}

} // verus!
