//! The command line, as plain values.

use crate::text::chars_of;
use vstd::prelude::*;

verus! {

/// Which kind of item a run works on.
#[derive(Clone, Copy, Debug, PartialEq, Eq, Structural)]
pub enum TargetType {
    /// Every kind.
    All,
    /// Free functions.
    Function,
    /// `impl` blocks.
    Impl,
    /// Traits.
    Trait,
    /// Methods declared in traits.
    TraitMethod,
    /// Methods defined in `impl` blocks.
    ImplMethod,
    /// Enums.
    Enum,
    /// Structs.
    Struct,
}

/// The subcommands.
#[derive(Debug, PartialEq, Eq)]
pub enum Commands {
    /// Write a default configuration file.
    Init {
        /// The directory for the file; the current one if none is given.
        path: Option<String>,
        /// Whether a file that is there already is overwritten.
        force: bool,
    },
    /// Remove the bounds that the verifier can do without.
    Prune {
        /// What to work on; the current directory if nothing is given.
        target: Option<String>,
    },
    /// Report the items that carry bounds, and change nothing.
    Check {
        /// What to look at; the current directory if nothing is given.
        target: Option<String>,
    },
}

/// The command line.
#[derive(Debug, PartialEq, Eq)]
pub struct Cli {
    /// How much to report, from 0 to 3.
    pub verbose: u8,
    /// Whether to report nothing at all.
    pub quiet: bool,
    /// Whether `prune` may change files; without it nothing is written.
    pub brute_force: bool,
    /// How many files and items to process at most: a number, or `all`.
    pub number_of_items: Option<String>,
    /// Which kind of item to work on.
    pub target_type: TargetType,
    /// The subcommand.
    pub command: Commands,
}

/// How many files and items are processed where no limit is given, or none
/// that can be read.
pub const DEFAULT_LIMIT: usize = 10;

/// Whether `text` is `word` but for the case of its letters. `word` is
/// given twice, in lower case and in upper case.
pub open spec fn spells(text: Seq<char>, lower: Seq<char>, upper: Seq<char>) -> bool {
    &&& text.len() == lower.len()
    &&& forall|i: int|
        0 <= i < text.len() ==> (#[trigger] text[i]) == lower[i] || text[i] == upper[i]
}

/// Whether `text` asks for no limit: `all`, `max` or `maxx`, in any case.
pub open spec fn is_unbounded(text: Seq<char>) -> bool {
    spells(text, seq!['a', 'l', 'l'], seq!['A', 'L', 'L']) || spells(
        text,
        seq!['m', 'a', 'x'],
        seq!['M', 'A', 'X'],
    ) || spells(text, seq!['m', 'a', 'x', 'x'], seq!['M', 'A', 'X', 'X'])
}

/// Whether `c` is a decimal digit.
pub open spec fn is_digit(c: char) -> bool {
    '0' <= c <= '9'
}

/// The number that the decimal digits `digits` write.
pub open spec fn digits_value(digits: Seq<char>) -> nat
    decreases digits.len(),
{
    if digits.len() == 0 {
        0
    } else {
        digits_value(digits.drop_last()) * 10 + ((digits.last() as u32) - ('0' as u32)) as nat
    }
}

/// Whether `digits` is one or more decimal digits.
pub open spec fn all_digits(digits: Seq<char>) -> bool {
    digits.len() > 0 && forall|i: int| 0 <= i < digits.len() ==> is_digit(#[trigger] digits[i])
}

/// What of `text` has to be digits for `text` to write a number: all of it,
/// but for a `+` at its start.
pub open spec fn written_digits(text: Seq<char>) -> Seq<char> {
    if text.len() > 0 && text[0] == '+' {
        text.skip(1)
    } else {
        text
    }
}

/// The number that `text` writes, if it writes one that a `usize` holds: one
/// or more decimal digits, after a `+` or after nothing.
pub open spec fn written_number(text: Seq<char>) -> Option<nat> {
    let digits = written_digits(text);
    if all_digits(digits) && digits_value(digits) <= usize::MAX {
        Some(digits_value(digits))
    } else {
        None
    }
}

/// The limit that `arg` asks for: none, for `all`, `max` or `maxx`; the
/// number it writes; and the default limit for anything else, and where
/// nothing is given.
pub open spec fn limit_of(arg: Option<Seq<char>>) -> nat {
    match arg {
        None => DEFAULT_LIMIT as nat,
        Some(text) => if is_unbounded(text) {
            usize::MAX as nat
        } else {
            match written_number(text) {
                Some(n) => n,
                None => DEFAULT_LIMIT as nat,
            }
        },
    }
}

/// A larger number of digits does not write a smaller number.
proof fn lemma_digits_value_grows(digits: Seq<char>, n: int)
    requires
        0 <= n <= digits.len(),
    ensures
        digits_value(digits.take(n)) <= digits_value(digits),
    decreases digits.len() - n,
{
    if n < digits.len() {
        lemma_digits_value_grows(digits, n + 1);
        assert(digits.take(n + 1).drop_last() =~= digits.take(n));
    } else {
        assert(digits.take(n) =~= digits);
    }
}

/// Whether `text` is `word` but for the case of its letters.
fn spells_word(text: &Vec<char>, lower: &Vec<char>, upper: &Vec<char>) -> (same: bool)
    requires
        lower.len() == upper.len(),
    ensures
        same == spells(text@, lower@, upper@),
{
    if text.len() != lower.len() {
        return false;
    }
    let count: usize = text.len();
    let mut i: usize = 0;
    while i < count
        invariant
            count == text.len(),
            count == lower.len(),
            count == upper.len(),
            i <= count,
            forall|k: int| 0 <= k < i ==> (#[trigger] text@[k]) == lower@[k] || text@[k] == upper@[k],
        decreases count - i,
    {
        if text[i] != lower[i] && text[i] != upper[i] {
            return false;
        }
        i = i + 1;
    }
    true
}

impl Cli {
    /// How many files and items to process at most.
    pub fn limit(&self) -> (limit: usize)
        ensures
            limit == limit_of(self.number_of_items.deep_view()),
    {
        match &self.number_of_items {
            None => DEFAULT_LIMIT,
            Some(text) => read_limit(text.as_str()),
        }
    }
}

/// The limit that `arg` asks for.
pub fn read_limit(arg: &str) -> (limit: usize)
    ensures
        limit == limit_of(Some(arg@)),
{
    let text = chars_of(arg);
    let all: Vec<char> = vec!['a', 'l', 'l'];
    let all_caps: Vec<char> = vec!['A', 'L', 'L'];
    let max: Vec<char> = vec!['m', 'a', 'x'];
    let max_caps: Vec<char> = vec!['M', 'A', 'X'];
    let maxx: Vec<char> = vec!['m', 'a', 'x', 'x'];
    let maxx_caps: Vec<char> = vec!['M', 'A', 'X', 'X'];
    assert(all@ =~= seq!['a', 'l', 'l'] && all_caps@ =~= seq!['A', 'L', 'L']);
    assert(max@ =~= seq!['m', 'a', 'x'] && max_caps@ =~= seq!['M', 'A', 'X']);
    assert(maxx@ =~= seq!['m', 'a', 'x', 'x'] && maxx_caps@ =~= seq!['M', 'A', 'X', 'X']);
    if spells_word(&text, &all, &all_caps) || spells_word(&text, &max, &max_caps) || spells_word(
        &text,
        &maxx,
        &maxx_caps,
    ) {
        return usize::MAX;
    }
    let count: usize = text.len();
    let start: usize = if count > 0 && text[0] == '+' {
        1
    } else {
        0
    };
    let ghost digits = text@.skip(start as int);
    if start == count {
        return DEFAULT_LIMIT;
    }
    let mut value: usize = 0;
    let mut i: usize = start;
    assert(digits.take(0) =~= Seq::<char>::empty());
    assert(text@.skip(0) =~= text@);
    while i < count
        invariant
            text@ == arg@,
            count == text.len(),
            start <= i <= count,
            start < count,
            !is_unbounded(arg@),
            start == (if text@.len() > 0 && text@[0] == '+' {
                1int
            } else {
                0int
            }),
            digits == text@.skip(start as int),
            digits == written_digits(arg@),
            forall|k: int| 0 <= k < i - start ==> is_digit(#[trigger] digits[k]),
            value == digits_value(digits.take(i - start)),
        decreases count - i,
    {
        let c: char = text[i];
        if !('0' <= c && c <= '9') {
            assert(digits[i - start] == c);
            assert(!is_digit(digits[i - start]));
            assert(!all_digits(digits));
            return DEFAULT_LIMIT;
        }
        let digit: usize = ((c as u32) - ('0' as u32)) as usize;
        proof {
            assert(digits.take(i - start + 1).drop_last() =~= digits.take(i - start));
            assert(digits.take(i - start + 1).last() == c);
            lemma_digits_value_grows(digits, i - start + 1);
        }
        if value > (usize::MAX - digit) / 10 {
            assert(digits_value(digits.take(i - start + 1)) > usize::MAX);
            return DEFAULT_LIMIT;
        }
        value = value * 10 + digit;
        i = i + 1;
    }
    assert(digits.take(count - start) =~= digits);
    value
}

} // verus!
