use vstd::prelude::*;
use vstd::string::{StringExecFns, StringSliceAdditionalSpecFns};

verus! {

/// A debugger command.
#[derive(Debug, Clone, Copy, PartialEq, Eq, Structural)]
pub enum Command {
    /// Run this many instructions.
    Step(usize),
    /// Leave the debugger.
    Exit,
    /// Do the previous command again (an empty line).
    Repeat,
}

/// The line could not be read as a command.
#[derive(Debug, Clone, PartialEq, Eq)]
pub struct CommandParseError {
    /// The line that was read.
    pub line: String,
}

impl CommandParseError {
    /// The text that reports the error: `Unable to parse command: ` and the line.
    pub fn message(&self) -> (r: String)
        ensures
            r@ == "Unable to parse command: "@ + self.line@,
    {
        String::from_str("Unable to parse command: ").concat(self.line.as_str())
    }
}

/// Space or horizontal tab.
pub open spec fn is_space(b: u8) -> bool {
    b == 0x20 || b == 0x09
}

/// An ASCII decimal digit.
pub open spec fn is_digit(b: u8) -> bool {
    0x30 <= b <= 0x39
}

/// Every byte of `s` is a decimal digit.
pub open spec fn all_digits(s: Seq<u8>) -> bool {
    forall|i: int| 0 <= i < s.len() ==> is_digit(#[trigger] s[i])
}

/// The number that the decimal digits `s` spell, most significant first.
pub open spec fn decimal_value(s: Seq<u8>) -> nat
    decreases s.len(),
{
    if s.len() == 0 {
        0
    } else {
        decimal_value(s.drop_last()) * 10 + (s.last() - 0x30) as nat
    }
}

/// The index of the first byte at or after `i` that is not a space or tab
/// (the length of `s` if there is none).
pub open spec fn skip_spaces(s: Seq<u8>, i: nat) -> nat
    decreases s.len() - i,
{
    if i < s.len() && is_space(s[i as int]) {
        skip_spaces(s, i + 1)
    } else {
        i
    }
}

/// Whether `s` starts with `p`.
pub open spec fn has_prefix(s: Seq<u8>, p: Seq<u8>) -> bool {
    p.len() <= s.len() && s.subrange(0, p.len() as int) =~= p
}

/// `step`
pub open spec fn word_step() -> Seq<u8> {
    seq![0x73u8, 0x74u8, 0x65u8, 0x70u8]
}

/// `exit`
pub open spec fn word_exit() -> Seq<u8> {
    seq![0x65u8, 0x78u8, 0x69u8, 0x74u8]
}

/// `quit`
pub open spec fn word_quit() -> Seq<u8> {
    seq![0x71u8, 0x75u8, 0x69u8, 0x74u8]
}

/// The instruction count that follows `step` (or `s`): nothing means one; a
/// run of spaces or tabs followed by decimal digits that run to the end of the
/// line gives their value, if it fits in `usize`. Anything else is not a count.
pub open spec fn step_count_spec(rest: Seq<u8>) -> Option<usize> {
    if rest.len() == 0 {
        Some(1)
    } else {
        let k = skip_spaces(rest, 0);
        let digits = rest.subrange(k as int, rest.len() as int);
        if 1 <= k < rest.len() && all_digits(digits) && decimal_value(digits) <= usize::MAX {
            Some(decimal_value(digits) as usize)
        } else {
            None
        }
    }
}

impl Command {
    /// The command that the line `s` spells, if any.
    ///
    /// - The empty line is `Repeat`.
    /// - A line starting with `s`: `step` (or, failing that, `s`) followed by an
    ///   optional count, and nothing else.
    /// - A line starting with `e` or `q`: exactly `exit`, `quit`, `e` or `q`.
    /// - Anything else is no command.
    pub open spec fn spec_parse(s: Seq<u8>) -> Option<Command> {
        if s.len() == 0 {
            Some(Command::Repeat)
        } else if s[0] == 0x73 {
            let rest = if has_prefix(s, word_step()) {
                s.subrange(4, s.len() as int)
            } else {
                s.subrange(1, s.len() as int)
            };
            match step_count_spec(rest) {
                Some(n) => Some(Command::Step(n)),
                None => None,
            }
        } else if s[0] == 0x65 || s[0] == 0x71 {
            let keyword_len: nat = if has_prefix(s, word_exit()) || has_prefix(s, word_quit()) {
                4
            } else {
                1
            };
            if s.len() == keyword_len {
                Some(Command::Exit)
            } else {
                None
            }
        } else {
            None
        }
    }

    /// Reads a command line (without its line terminator).
    pub fn parse(input: &[u8]) -> (r: Option<Command>)
        ensures
            r == Command::spec_parse(input@),
    {
        let s = input;
        let len = s.len();
        if len == 0 {
            return Some(Command::Repeat);
        }
        if s[0] == 0x73 {
            let start: usize = if starts_with(s, 0x73, 0x74, 0x65, 0x70) {
                4
            } else {
                1
            };
            proof {
                assert(has_prefix(s@, word_step()) == starts_with_spec(s@, 0x73, 0x74, 0x65, 0x70));
            }
            match parse_step_count(s, start) {
                Some(n) => Some(Command::Step(n)),
                None => None,
            }
        } else if s[0] == 0x65 || s[0] == 0x71 {
            let keyword_len: usize = if starts_with(s, 0x65, 0x78, 0x69, 0x74) || starts_with(
                s,
                0x71,
                0x75,
                0x69,
                0x74,
            ) {
                4
            } else {
                1
            };
            proof {
                assert(has_prefix(s@, word_exit()) == starts_with_spec(s@, 0x65, 0x78, 0x69, 0x74));
                assert(has_prefix(s@, word_quit()) == starts_with_spec(s@, 0x71, 0x75, 0x69, 0x74));
            }
            if len == keyword_len {
                Some(Command::Exit)
            } else {
                None
            }
        } else {
            None
        }
    }

    /// Reads a command line (without its line terminator).
    ///
    /// A line that is no command gives an error that holds the line.
    pub fn from_str(s: &str) -> (r: Result<Command, CommandParseError>)
        ensures
            match Command::spec_parse(s.spec_bytes()) {
                Some(c) => r == Ok::<Command, CommandParseError>(c),
                None => r matches Err(e) && e.line@ == s@,
            },
    {
        match Command::parse(s.as_bytes()) {
            Some(c) => Ok(c),
            None => Err(CommandParseError { line: String::from_str(s) }),
        }
    }
}

/// Whether `s` starts with the four bytes `a`, `b`, `c`, `d`.
pub open spec fn starts_with_spec(s: Seq<u8>, a: u8, b: u8, c: u8, d: u8) -> bool {
    s.len() >= 4 && s[0] == a && s[1] == b && s[2] == c && s[3] == d
}

/// Whether `s` begins with the bytes `a`, `b`, `c`, `d`.
fn starts_with(s: &[u8], a: u8, b: u8, c: u8, d: u8) -> (r: bool)
    ensures
        r == starts_with_spec(s@, a, b, c, d),
{
    s.len() >= 4 && s[0] == a && s[1] == b && s[2] == c && s[3] == d
}

/// Larger digit strings spell no smaller numbers: a prefix of a digit string
/// spells at most what the whole string spells.
pub proof fn lemma_decimal_value_prefix(s: Seq<u8>, k: int)
    requires
        all_digits(s),
        0 <= k <= s.len(),
    ensures
        decimal_value(s.subrange(0, k)) <= decimal_value(s),
    decreases s.len() - k,
{
    if k < s.len() {
        lemma_decimal_value_prefix(s, k + 1);
        let t = s.subrange(0, k + 1);
        assert(t.drop_last() =~= s.subrange(0, k));
        assert(is_digit(s[k]));
    } else {
        assert(s.subrange(0, k) =~= s);
    }
}

/// The count after the keyword, which ends at `start`.
fn parse_step_count(s: &[u8], start: usize) -> (r: Option<usize>)
    requires
        start <= s@.len(),
    ensures
        r == step_count_spec(s@.subrange(start as int, s@.len() as int)),
{
    let ghost rest = s@.subrange(start as int, s@.len() as int);
    let len = s.len();
    if start == len {
        return Some(1);
    }
    // Skip the run of spaces and tabs.
    let mut i = start;
    while i < len && (s[i] == 0x20 || s[i] == 0x09)
        invariant
            start <= i <= len,
            len == s@.len(),
            rest == s@.subrange(start as int, len as int),
            skip_spaces(rest, (i - start) as nat) == skip_spaces(rest, 0),
        decreases len - i,
    {
        i = i + 1;
    }
    let ghost k = skip_spaces(rest, 0);
    assert(k == i - start);
    if i == start || i == len {
        return None;
    }
    let ghost digits = rest.subrange(k as int, rest.len() as int);
    assert(digits =~= s@.subrange(i as int, len as int));
    // Read the digits, most significant first.
    let mut value: usize = 0;
    let mut j = i;
    while j < len
        invariant
            i <= j <= len,
            len == s@.len(),
            digits == s@.subrange(i as int, len as int),
            rest == s@.subrange(start as int, len as int),
            k == i - start,
            1 <= k < rest.len(),
            k == skip_spaces(rest, 0),
            digits == rest.subrange(k as int, rest.len() as int),
            forall|m: int| 0 <= m < j - i ==> is_digit(#[trigger] digits[m]),
            value == decimal_value(digits.subrange(0, j - i)),
        decreases len - j,
    {
        let b = s[j];
        if !(0x30 <= b && b <= 0x39) {
            assert(!is_digit(digits[j - i]));
            return None;
        }
        let ghost prefix = digits.subrange(0, j - i + 1);
        assert(prefix.drop_last() =~= digits.subrange(0, j - i));
        let d = (b - 0x30) as usize;
        if value > (usize::MAX - d) / 10 {
            proof {
                assert(value * 10 + d > usize::MAX) by (nonlinear_arith)
                    requires
                        value > (usize::MAX - d) / 10,
                        d <= 9,
                ;
                assert(decimal_value(prefix) > usize::MAX);
                if all_digits(digits) {
                    lemma_decimal_value_prefix(digits, j - i + 1);
                }
            }
            return None;
        }
        value = value * 10 + d;
        j = j + 1;
    }
    assert(digits.subrange(0, j - i) =~= digits);
    Some(value)
}

/// The decimal digits of `n`, most significant first, without leading zeros.
pub open spec fn decimal_digits(n: nat) -> Seq<u8>
    decreases n,
{
    if n < 10 {
        seq![(0x30 + n) as u8]
    } else {
        decimal_digits(n / 10).push((0x30 + n % 10) as u8)
    }
}

/// Writing a number in decimal and reading the digits back gives the number.
pub proof fn lemma_decimal_digits_value(n: nat)
    ensures
        all_digits(decimal_digits(n)),
        decimal_digits(n).len() >= 1,
        decimal_value(decimal_digits(n)) == n,
    decreases n,
{
    let d = decimal_digits(n);
    if n < 10 {
        assert(d.drop_last() =~= Seq::<u8>::empty());
        assert(decimal_value(Seq::<u8>::empty()) == 0);
        assert(d.last() == (0x30 + n) as u8);
    } else {
        lemma_decimal_digits_value(n / 10);
        assert(d.drop_last() =~= decimal_digits(n / 10));
        assert(n == (n / 10) * 10 + n % 10) by (nonlinear_arith);
        assert(n % 10 < 10) by (nonlinear_arith);
        assert(d.last() == (0x30 + n % 10) as u8);
        assert(decimal_value(d) == decimal_value(decimal_digits(n / 10)) * 10 + n % 10);
    }
}

/// A count written in decimal after `step ` or `s ` reads back as itself:
/// the line is that many steps.
pub proof fn lemma_step_count_round_trip(n: usize)
    ensures
        Command::spec_parse(word_step() + seq![0x20u8] + decimal_digits(n as nat)) == Some(
            Command::Step(n),
        ),
        Command::spec_parse(seq![0x73u8, 0x20u8] + decimal_digits(n as nat)) == Some(
            Command::Step(n),
        ),
{
    let digits = decimal_digits(n as nat);
    lemma_decimal_digits_value(n as nat);
    assert(is_digit(digits[0]));
    let long = word_step() + seq![0x20u8] + digits;
    let short = seq![0x73u8, 0x20u8] + digits;
    let rest = seq![0x20u8] + digits;
    assert(long.subrange(0, 4) =~= word_step());
    assert(long.subrange(4, long.len() as int) =~= rest);
    assert(short.subrange(1, short.len() as int) =~= rest);
    if short.len() >= 4 {
        assert(short[1] != word_step()[1]);
    }
    assert(!has_prefix(short, word_step()));
    assert(skip_spaces(rest, 1) == 1);
    assert(skip_spaces(rest, 0) == 1);
    assert(rest.subrange(1, rest.len() as int) =~= digits);
}

/// A line means `Exit` exactly when it is one of the words `exit`, `quit`,
/// `e` or `q`, with nothing before or after.
pub proof fn lemma_exit_words(s: Seq<u8>)
    ensures
        Command::spec_parse(s) == Some(Command::Exit) <==> (s =~= word_exit() || s =~= word_quit()
            || s =~= seq![0x65u8] || s =~= seq![0x71u8]),
{
    if s =~= word_exit() {
        assert(has_prefix(s, word_exit()));
    }
    if s =~= word_quit() {
        assert(has_prefix(s, word_quit()));
    }
    if Command::spec_parse(s) == Some(Command::Exit) {
        if has_prefix(s, word_exit()) {
            assert(s =~= s.subrange(0, 4));
        } else if has_prefix(s, word_quit()) {
            assert(s =~= s.subrange(0, 4));
        }
    }
}

} // verus!
