//! What the program is started with: the command line to run and the
//! options, checked before anything is started.

use crate::text::joined;
use crate::view::Mode;
use vstd::prelude::*;

verus! {

/// Why a configuration is refused.
#[derive(Clone, Copy, Debug, PartialEq, Eq, Structural)]
pub enum ConfigError {
    /// No command was given.
    MissingCommand,
    /// The interval is not a number of seconds that a `u64` holds.
    InvalidInterval,
}

/// What the program is started with.
#[derive(Debug, PartialEq, Eq)]
pub struct Config {
    /// The command line to run.
    pub command: String,
    /// The seconds between two runs.
    pub interval: u64,
    /// Whether the results go to standard output instead of the screen.
    pub batch: bool,
    /// Whether colour sequences in the output are interpreted.
    pub color: bool,
    /// Whether changes between runs are highlighted from the start.
    pub differences: bool,
    /// Where the runs are logged, if anywhere.
    pub logfile: Option<String>,
}

/// What a [`Config`] holds, as mathematical values.
pub struct ConfigView {
    pub command: Seq<char>,
    pub interval: u64,
    pub batch: bool,
    pub color: bool,
    pub differences: bool,
    pub logfile: Option<Seq<char>>,
}

impl View for Config {
    type V = ConfigView;

    open spec fn view(&self) -> ConfigView {
        ConfigView {
            command: self.command@,
            interval: self.interval,
            batch: self.batch,
            color: self.color,
            differences: self.differences,
            logfile: match self.logfile {
                Some(path) => Some(path@),
                None => None,
            },
        }
    }
}

/// Whether a character is a decimal digit.
pub open spec fn is_digit(c: char) -> bool {
    '0' <= c <= '9'
}

/// The value of a decimal digit.
pub open spec fn digit_value(c: char) -> int {
    c as u32 - '0' as u32
}

/// Whether a text is made of decimal digits, and of at least one.
pub open spec fn all_digits(s: Seq<char>) -> bool {
    s.len() > 0 && forall|i: int| 0 <= i < s.len() ==> is_digit(#[trigger] s[i])
}

/// The number that a text of decimal digits writes.
pub open spec fn decimal_value(s: Seq<char>) -> int
    decreases s.len(),
{
    if s.len() == 0 {
        0
    } else {
        decimal_value(s.drop_last()) * 10 + digit_value(s.last())
    }
}

/// The digits of a number text: the text without the plus sign that may
/// stand before them.
pub open spec fn unsigned_part(s: Seq<char>) -> Seq<char> {
    if s.len() > 0 && s[0] == '+' {
        s.skip(1)
    } else {
        s
    }
}

/// The interval that a text writes: decimal digits, with or without a plus
/// sign before them, whose number a `u64` holds. Any other text writes none.
pub open spec fn interval_of(s: Seq<char>) -> Option<u64> {
    let digits = unsigned_part(s);
    if all_digits(digits) && decimal_value(digits) <= u64::MAX {
        Some(decimal_value(digits) as u64)
    } else {
        None
    }
}

/// The words of a command line, with one space between each two.
pub open spec fn command_line(words: Seq<Seq<char>>) -> Seq<char> {
    joined(words, ' ')
}

/// The words of a vector, each by its view.
pub open spec fn words_view(words: Seq<String>) -> Seq<Seq<char>> {
    Seq::new(words.len(), |i: int| words[i]@)
}

/// The mode that the view starts in.
pub open spec fn start_mode_of(differences: bool) -> Mode {
    if differences {
        Mode::DiffWatch
    } else {
        Mode::Watch
    }
}

/// The configuration that the arguments make, or why they make none.
pub open spec fn config_of(
    words: Seq<Seq<char>>,
    interval: Seq<char>,
    batch: bool,
    color: bool,
    differences: bool,
    logfile: Option<Seq<char>>,
) -> Result<ConfigView, ConfigError> {
    if words.len() == 0 {
        Err(ConfigError::MissingCommand)
    } else {
        match interval_of(interval) {
            None => Err(ConfigError::InvalidInterval),
            Some(seconds) => Ok(
                ConfigView {
                    command: command_line(words),
                    interval: seconds,
                    batch,
                    color,
                    differences,
                    logfile,
                },
            ),
        }
    }
}

/// A number of digits is never negative, and a digit more makes it no
/// smaller.
pub proof fn lemma_decimal_value_grows(s: Seq<char>)
    requires
        forall|i: int| 0 <= i < s.len() ==> is_digit(#[trigger] s[i]),
    ensures
        decimal_value(s) >= 0,
        s.len() > 0 ==> decimal_value(s) >= decimal_value(s.drop_last()),
    decreases s.len(),
{
    if s.len() > 0 {
        lemma_decimal_value_grows(s.drop_last());
    }
}

/// The seconds that an interval argument writes.
pub fn parse_interval(arg: &str) -> (r: Result<u64, ConfigError>)
    ensures
        r == match interval_of(arg@) {
            Some(seconds) => Ok::<u64, ConfigError>(seconds),
            None => Err(ConfigError::InvalidInterval),
        },
{
    let mut value: u64 = 0;
    let mut first = true;
    let mut any_digit = false;
    let ghost mut from: int = 0;
    for c in it: arg.chars()
        invariant
            it.seq() == arg@,
            first == (it.index() == 0),
            from == if it.index() > 0 && arg@[0] == '+' {
                1int
            } else {
                0int
            },
            from <= it.index(),
            any_digit == (it.index() > from),
            forall|i: int| from <= i < it.index() ==> is_digit(#[trigger] arg@[i]),
            value == decimal_value(arg@.subrange(from, it.index())),
    {
        let ghost seen = it.index();
        let ghost before = arg@.subrange(from, seen);
        if first && c == '+' {
            proof {
                from = 1;
                assert(arg@.subrange(1, 1) =~= Seq::<char>::empty());
            }
        } else if '0' <= c && c <= '9' {
            let d = (c as u32 - '0' as u32) as u64;
            let ghost after = arg@.subrange(from, seen + 1);
            proof {
                assert(after.drop_last() =~= before);
                assert(after.last() == c);
            }
            if value > (u64::MAX - d) / 10 {
                proof {
                    assert(decimal_value(after) > u64::MAX);
                    lemma_unsigned_part_of(arg@);
                    lemma_rest_overflows(arg@, from, seen + 1);
                }
                return Err(ConfigError::InvalidInterval);
            }
            value = value * 10 + d;
            any_digit = true;
        } else {
            proof {
                lemma_unsigned_part_of(arg@);
                let part = unsigned_part(arg@);
                assert(part[seen - from] == c);
                assert(!is_digit(c));
            }
            return Err(ConfigError::InvalidInterval);
        }
        first = false;
    }
    proof {
        lemma_unsigned_part_of(arg@);
        assert(arg@.subrange(from, arg@.len() as int) == unsigned_part(arg@));
    }
    if any_digit {
        Ok(value)
    } else {
        Err(ConfigError::InvalidInterval)
    }
}

/// The digits of a text begin after the plus sign, if it has one.
proof fn lemma_unsigned_part_of(s: Seq<char>)
    ensures
        unsigned_part(s) == s.subrange(
            if s.len() > 0 && s[0] == '+' {
                1int
            } else {
                0int
            },
            s.len() as int,
        ),
{
    if s.len() > 0 && s[0] == '+' {
        assert(s.skip(1) =~= s.subrange(1, s.len() as int));
    } else {
        assert(s =~= s.subrange(0, s.len() as int));
    }
}

/// Digits whose beginning writes more than a `u64` holds write more than
/// it holds, whatever digits follow.
proof fn lemma_rest_overflows(s: Seq<char>, from: int, to: int)
    requires
        0 <= from <= to <= s.len(),
        decimal_value(s.subrange(from, to)) > u64::MAX,
    ensures
        !(all_digits(s.subrange(from, s.len() as int)) && decimal_value(
            s.subrange(from, s.len() as int),
        ) <= u64::MAX),
    decreases s.len() - to,
{
    let whole = s.subrange(from, s.len() as int);
    if all_digits(whole) {
        lemma_prefix_value(whole, to - from);
        assert(whole.take(to - from) =~= s.subrange(from, to));
    }
}

/// A text of digits writes at least what each of its beginnings writes.
proof fn lemma_prefix_value(s: Seq<char>, n: int)
    requires
        0 <= n <= s.len(),
        forall|i: int| 0 <= i < s.len() ==> is_digit(#[trigger] s[i]),
    ensures
        decimal_value(s.take(n)) <= decimal_value(s),
    decreases s.len() - n,
{
    if n == s.len() {
        assert(s.take(n) =~= s);
    } else {
        lemma_prefix_value(s, n + 1);
        let longer = s.take(n + 1);
        assert(longer.drop_last() =~= s.take(n));
        assert forall|i: int| 0 <= i < longer.len() implies is_digit(#[trigger] longer[i]) by {
            assert(longer[i] == s[i]);
        }
        lemma_decimal_value_grows(longer);
    }
}

/// The command line that the words make: the words with one space between
/// each two.
pub fn join_command(words: &Vec<String>) -> (command: String)
    ensures
        command@ == command_line(words_view(words@)),
{
    let mut command = String::new();
    let mut i: usize = 0;
    while i < words.len()
        invariant
            i <= words@.len(),
            command@ == joined(words_view(words@).take(i as int), ' '),
        decreases words@.len() - i,
    {
        proof {
            let taken = words_view(words@).take(i + 1);
            assert(taken.drop_last() =~= words_view(words@).take(i as int));
            assert(taken.last() == words@[i as int]@);
            if i == 0 {
                assert(joined(words_view(words@).take(0), ' ') =~= Seq::<char>::empty());
                assert(taken[0] == words@[0]@);
            }
        }
        if i > 0 {
            command.append(" ");
            proof {
                reveal_strlit(" ");
                assert(" "@ =~= seq![' ']);
            }
        }
        command.append(words[i].as_str());
        proof {
            if i == 0 {
                assert(command@ =~= words@[0]@);
            }
        }
        i += 1;
    }
    proof {
        assert(words_view(words@).take(words@.len() as int) =~= words_view(words@));
    }
    command
}

/// The mode that the view starts in: highlighting changed characters where
/// differences are asked for.
pub fn start_mode(differences: bool) -> (mode: Mode)
    ensures
        mode == start_mode_of(differences),
{
    if differences {
        Mode::DiffWatch
    } else {
        Mode::Watch
    }
}

impl Config {
    /// Checks the arguments and makes the configuration: the command must
    /// have a word at least, and the interval must write a number.
    pub fn new(
        words: &Vec<String>,
        interval: &str,
        batch: bool,
        color: bool,
        differences: bool,
        logfile: Option<String>,
    ) -> (r: Result<Config, ConfigError>)
        ensures
            match r {
                Ok(config) => Ok::<ConfigView, ConfigError>(config@),
                Err(e) => Err(e),
            } == config_of(
                words_view(words@),
                interval@,
                batch,
                color,
                differences,
                match logfile {
                    Some(path) => Some(path@),
                    None => None,
                },
            ),
    {
        if words.len() == 0 {
            return Err(ConfigError::MissingCommand);
        }
        match parse_interval(interval) {
            Err(e) => Err(e),
            Ok(seconds) => Ok(
                Config {
                    command: join_command(words),
                    interval: seconds,
                    batch,
                    color,
                    differences,
                    logfile,
                },
            ),
        }
    }
}

} // verus!
