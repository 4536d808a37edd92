//! Time filter: `[+-]N[smhd]`, compared against an entry timestamp's age.

use vstd::prelude::*;
use crate::arith::lemma_mul_fits;
use crate::digits::{all_digits, digits_val, dec_digits, lemma_dec_digits_val, parse_u64,
    u64_to_string};

verus! {

/// Represents a time comparison operation
#[derive(Debug, Clone, Copy, PartialEq, Eq, Structural)]
pub enum TimeComparison {
    Exactly,
    Lesser,
    Greater,
}

/// Represents a time unit for comparison
#[derive(Debug, Clone, Copy, PartialEq, Eq, Structural)]
pub enum TimeUnit {
    Seconds,
    Minutes,
    Hours,
    Days,
}

/// Holds time-based filter configuration.  Timestamps are handled as whole
/// seconds since the Unix epoch; the front end converts the operating
/// system's clock values before calling in.
#[derive(Debug, Clone, Copy, PartialEq, Eq, Structural)]
pub struct TimeFilter {
    pub comparison: TimeComparison,
    pub value: u64,
    pub unit: TimeUnit,
}

/// Seconds in one unit.
pub open spec fn unit_seconds(u: TimeUnit) -> nat {
    match u {
        TimeUnit::Seconds => 1,
        TimeUnit::Minutes => 60,
        TimeUnit::Hours => 3600,
        TimeUnit::Days => 86400,
    }
}

/// Half-unit tolerance band used by an exact comparison.
pub open spec fn unit_time_tolerance(u: TimeUnit) -> nat {
    match u {
        TimeUnit::Seconds => 2,
        TimeUnit::Minutes => 30,
        TimeUnit::Hours => 1800,
        TimeUnit::Days => 43200,
    }
}

/// The unit character of the grammar, if `c` is one.
pub open spec fn spec_time_unit(c: char) -> Option<TimeUnit> {
    if c == 's' {
        Some(TimeUnit::Seconds)
    } else if c == 'm' {
        Some(TimeUnit::Minutes)
    } else if c == 'h' {
        Some(TimeUnit::Hours)
    } else if c == 'd' {
        Some(TimeUnit::Days)
    } else {
        None
    }
}

/// What `TimeFilter::parse` accepts and produces.  Rejected are the empty
/// string, a missing or unknown unit, an empty or non-digit number, and a
/// value whose resolution in seconds does not fit in a `u64`.
pub open spec fn spec_parse_time(s: Seq<char>) -> Option<TimeFilter> {
    if s.len() == 0 {
        None
    } else {
        let cmp = if s[0] == '+' {
            TimeComparison::Greater
        } else if s[0] == '-' {
            TimeComparison::Lesser
        } else {
            TimeComparison::Exactly
        };
        let rest = if s[0] == '+' || s[0] == '-' {
            s.subrange(1, s.len() as int)
        } else {
            s
        };
        if rest.len() == 0 {
            None
        } else {
            match spec_time_unit(rest.last()) {
                None => None,
                Some(u) => {
                    let ds = rest.drop_last();
                    if ds.len() == 0 || !all_digits(ds) || digits_val(ds) > u64::MAX
                        || digits_val(ds) * unit_seconds(u) > u64::MAX {
                        None
                    } else {
                        Some(TimeFilter { comparison: cmp, value: digits_val(ds) as u64, unit: u })
                    }
                },
            }
        }
    }
}

/// The character that renders one unit.
pub open spec fn spec_time_unit_char(u: TimeUnit) -> char {
    match u {
        TimeUnit::Seconds => 's',
        TimeUnit::Minutes => 'm',
        TimeUnit::Hours => 'h',
        TimeUnit::Days => 'd',
    }
}

/// The canonical text of a filter: sign, decimal value, unit character.
pub open spec fn spec_render_time(f: TimeFilter) -> Seq<char> {
    let sign: Seq<char> = match f.comparison {
        TimeComparison::Exactly => Seq::empty(),
        TimeComparison::Lesser => seq!['-'],
        TimeComparison::Greater => seq!['+'],
    };
    sign + dec_digits(f.value as nat) + seq![spec_time_unit_char(f.unit)]
}

/// An entry's age: how many seconds before `now` its timestamp lies, and
/// zero for a timestamp in the future.
pub open spec fn spec_age(file_time: u64, now: u64) -> nat {
    if now >= file_time {
        (now - file_time) as nat
    } else {
        0
    }
}

impl TimeFilter {
    /// The value resolves to seconds without overflowing a `u64`; `parse`
    /// establishes this and `to_duration` and `matches` rely on it.
    pub open spec fn wf(self) -> bool {
        self.value * unit_seconds(self.unit) <= u64::MAX
    }

    /// The filter's threshold in seconds.
    pub open spec fn spec_seconds(self) -> nat {
        (self.value * unit_seconds(self.unit)) as nat
    }

    /// What `matches` decides, over the entry's age.
    pub open spec fn spec_matches(self, file_time: u64, now: u64) -> bool {
        let age = spec_age(file_time, now) as int;
        match self.comparison {
            TimeComparison::Exactly => self.spec_seconds() as int - unit_time_tolerance(self.unit) as int
                <= age <= self.spec_seconds() as int + unit_time_tolerance(self.unit) as int,
            TimeComparison::Lesser => age < self.spec_seconds() as int,
            TimeComparison::Greater => age > self.spec_seconds() as int,
        }
    }

    /// Parse a time filter string in the format: `[+-]N[smhd]`.
    /// Examples: "+1h" (more than 1 hour ago), "-2m" (less than 2 minutes ago).
    pub fn parse(s: &str) -> (r: Result<TimeFilter, String>)
        ensures
            r matches Ok(f) ==> spec_parse_time(s@) == Some(f) && f.wf(),
            r is Err <==> spec_parse_time(s@) is None,
    {
        let len = s.unicode_len();
        if len == 0 {
            return Err("Empty time filter".to_owned());
        }
        let first = s.get_char(0);
        let has_sign = first == '+' || first == '-';
        let start: usize = if has_sign { 1 } else { 0 };
        let ghost rest: Seq<char> = s@.subrange(start as int, len as int);
        proof {
            if !has_sign {
                assert(rest =~= s@);
            }
        }
        if len == start {
            return Err("Invalid time unit. Use s, m, h, or d".to_owned());
        }
        let last = s.get_char(len - 1);
        assert(rest.last() == s@[len - 1]);
        let unit = if last == 's' {
            TimeUnit::Seconds
        } else if last == 'm' {
            TimeUnit::Minutes
        } else if last == 'h' {
            TimeUnit::Hours
        } else if last == 'd' {
            TimeUnit::Days
        } else {
            return Err("Invalid time unit. Use s, m, h, or d".to_owned());
        };
        let digits_part = s.substring_char(start, len - 1);
        proof {
            assert(rest.drop_last() =~= digits_part@);
        }
        let value = match parse_u64(digits_part) {
            Some(v) => v,
            None => {
                return Err("Invalid number in time filter".to_owned());
            },
        };
        let mult: u64 = match unit {
            TimeUnit::Seconds => 1,
            TimeUnit::Minutes => 60,
            TimeUnit::Hours => 3600,
            TimeUnit::Days => 86400,
        };
        proof {
            lemma_mul_fits(value as nat, mult as nat, u64::MAX as nat);
        }
        if value > u64::MAX / mult {
            return Err("Time value too large".to_owned());
        }
        Ok(TimeFilter { comparison: if first == '+' {
            TimeComparison::Greater
        } else if first == '-' {
            TimeComparison::Lesser
        } else {
            TimeComparison::Exactly
        }, value, unit })
    }

    /// Convert the time filter value to whole seconds
    pub fn to_duration(&self) -> (r: u64)
        requires
            self.wf(),
        ensures
            r == self.spec_seconds(),
    {
        match self.unit {
            TimeUnit::Seconds => self.value,
            TimeUnit::Minutes => self.value * 60,
            TimeUnit::Hours => self.value * 3600,
            TimeUnit::Days => self.value * 86400,
        }
    }

    /// Check if a timestamp (seconds since the epoch) matches the filter,
    /// judged by its age relative to `now`.
    pub fn matches(&self, file_time: u64, now: u64) -> (r: bool)
        requires
            self.wf(),
        ensures
            r == self.spec_matches(file_time, now),
    {
        let duration = self.to_duration();
        let age: u64 = if now >= file_time {
            now - file_time
        } else {
            0
        };
        match self.comparison {
            TimeComparison::Exactly => {
                let tolerance: u64 = match self.unit {
                    TimeUnit::Seconds => 2,
                    TimeUnit::Minutes => 30,
                    TimeUnit::Hours => 1800,
                    TimeUnit::Days => 43200,
                };
                let lower = if duration >= tolerance {
                    duration - tolerance
                } else {
                    0
                };
                let upper = if duration <= u64::MAX - tolerance {
                    duration + tolerance
                } else {
                    u64::MAX
                };
                age >= lower && age <= upper
            },
            TimeComparison::Lesser => age < duration,
            TimeComparison::Greater => age > duration,
        }
    }

    /// Render the filter in the grammar that `parse` reads.
    pub fn render(&self) -> (r: String)
        ensures
            r@ == spec_render_time(*self),
    {
        proof {
            reveal_strlit("+");
            reveal_strlit("-");
            reveal_strlit("s");
            reveal_strlit("m");
            reveal_strlit("h");
            reveal_strlit("d");
            reveal_strlit("");
        }
        let mut r = match self.comparison {
            TimeComparison::Exactly => "".to_owned(),
            TimeComparison::Lesser => "-".to_owned(),
            TimeComparison::Greater => "+".to_owned(),
        };
        let digits = u64_to_string(self.value);
        r.append(digits.as_str());
        r.append(match self.unit {
            TimeUnit::Seconds => "s",
            TimeUnit::Minutes => "m",
            TimeUnit::Hours => "h",
            TimeUnit::Days => "d",
        });
        assert(r@ =~= spec_render_time(*self));
        r
    }
}

/// The round-trip law: parsing a rendered filter gives the filter back.
pub proof fn lemma_time_round_trip(f: TimeFilter)
    requires
        f.wf(),
    ensures
        spec_parse_time(spec_render_time(f)) == Some(f),
{
    lemma_dec_digits_val(f.value as nat);
    let s = spec_render_time(f);
    let digits = dec_digits(f.value as nat);
    let rest = if s[0] == '+' || s[0] == '-' {
        s.subrange(1, s.len() as int)
    } else {
        s
    };
    assert(forall|i: int| 0 <= i < digits.len() ==>
        crate::digits::is_digit_char(#[trigger] digits[i]));
    assert(digits[0] != '+' && digits[0] != '-');
    match f.comparison {
        TimeComparison::Exactly => {
            assert(s =~= digits + seq![spec_time_unit_char(f.unit)]);
            assert(s[0] == digits[0]);
            assert(rest =~= s);
        },
        TimeComparison::Lesser => {
            assert(s =~= seq!['-'] + digits + seq![spec_time_unit_char(f.unit)]);
            assert(rest =~= digits + seq![spec_time_unit_char(f.unit)]);
        },
        TimeComparison::Greater => {
            assert(s =~= seq!['+'] + digits + seq![spec_time_unit_char(f.unit)]);
            assert(rest =~= digits + seq![spec_time_unit_char(f.unit)]);
        },
    }
    assert(rest.last() == spec_time_unit_char(f.unit));
    assert(spec_time_unit(spec_time_unit_char(f.unit)) == Some(f.unit));
    assert(rest.drop_last() =~= digits);
}

} // verus!
