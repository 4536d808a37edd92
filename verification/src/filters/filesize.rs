//! Size filter: `[+-]N[ckMG]`, compared against a file's byte length.

use vstd::prelude::*;
use crate::arith::lemma_mul_fits;
use crate::digits::{all_digits, digits_val, dec_digits, lemma_dec_digits_val, parse_u64,
    u64_to_string};

verus! {

/// Represents a size comparison operation
#[derive(Debug, Clone, Copy, PartialEq, Eq, Structural)]
pub enum SizeComparison {
    Exactly,
    Lesser,
    Greater,
}

/// Represents a size unit for comparison
#[derive(Debug, Clone, Copy, PartialEq, Eq, Structural)]
pub enum SizeUnit {
    Bytes,
    Kilobytes,
    Megabytes,
    Gigabytes,
}

/// Holds size-based filter configuration
#[derive(Debug, Clone, Copy, PartialEq, Eq, Structural)]
pub struct SizeFilter {
    pub comparison: SizeComparison,
    pub value: u64,
    pub unit: SizeUnit,
}

/// Bytes in one unit.
pub open spec fn unit_bytes(u: SizeUnit) -> nat {
    match u {
        SizeUnit::Bytes => 1,
        SizeUnit::Kilobytes => 1024,
        SizeUnit::Megabytes => 1024 * 1024,
        SizeUnit::Gigabytes => 1024 * 1024 * 1024,
    }
}

/// Half-unit tolerance band used by an exact comparison.
pub open spec fn unit_tolerance(u: SizeUnit) -> nat {
    match u {
        SizeUnit::Bytes => 0,
        SizeUnit::Kilobytes => 512,
        SizeUnit::Megabytes => 524288,
        SizeUnit::Gigabytes => 536870912,
    }
}

/// The unit character of the grammar, if `c` is one.
pub open spec fn spec_size_unit(c: char) -> Option<SizeUnit> {
    if c == 'c' {
        Some(SizeUnit::Bytes)
    } else if c == 'k' {
        Some(SizeUnit::Kilobytes)
    } else if c == 'M' {
        Some(SizeUnit::Megabytes)
    } else if c == 'G' {
        Some(SizeUnit::Gigabytes)
    } else {
        None
    }
}

/// What `SizeFilter::parse` accepts and produces: a sign chooses the
/// comparison, the last character the unit, and the digits between them the
/// value.  Rejected are the empty string, a missing or unknown unit, an
/// empty or non-digit number, and a value whose byte resolution does not
/// fit in a `u64`.
pub open spec fn spec_parse_size(s: Seq<char>) -> Option<SizeFilter> {
    if s.len() == 0 {
        None
    } else {
        let cmp = if s[0] == '+' {
            SizeComparison::Greater
        } else if s[0] == '-' {
            SizeComparison::Lesser
        } else {
            SizeComparison::Exactly
        };
        let rest = if s[0] == '+' || s[0] == '-' {
            s.subrange(1, s.len() as int)
        } else {
            s
        };
        if rest.len() == 0 {
            None
        } else {
            match spec_size_unit(rest.last()) {
                None => None,
                Some(u) => {
                    let ds = rest.drop_last();
                    if ds.len() == 0 || !all_digits(ds) || digits_val(ds) > u64::MAX
                        || digits_val(ds) * unit_bytes(u) > u64::MAX {
                        None
                    } else {
                        Some(SizeFilter { comparison: cmp, value: digits_val(ds) as u64, unit: u })
                    }
                },
            }
        }
    }
}

/// The character that renders one unit.
pub open spec fn spec_size_unit_char(u: SizeUnit) -> char {
    match u {
        SizeUnit::Bytes => 'c',
        SizeUnit::Kilobytes => 'k',
        SizeUnit::Megabytes => 'M',
        SizeUnit::Gigabytes => 'G',
    }
}

/// The canonical text of a filter: sign, decimal value, unit character.
pub open spec fn spec_render_size(f: SizeFilter) -> Seq<char> {
    let sign: Seq<char> = match f.comparison {
        SizeComparison::Exactly => Seq::empty(),
        SizeComparison::Lesser => seq!['-'],
        SizeComparison::Greater => seq!['+'],
    };
    sign + dec_digits(f.value as nat) + seq![spec_size_unit_char(f.unit)]
}

impl SizeFilter {
    /// The value resolves to bytes without overflowing a `u64`; `parse`
    /// establishes this and `to_bytes` and `matches` rely on it.
    pub open spec fn wf(self) -> bool {
        self.value * unit_bytes(self.unit) <= u64::MAX
    }

    /// The filter's threshold in bytes.
    pub open spec fn spec_bytes(self) -> nat {
        (self.value * unit_bytes(self.unit)) as nat
    }

    /// What `matches` decides: a strict comparison against the threshold,
    /// or, for an exact filter, membership in the half-unit band around it.
    pub open spec fn spec_matches(self, file_size: u64) -> bool {
        match self.comparison {
            SizeComparison::Exactly => self.spec_bytes() as int - unit_tolerance(self.unit) as int
                <= file_size as int <= self.spec_bytes() as int + unit_tolerance(self.unit) as int,
            SizeComparison::Lesser => (file_size as nat) < self.spec_bytes(),
            SizeComparison::Greater => (file_size as nat) > self.spec_bytes(),
        }
    }

    /// Parse a size filter string in the format: `[+-]N[ckMG]`.
    /// Examples: "+1M" (more than 1 MiB), "-500k" (less than 500 KiB).
    pub fn parse(s: &str) -> (r: Result<SizeFilter, String>)
        ensures
            r matches Ok(f) ==> spec_parse_size(s@) == Some(f) && f.wf(),
            r is Err <==> spec_parse_size(s@) is None,
    {
        let len = s.unicode_len();
        if len == 0 {
            return Err("Empty size filter".to_owned());
        }
        let first = s.get_char(0);
        let has_sign = first == '+' || first == '-';
        let start: usize = if has_sign { 1 } else { 0 };
        let ghost rest: Seq<char> = s@.subrange(start as int, len as int);
        proof {
            if !has_sign {
                assert(rest =~= s@);
            }
        }
        if len == start {
            return Err("Invalid size unit. Use c (bytes), k (KB), M (MB), or G (GB)".to_owned());
        }
        let last = s.get_char(len - 1);
        assert(rest.last() == s@[len - 1]);
        let unit = if last == 'c' {
            SizeUnit::Bytes
        } else if last == 'k' {
            SizeUnit::Kilobytes
        } else if last == 'M' {
            SizeUnit::Megabytes
        } else if last == 'G' {
            SizeUnit::Gigabytes
        } else {
            return Err("Invalid size unit. Use c (bytes), k (KB), M (MB), or G (GB)".to_owned());
        };
        let digits_part = s.substring_char(start, len - 1);
        proof {
            assert(rest.drop_last() =~= digits_part@);
        }
        let value = match parse_u64(digits_part) {
            Some(v) => v,
            None => {
                return Err("Invalid number in size filter".to_owned());
            },
        };
        let mult: u64 = match unit {
            SizeUnit::Bytes => 1,
            SizeUnit::Kilobytes => 1024,
            SizeUnit::Megabytes => 1024 * 1024,
            SizeUnit::Gigabytes => 1024 * 1024 * 1024,
        };
        proof {
            lemma_mul_fits(value as nat, mult as nat, u64::MAX as nat);
        }
        if value > u64::MAX / mult {
            return Err("Size value too large".to_owned());
        }
        Ok(SizeFilter { comparison: if first == '+' {
            SizeComparison::Greater
        } else if first == '-' {
            SizeComparison::Lesser
        } else {
            SizeComparison::Exactly
        }, value, unit })
    }

    /// Convert the size filter value to bytes
    pub fn to_bytes(&self) -> (r: u64)
        requires
            self.wf(),
        ensures
            r == self.spec_bytes(),
    {
        match self.unit {
            SizeUnit::Bytes => self.value,
            SizeUnit::Kilobytes => self.value * 1024,
            SizeUnit::Megabytes => self.value * 1048576,
            SizeUnit::Gigabytes => self.value * 1073741824,
        }
    }

    /// Check if a file's size matches the filter
    pub fn matches(&self, file_size: u64) -> (r: bool)
        requires
            self.wf(),
        ensures
            r == self.spec_matches(file_size),
    {
        let target_size = self.to_bytes();
        match self.comparison {
            SizeComparison::Exactly => {
                let tolerance: u64 = match self.unit {
                    SizeUnit::Bytes => 0,
                    SizeUnit::Kilobytes => 512,
                    SizeUnit::Megabytes => 524288,
                    SizeUnit::Gigabytes => 536870912,
                };
                let lower = if target_size >= tolerance {
                    target_size - tolerance
                } else {
                    0
                };
                let upper = if target_size <= u64::MAX - tolerance {
                    target_size + tolerance
                } else {
                    u64::MAX
                };
                file_size >= lower && file_size <= upper
            },
            SizeComparison::Lesser => file_size < target_size,
            SizeComparison::Greater => file_size > target_size,
        }
    }

    /// Render the filter in the grammar that `parse` reads.
    pub fn render(&self) -> (r: String)
        ensures
            r@ == spec_render_size(*self),
    {
        proof {
            reveal_strlit("+");
            reveal_strlit("-");
            reveal_strlit("c");
            reveal_strlit("k");
            reveal_strlit("M");
            reveal_strlit("G");
            reveal_strlit("");
        }
        let mut r = match self.comparison {
            SizeComparison::Exactly => "".to_owned(),
            SizeComparison::Lesser => "-".to_owned(),
            SizeComparison::Greater => "+".to_owned(),
        };
        let digits = u64_to_string(self.value);
        r.append(digits.as_str());
        r.append(match self.unit {
            SizeUnit::Bytes => "c",
            SizeUnit::Kilobytes => "k",
            SizeUnit::Megabytes => "M",
            SizeUnit::Gigabytes => "G",
        });
        assert(r@ =~= spec_render_size(*self));
        r
    }
}

/// The round-trip law: parsing a rendered filter gives the filter back.
/// Well-formedness is needed because `parse` refuses a value whose byte
/// resolution overflows.
pub proof fn lemma_size_round_trip(f: SizeFilter)
    requires
        f.wf(),
    ensures
        spec_parse_size(spec_render_size(f)) == Some(f),
{
    lemma_dec_digits_val(f.value as nat);
    let s = spec_render_size(f);
    let digits = dec_digits(f.value as nat);
    let rest = if s[0] == '+' || s[0] == '-' {
        s.subrange(1, s.len() as int)
    } else {
        s
    };
    assert(forall|i: int| 0 <= i < digits.len() ==>
        crate::digits::is_digit_char(#[trigger] digits[i]));
    assert(digits[0] != '+' && digits[0] != '-');
    match f.comparison {
        SizeComparison::Exactly => {
            assert(s =~= digits + seq![spec_size_unit_char(f.unit)]);
            assert(s[0] == digits[0]);
            assert(rest =~= s);
        },
        SizeComparison::Lesser => {
            assert(s =~= seq!['-'] + digits + seq![spec_size_unit_char(f.unit)]);
            assert(rest =~= digits + seq![spec_size_unit_char(f.unit)]);
        },
        SizeComparison::Greater => {
            assert(s =~= seq!['+'] + digits + seq![spec_size_unit_char(f.unit)]);
            assert(rest =~= digits + seq![spec_size_unit_char(f.unit)]);
        },
    }
    assert(rest.last() == spec_size_unit_char(f.unit));
    assert(spec_size_unit(spec_size_unit_char(f.unit)) == Some(f.unit));
    assert(rest.drop_last() =~= digits);
}

} // verus!
