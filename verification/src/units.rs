//! Byte-size formatting: scales a raw byte count to the largest
//! well-fitting magnitude (Kilo..Exa) under a chosen numbering system
//! (1000- or 1024-based) and renders it as `"value unit"` with a fixed
//! two-decimal-place value.

use vstd::prelude::*;
use vstd::string::StringExecFns;

verus! {

/// The numbering system a byte count is scaled under: powers of 1000
/// (decimal, SI prefixes) or powers of 1024 (binary, IEC prefixes).
#[derive(Clone, Copy, Debug, PartialEq, Eq, Structural)]
pub enum System {
    Decimal,
    Binary,
}

/// One step of the Kilo..Exa scale. The step's exponent, applied to the
/// numbering system's base, gives the divisor for that step. There is no
/// magnitude below Kilo or above Exa: the scale clamps at both ends.
#[derive(Clone, Copy, Debug, PartialEq, Eq, Structural)]
pub enum Magnitude {
    Kilo,
    Mega,
    Giga,
    Tera,
    Peta,
    Exa,
}

/// The base a numbering system raises to a magnitude's exponent.
pub open spec fn base_of(system: System) -> int {
    match system {
        System::Decimal => 1000,
        System::Binary => 1024,
    }
}

/// The exponent a magnitude applies to the numbering system's base.
pub open spec fn exponent_of(magnitude: Magnitude) -> int {
    match magnitude {
        Magnitude::Kilo => 1,
        Magnitude::Mega => 2,
        Magnitude::Giga => 3,
        Magnitude::Tera => 4,
        Magnitude::Peta => 5,
        Magnitude::Exa => 6,
    }
}

/// The divisor of a (system, magnitude) pair: base raised to the
/// magnitude's exponent, written out power by power.
pub open spec fn divisor_of(system: System, magnitude: Magnitude) -> int {
    let b = base_of(system);
    match magnitude {
        Magnitude::Kilo => b,
        Magnitude::Mega => b * b,
        Magnitude::Giga => b * b * b,
        Magnitude::Tera => b * b * b * b,
        Magnitude::Peta => b * b * b * b * b,
        Magnitude::Exa => b * b * b * b * b * b,
    }
}

/// The prefix letter of a magnitude, as it appears in the unit label.
pub open spec fn prefix_of(magnitude: Magnitude) -> char {
    match magnitude {
        Magnitude::Kilo => 'K',
        Magnitude::Mega => 'M',
        Magnitude::Giga => 'G',
        Magnitude::Tera => 'T',
        Magnitude::Peta => 'P',
        Magnitude::Exa => 'E',
    }
}

/// The infix between the prefix letter and the final "B": "i" for the
/// binary system, nothing for the decimal one.
pub open spec fn infix_of(system: System) -> Seq<char> {
    match system {
        System::Decimal => Seq::<char>::empty(),
        System::Binary => seq!['i'],
    }
}

/// The unit label of a (system, magnitude) pair, e.g. "KiB" or "GB".
pub open spec fn unit_label(system: System, magnitude: Magnitude) -> Seq<char> {
    seq![prefix_of(magnitude)] + infix_of(system) + seq!['B']
}

/// Every divisor is at least the smallest base, hence positive.
pub proof fn lemma_divisor_at_least_base(system: System, magnitude: Magnitude)
    ensures
        1000 <= divisor_of(system, magnitude),
{
    match system {
        System::Decimal => {
            match magnitude {
                Magnitude::Kilo => assert(divisor_of(system, magnitude) == 1000),
                Magnitude::Mega => assert(divisor_of(system, magnitude) == 1000000),
                Magnitude::Giga => assert(divisor_of(system, magnitude) == 1000000000),
                Magnitude::Tera => assert(divisor_of(system, magnitude) == 1000000000000),
                Magnitude::Peta => assert(divisor_of(system, magnitude) == 1000000000000000),
                Magnitude::Exa => assert(divisor_of(system, magnitude) == 1000000000000000000),
            }
        },
        System::Binary => {
            match magnitude {
                Magnitude::Kilo => assert(divisor_of(system, magnitude) == 1024),
                Magnitude::Mega => assert(divisor_of(system, magnitude) == 1048576),
                Magnitude::Giga => assert(divisor_of(system, magnitude) == 1073741824),
                Magnitude::Tera => assert(divisor_of(system, magnitude) == 1099511627776),
                Magnitude::Peta => assert(divisor_of(system, magnitude) == 1125899906842624),
                Magnitude::Exa => assert(divisor_of(system, magnitude) == 1152921504606846976),
            }
        },
    }
}

/// For all valid (system, magnitude) pairs the divisor is positive, and
/// the unit label uniquely determines the pair.
pub proof fn lemma_scale_well_formed(s1: System, m1: Magnitude, s2: System, m2: Magnitude)
    ensures
        divisor_of(s1, m1) > 0,
        unit_label(s1, m1) == unit_label(s2, m2) ==> s1 == s2 && m1 == m2,
{
    lemma_divisor_at_least_base(s1, m1);
    if unit_label(s1, m1) == unit_label(s2, m2) {
        assert(unit_label(s1, m1).len() == 2 + infix_of(s1).len());
        assert(unit_label(s2, m2).len() == 2 + infix_of(s2).len());
        assert(s1 == s2);
        assert(unit_label(s1, m1)[0] == prefix_of(m1));
        assert(unit_label(s2, m2)[0] == prefix_of(m2));
        assert(m1 == m2);
    }
}

/// The magnitude the fitting walk keeps for a value: the walk starts at
/// Kilo and stops at the first magnitude whose divisor exceeds the value,
/// keeping the previous one; a value below one Kilo-unit keeps Kilo, and
/// a value at or above one Exa-unit clamps at Exa.
pub open spec fn fitted_magnitude(value: int, system: System) -> Magnitude {
    if value < divisor_of(system, Magnitude::Mega) {
        Magnitude::Kilo
    } else if value < divisor_of(system, Magnitude::Giga) {
        Magnitude::Mega
    } else if value < divisor_of(system, Magnitude::Tera) {
        Magnitude::Giga
    } else if value < divisor_of(system, Magnitude::Peta) {
        Magnitude::Tera
    } else if value < divisor_of(system, Magnitude::Exa) {
        Magnitude::Peta
    } else {
        Magnitude::Exa
    }
}

/// The magnitude one step above the given one; Exa, the ceiling, has no
/// step above and yields itself.
pub open spec fn next_magnitude(magnitude: Magnitude) -> Magnitude {
    match magnitude {
        Magnitude::Kilo => Magnitude::Mega,
        Magnitude::Mega => Magnitude::Giga,
        Magnitude::Giga => Magnitude::Tera,
        Magnitude::Tera => Magnitude::Peta,
        Magnitude::Peta => Magnitude::Exa,
        Magnitude::Exa => Magnitude::Exa,
    }
}

/// The fitting walk keeps the largest magnitude whose divisor does not
/// exceed the value: any kept magnitude above Kilo fits the value (Kilo
/// is also kept as the floor for values below one Kilo-unit), and unless
/// the walk clamped at Exa, the magnitude above the kept one does not
/// fit.
pub proof fn lemma_fitted_magnitude_is_largest_fitting(value: int, system: System)
    ensures
        fitted_magnitude(value, system) != Magnitude::Kilo ==> divisor_of(
            system,
            fitted_magnitude(value, system),
        ) <= value,
        fitted_magnitude(value, system) != Magnitude::Exa ==> value < divisor_of(
            system,
            next_magnitude(fitted_magnitude(value, system)),
        ),
{
}

/// Scales byte counts by a fixed divisor and labels them with the unit
/// of the (system, magnitude) pair it was constructed from.
pub struct ByteSizeFormatter {
    divisor: u64,
    unit: String,
}

impl ByteSizeFormatter {
    /// The divisor this formatter scales by.
    pub closed spec fn spec_divisor(&self) -> int {
        self.divisor as int
    }

    /// The unit label this formatter appends.
    pub closed spec fn spec_unit(&self) -> Seq<char> {
        self.unit@
    }

    /// The formatter's fields are exactly those derived from the pair.
    pub open spec fn derived_from(&self, system: System, magnitude: Magnitude) -> bool {
        &&& self.spec_divisor() == divisor_of(system, magnitude)
        &&& self.spec_unit() == unit_label(system, magnitude)
    }

    /// A formatter is well formed when its divisor and unit label are the
    /// derived values of some (system, magnitude) pair.
    pub open spec fn wf(&self) -> bool {
        exists|system: System, magnitude: Magnitude| self.derived_from(system, magnitude)
    }

    /// Constructs the formatter of a (system, magnitude) pair.
    pub fn new(system: System, magnitude: Magnitude) -> (r: Self)
        ensures
            r.derived_from(system, magnitude),
            r.wf(),
    {
        let r = ByteSizeFormatter {
            divisor: Self::compute_divisor(system, magnitude),
            unit: unit_string(system, magnitude),
        };
        proof {
            assert(r.derived_from(system, magnitude));
        }
        r
    }

    fn compute_divisor(system: System, magnitude: Magnitude) -> (d: u64)
        ensures
            d as int == divisor_of(system, magnitude),
    {
        match system {
            System::Decimal => match magnitude {
                Magnitude::Kilo => 1000,
                Magnitude::Mega => 1000 * 1000,
                Magnitude::Giga => 1000 * 1000 * 1000,
                Magnitude::Tera => 1000 * 1000 * 1000 * 1000,
                Magnitude::Peta => 1000 * 1000 * 1000 * 1000 * 1000,
                Magnitude::Exa => 1000 * 1000 * 1000 * 1000 * 1000 * 1000,
            },
            System::Binary => match magnitude {
                Magnitude::Kilo => 1024,
                Magnitude::Mega => 1024 * 1024,
                Magnitude::Giga => 1024 * 1024 * 1024,
                Magnitude::Tera => 1024 * 1024 * 1024 * 1024,
                Magnitude::Peta => 1024 * 1024 * 1024 * 1024 * 1024,
                Magnitude::Exa => 1024 * 1024 * 1024 * 1024 * 1024 * 1024,
            },
        }
    }

    /// Selects the magnitude the value fits and constructs its formatter.
    pub fn fit(value: u64, system: System) -> (r: Self)
        ensures
            r.derived_from(system, fitted_magnitude(value as int, system)),
            r.wf(),
    {
        let last = if value < Self::compute_divisor(system, Magnitude::Mega) {
            Magnitude::Kilo
        } else if value < Self::compute_divisor(system, Magnitude::Giga) {
            Magnitude::Mega
        } else if value < Self::compute_divisor(system, Magnitude::Tera) {
            Magnitude::Giga
        } else if value < Self::compute_divisor(system, Magnitude::Peta) {
            Magnitude::Tera
        } else if value < Self::compute_divisor(system, Magnitude::Exa) {
            Magnitude::Peta
        } else {
            Magnitude::Exa
        };
        assert(last == fitted_magnitude(value as int, system));
        Self::new(system, last)
    }

    /// The unit label, e.g. "KiB".
    pub fn get_unit(&self) -> (r: &str)
        ensures
            r@ == self.spec_unit(),
    {
        self.unit.as_str()
    }

    /// The divisor, e.g. 1024.
    pub fn get_divisor(&self) -> (r: &u64)
        ensures
            *r as int == self.spec_divisor(),
    {
        &self.divisor
    }
}

/// The character of a single decimal digit.
pub open spec fn digit_char(d: int) -> char {
    if d == 0 {
        '0'
    } else if d == 1 {
        '1'
    } else if d == 2 {
        '2'
    } else if d == 3 {
        '3'
    } else if d == 4 {
        '4'
    } else if d == 5 {
        '5'
    } else if d == 6 {
        '6'
    } else if d == 7 {
        '7'
    } else if d == 8 {
        '8'
    } else {
        '9'
    }
}

/// The decimal digits of a non-negative integer, most significant first.
pub open spec fn dec_str(n: int) -> Seq<char>
    decreases n,
{
    if n < 10 {
        seq![digit_char(n)]
    } else {
        dec_str(n / 10) + seq![digit_char(n % 10)]
    }
}

/// A quotient in hundredths, rounded to the nearest hundredth with ties
/// rounded up.
pub open spec fn hundredths_of(value: int, divisor: int) -> int
    recommends
        divisor > 0,
{
    (value * 200 / divisor + 1) / 2
}

/// A count of hundredths rendered as a fixed two-decimal-place number
/// with `.` as the separator, e.g. 1234 renders as "12.34".
pub open spec fn hundredths_str(h: int) -> Seq<char> {
    dec_str(h / 100) + seq!['.'] + seq![digit_char(h % 100 / 10), digit_char(h % 10)]
}

/// The numeric part of a formatted value: value / divisor in hundredths.
pub open spec fn quotient_str(value: int, divisor: int) -> Seq<char> {
    hundredths_str(hundredths_of(value, divisor))
}

/// A fully formatted value: quotient, one space, unit label.
pub open spec fn formatted_str(value: int, divisor: int, unit: Seq<char>) -> Seq<char> {
    quotient_str(value, divisor) + seq![' '] + unit
}

/// A used/total pair under one shared scale fitted to the total: the
/// quotient of the used value, a slash, and the formatted total.
pub open spec fn byte_usage_str(used: int, total: int, si_units: bool) -> Seq<char> {
    let system = if si_units {
        System::Decimal
    } else {
        System::Binary
    };
    let magnitude = fitted_magnitude(total, system);
    let divisor = divisor_of(system, magnitude);
    quotient_str(used, divisor) + seq!['/'] + formatted_str(total, divisor, unit_label(system, magnitude))
}

impl ByteSizeFormatter {
    /// Renders `value / divisor` to two decimal places followed by a
    /// space and the unit label, e.g. "0.50 KiB".
    pub fn format(&self, value: u64) -> (r: String)
        requires
            self.wf(),
        ensures
            r@ == formatted_str(value as int, self.spec_divisor(), self.spec_unit()),
    {
        let mut r = self.format_quotient(value);
        proof {
            reveal_strlit(" ");
            assert(" "@ =~= seq![' ']);
        }
        r.append(" ");
        r.append(self.unit.as_str());
        proof {
            assert(r@ =~= formatted_str(value as int, self.spec_divisor(), self.spec_unit()));
        }
        r
    }

    /// Renders only the numeric quotient of `value / divisor`, without
    /// the unit label, e.g. "0.50".
    pub fn format_quotient(&self, value: u64) -> (r: String)
        requires
            self.wf(),
        ensures
            r@ == quotient_str(value as int, self.spec_divisor()),
    {
        render_hundredths(self.hundredths(value))
    }

    /// The scaled value in hundredths of a unit, rounded to nearest.
    fn hundredths(&self, value: u64) -> (h: u64)
        requires
            self.wf(),
        ensures
            h as int == hundredths_of(value as int, self.spec_divisor()),
    {
        proof {
            let (system, magnitude) = choose|s: System, m: Magnitude| self.derived_from(s, m);
            lemma_divisor_at_least_base(system, magnitude);
            assert(self.spec_divisor() >= 1000);
        }
        let scaled: u128 = (value as u128) * 200 / (self.divisor as u128);
        proof {
            vstd::arithmetic::div_mod::lemma_div_is_ordered_by_denominator(
                value as int * 200,
                1000,
                self.divisor as int,
            );
            vstd::arithmetic::div_mod::lemma_div_is_ordered(
                value as int * 200,
                u64::MAX as int * 200,
                1000,
            );
            assert(scaled as int <= u64::MAX as int * 200 / 1000);
        }
        let h: u128 = (scaled + 1) / 2;
        h as u64
    }
}

/// Renders a count of hundredths as a fixed two-decimal-place number,
/// e.g. 1234 as "12.34".
pub(crate) fn render_hundredths(h: u64) -> (r: String)
    ensures
        r@ == hundredths_str(h as int),
{
    let mut r = u64_to_dec(h / 100);
    proof {
        reveal_strlit(".");
        assert("."@ =~= seq!['.']);
    }
    r.append(".");
    let f = h % 100;
    r.append(digit_literal(f / 10));
    r.append(digit_literal(f % 10));
    proof {
        assert(f % 10 == h as int % 10) by {
            vstd::arithmetic::div_mod::lemma_mod_mod(h as int, 10, 10);
        }
        assert(r@ =~= hundredths_str(h as int));
    }
    r
}

/// Renders a non-negative integer in decimal, e.g. 42 as "42".
pub(crate) fn u64_to_dec(n: u64) -> (r: String)
    ensures
        r@ == dec_str(n as int),
    decreases n,
{
    if n < 10 {
        digit_literal(n).to_owned()
    } else {
        let mut r = u64_to_dec(n / 10);
        r.append(digit_literal(n % 10));
        r
    }
}

fn digit_literal(d: u64) -> (r: &'static str)
    requires
        d < 10,
    ensures
        r@ == seq![digit_char(d as int)],
{
    if d == 0 {
        proof {
            reveal_strlit("0");
            assert("0"@ =~= seq![digit_char(0)]);
        }
        "0"
    } else if d == 1 {
        proof {
            reveal_strlit("1");
            assert("1"@ =~= seq![digit_char(1)]);
        }
        "1"
    } else if d == 2 {
        proof {
            reveal_strlit("2");
            assert("2"@ =~= seq![digit_char(2)]);
        }
        "2"
    } else if d == 3 {
        proof {
            reveal_strlit("3");
            assert("3"@ =~= seq![digit_char(3)]);
        }
        "3"
    } else if d == 4 {
        proof {
            reveal_strlit("4");
            assert("4"@ =~= seq![digit_char(4)]);
        }
        "4"
    } else if d == 5 {
        proof {
            reveal_strlit("5");
            assert("5"@ =~= seq![digit_char(5)]);
        }
        "5"
    } else if d == 6 {
        proof {
            reveal_strlit("6");
            assert("6"@ =~= seq![digit_char(6)]);
        }
        "6"
    } else if d == 7 {
        proof {
            reveal_strlit("7");
            assert("7"@ =~= seq![digit_char(7)]);
        }
        "7"
    } else if d == 8 {
        proof {
            reveal_strlit("8");
            assert("8"@ =~= seq![digit_char(8)]);
        }
        "8"
    } else {
        proof {
            reveal_strlit("9");
            assert("9"@ =~= seq![digit_char(9)]);
        }
        "9"
    }
}

/// Renders a used/total pair against one shared scale fitted to the
/// total: the used quotient, a slash, and the fully formatted total.
pub fn format_byte_usage(used: u64, total: u64, si_units: bool) -> (r: String)
    ensures
        r@ == byte_usage_str(used as int, total as int, si_units),
{
    let system = if si_units {
        System::Decimal
    } else {
        System::Binary
    };
    let formatter = ByteSizeFormatter::fit(total, system);
    let mut r = formatter.format_quotient(used);
    proof {
        reveal_strlit("/");
        assert("/"@ =~= seq!['/']);
    }
    r.append("/");
    let formatted_total = formatter.format(total);
    r.append(formatted_total.as_str());
    proof {
        assert(r@ =~= byte_usage_str(used as int, total as int, si_units));
    }
    r
}

fn unit_string(system: System, magnitude: Magnitude) -> (r: String)
    ensures
        r@ == unit_label(system, magnitude),
{
    match system {
        System::Decimal => match magnitude {
            Magnitude::Kilo => {
                proof {
                    reveal_strlit("KB");
                    assert("KB"@ =~= unit_label(system, magnitude));
                }
                "KB".to_owned()
            },
            Magnitude::Mega => {
                proof {
                    reveal_strlit("MB");
                    assert("MB"@ =~= unit_label(system, magnitude));
                }
                "MB".to_owned()
            },
            Magnitude::Giga => {
                proof {
                    reveal_strlit("GB");
                    assert("GB"@ =~= unit_label(system, magnitude));
                }
                "GB".to_owned()
            },
            Magnitude::Tera => {
                proof {
                    reveal_strlit("TB");
                    assert("TB"@ =~= unit_label(system, magnitude));
                }
                "TB".to_owned()
            },
            Magnitude::Peta => {
                proof {
                    reveal_strlit("PB");
                    assert("PB"@ =~= unit_label(system, magnitude));
                }
                "PB".to_owned()
            },
            Magnitude::Exa => {
                proof {
                    reveal_strlit("EB");
                    assert("EB"@ =~= unit_label(system, magnitude));
                }
                "EB".to_owned()
            },
        },
        System::Binary => match magnitude {
            Magnitude::Kilo => {
                proof {
                    reveal_strlit("KiB");
                    assert("KiB"@ =~= unit_label(system, magnitude));
                }
                "KiB".to_owned()
            },
            Magnitude::Mega => {
                proof {
                    reveal_strlit("MiB");
                    assert("MiB"@ =~= unit_label(system, magnitude));
                }
                "MiB".to_owned()
            },
            Magnitude::Giga => {
                proof {
                    reveal_strlit("GiB");
                    assert("GiB"@ =~= unit_label(system, magnitude));
                }
                "GiB".to_owned()
            },
            Magnitude::Tera => {
                proof {
                    reveal_strlit("TiB");
                    assert("TiB"@ =~= unit_label(system, magnitude));
                }
                "TiB".to_owned()
            },
            Magnitude::Peta => {
                proof {
                    reveal_strlit("PiB");
                    assert("PiB"@ =~= unit_label(system, magnitude));
                }
                "PiB".to_owned()
            },
            Magnitude::Exa => {
                proof {
                    reveal_strlit("EiB");
                    assert("EiB"@ =~= unit_label(system, magnitude));
                }
                "EiB".to_owned()
            },
        },
    }
}

} // verus!
