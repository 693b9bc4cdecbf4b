//! The resistor decoder and calculator: assigning roles to band positions by
//! arity, assembling the [`Resistor`], and computing the resistance value in
//! exact fixed-point arithmetic.

use vstd::prelude::*;

use crate::band::{Band, BandError, Digit, FromBand, Multiplier, Role, TempCoeff, Tolerance};
use crate::resistance::{Resistance, MAX_RAW_CENTI};

verus! {

/// Ten to the `e`-th power.
pub open spec fn pow10(e: nat) -> nat
    decreases e,
{
    if e == 0 {
        1
    } else {
        10 * pow10((e - 1) as nat)
    }
}

/// Every power of ten is at least one.
pub proof fn lemma_pow10_pos(e: nat)
    ensures
        pow10(e) >= 1,
    decreases e,
{
    if e > 0 {
        lemma_pow10_pos((e - 1) as nat);
    }
}

/// Powers of ten grow with the exponent.
pub proof fn lemma_pow10_mono(a: nat, b: nat)
    requires
        a <= b,
    ensures
        pow10(a) <= pow10(b),
    decreases b,
{
    if a < b {
        lemma_pow10_mono(a, (b - 1) as nat);
        lemma_pow10_pos((b - 1) as nat);
    }
}

/// The concrete powers of ten a resistor code can reach: the multiplier
/// exponent spans -2 to 9, so two decades past the ninth cover every scale
/// factor in hundredths of an ohm.
pub proof fn lemma_pow10_values()
    ensures
        pow10(0) == 1,
        pow10(1) == 10,
        pow10(2) == 100,
        pow10(9) == 1_000_000_000,
        pow10(11) == 100_000_000_000,
{
    reveal_with_fuel(pow10, 12);
}

/// Ten to the `e`-th power, as a machine word.
fn pow10_u64(e: u32) -> (r: u64)
    requires
        e <= 11,
    ensures
        r == pow10(e as nat),
{
    let mut r: u64 = 1;
    let mut i: u32 = 0;
    while i < e
        invariant
            i <= e <= 11,
            r == pow10(i as nat),
        decreases e - i,
    {
        proof {
            lemma_pow10_mono((i + 1) as nat, 11);
            lemma_pow10_values();
        }
        r = r * 10;
        i = i + 1;
    }
    r
}

/// How many bands a resistor code has: 3 to 6 and nothing else.
#[derive(Debug, PartialEq, Eq, Structural, Clone, Copy)]
pub enum BandLength {
    L3,
    L4,
    L5,
    L6,
}

impl BandLength {
    /// The length variant for a band count.
    pub open spec fn spec_from(n: int) -> BandLength
        recommends
            3 <= n <= 6,
    {
        if n == 3 {
            BandLength::L3
        } else if n == 4 {
            BandLength::L4
        } else if n == 5 {
            BandLength::L5
        } else {
            BandLength::L6
        }
    }

    /// The length variant for a band count, which must be in range.
    pub fn from(f: usize) -> (r: BandLength)
        requires
            3 <= f <= 6,
        ensures
            r == BandLength::spec_from(f as int),
    {
        match f {
            3 => BandLength::L3,
            4 => BandLength::L4,
            5 => BandLength::L5,
            _ => BandLength::L6,
        }
    }

    /// The band count this variant stands for.
    pub open spec fn spec_count(self) -> int {
        match self {
            BandLength::L3 => 3,
            BandLength::L4 => 4,
            BandLength::L5 => 5,
            BandLength::L6 => 6,
        }
    }

    /// The band count this variant stands for.
    pub fn count(self) -> (n: usize)
        ensures
            n == self.spec_count(),
    {
        match self {
            BandLength::L3 => 3,
            BandLength::L4 => 4,
            BandLength::L5 => 5,
            BandLength::L6 => 6,
        }
    }
}

/// A band sequence grouped by its physical layout on the resistor body: the
/// digit bands sit together and the multiplier stands apart, with the
/// tolerance and temperature-coefficient bands at the far end.
#[derive(Debug, PartialEq, Eq, Structural, Clone, Copy)]
pub enum BandGroup {
    R3(Band, Band, Band),
    R4(Band, Band, Band, Band),
    R5(Band, Band, Band, Band, Band),
    R6(Band, Band, Band, Band, Band, Band),
}

impl BandGroup {
    /// The grouping of a band sequence, by its length.
    pub open spec fn spec_from(s: Seq<Band>) -> BandGroup
        recommends
            3 <= s.len() <= 6,
    {
        if s.len() == 3 {
            BandGroup::R3(s[0], s[1], s[2])
        } else if s.len() == 4 {
            BandGroup::R4(s[0], s[1], s[2], s[3])
        } else if s.len() == 5 {
            BandGroup::R5(s[0], s[1], s[2], s[3], s[4])
        } else {
            BandGroup::R6(s[0], s[1], s[2], s[3], s[4], s[5])
        }
    }

    /// Group a band sequence by its length, which must be in range.
    pub fn from(vec: Vec<Band>) -> (r: BandGroup)
        requires
            3 <= vec@.len() <= 6,
        ensures
            r == BandGroup::spec_from(vec@),
    {
        let n = vec.len();
        if n == 3 {
            BandGroup::R3(vec[0], vec[1], vec[2])
        } else if n == 4 {
            BandGroup::R4(vec[0], vec[1], vec[2], vec[3])
        } else if n == 5 {
            BandGroup::R5(vec[0], vec[1], vec[2], vec[3], vec[4])
        } else {
            BandGroup::R6(vec[0], vec[1], vec[2], vec[3], vec[4], vec[5])
        }
    }

    /// The schematic drawn for this grouping: each band as its one-letter
    /// abbreviation, digits grouped together, the multiplier set apart, and
    /// the gap placed as on a physical resistor body.
    pub open spec fn spec_ascii(self) -> Seq<char> {
        match self {
            BandGroup::R3(b0, b1, b2) => seq![
                '-', '[', b0.spec_letter(), ',', b1.spec_letter(), ',', b2.spec_letter(),
                ' ', ' ', ' ', ' ', ']', '-',
            ],
            BandGroup::R4(b0, b1, b2, b3) => seq![
                '-', '[', b0.spec_letter(), ',', b1.spec_letter(), ',', b2.spec_letter(),
                ' ', ' ', b3.spec_letter(), ' ', ']', '-',
            ],
            BandGroup::R5(b0, b1, b2, b3, b4) => seq![
                '-', '[', b0.spec_letter(), ',', b1.spec_letter(), ',', b2.spec_letter(),
                ',', b3.spec_letter(), ' ', b4.spec_letter(), ' ', ']', '-',
            ],
            BandGroup::R6(b0, b1, b2, b3, b4, b5) => seq![
                '-', '[', b0.spec_letter(), ',', b1.spec_letter(), ',', b2.spec_letter(),
                ',', b3.spec_letter(), ' ', b4.spec_letter(), ',', b5.spec_letter(), ']', '-',
            ],
        }
    }

    /// Render the schematic as a plain string.
    pub fn ascii(&self) -> (r: String)
        ensures
            r@ == (*self).spec_ascii(),
    {
        proof {
            reveal_strlit("-[");
            reveal_strlit(",");
            reveal_strlit(" ");
            reveal_strlit("    ]-");
            reveal_strlit("  ");
            reveal_strlit(" ]-");
            reveal_strlit("]-");
        }
        match self {
            BandGroup::R3(b0, b1, b2) => {
                let mut s = String::from_str("-[");
                s.append(b0.ascii());
                s.append(",");
                s.append(b1.ascii());
                s.append(",");
                s.append(b2.ascii());
                s.append("    ]-");
                proof {
                    assert(s@ =~= (*self).spec_ascii());
                }
                s
            },
            BandGroup::R4(b0, b1, b2, b3) => {
                let mut s = String::from_str("-[");
                s.append(b0.ascii());
                s.append(",");
                s.append(b1.ascii());
                s.append(",");
                s.append(b2.ascii());
                s.append("  ");
                s.append(b3.ascii());
                s.append(" ]-");
                proof {
                    assert(s@ =~= (*self).spec_ascii());
                }
                s
            },
            BandGroup::R5(b0, b1, b2, b3, b4) => {
                let mut s = String::from_str("-[");
                s.append(b0.ascii());
                s.append(",");
                s.append(b1.ascii());
                s.append(",");
                s.append(b2.ascii());
                s.append(",");
                s.append(b3.ascii());
                s.append(" ");
                s.append(b4.ascii());
                s.append(" ]-");
                proof {
                    assert(s@ =~= (*self).spec_ascii());
                }
                s
            },
            BandGroup::R6(b0, b1, b2, b3, b4, b5) => {
                let mut s = String::from_str("-[");
                s.append(b0.ascii());
                s.append(",");
                s.append(b1.ascii());
                s.append(",");
                s.append(b2.ascii());
                s.append(",");
                s.append(b3.ascii());
                s.append(" ");
                s.append(b4.ascii());
                s.append(",");
                s.append(b5.ascii());
                s.append("]-");
                proof {
                    assert(s@ =~= (*self).spec_ascii());
                }
                s
            },
        }
    }
}

/// A resistor assembled from a validated band sequence. The band count
/// strictly determines which optional fields are populated: `third` is
/// present exactly on 5- and 6-band codes and `temp_coeff` exactly on 6-band
/// codes, with `tolerance` falling back to [`Tolerance::Default`] only on
/// 3-band codes.
#[derive(Debug, PartialEq, Eq, Structural, Clone, Copy)]
pub struct Resistor {
    pub first: Digit,
    pub second: Digit,
    pub third: Option<Digit>,
    pub multiplier: Multiplier,
    pub tolerance: Tolerance,
    pub temp_coeff: Option<TempCoeff>,
}

/// The integer formed by the significant digits, accumulated left to right:
/// each further digit shifts the total one decimal position.
pub open spec fn spec_base(r: Resistor) -> int {
    match r.third {
        Some(t) => 100 * r.first.spec_value() + 10 * r.second.spec_value() + t.spec_value(),
        None => 10 * r.first.spec_value() + r.second.spec_value(),
    }
}

/// The nominal resistance in hundredths of an ohm: the digit base scaled by
/// the multiplier's power of ten. The exponent runs from -2 to 9, so two
/// decades past it the power is never negative and the value stays an
/// integer; a Gold multiplier (exponent -1) divides the ohm value by ten and
/// Silver (exponent -2) by a hundred.
pub open spec fn spec_raw_centi(r: Resistor) -> int {
    spec_base(r) * pow10((r.multiplier.spec_exponent() + 2) as nat)
}

/// The digit base is at most 999 (three digits of at most 9 each).
pub proof fn lemma_base_bounds(r: Resistor)
    ensures
        0 <= spec_base(r) <= 999,
{
}

/// The nominal value of any resistor fits the fixed-point range.
pub proof fn lemma_raw_centi_bounds(r: Resistor)
    ensures
        0 <= spec_raw_centi(r) <= MAX_RAW_CENTI,
{
    let e = (r.multiplier.spec_exponent() + 2) as nat;
    lemma_base_bounds(r);
    lemma_pow10_pos(e);
    lemma_pow10_mono(e, 11);
    lemma_pow10_values();
    assert(spec_base(r) * pow10(e) <= 999 * 100_000_000_000) by (nonlinear_arith)
        requires
            0 <= spec_base(r) <= 999,
            1 <= pow10(e) <= 100_000_000_000,
    ;
    assert(spec_base(r) * pow10(e) >= 0) by (nonlinear_arith)
        requires
            0 <= spec_base(r),
            0 <= pow10(e),
    ;
}

/// What decoding a band sequence yields: the arity check first, then each
/// position converted to its role in input order, the first refused band
/// deciding the error.
pub open spec fn spec_decode(s: Seq<Band>) -> Result<Resistor, BandError> {
    if s.len() < 3 || s.len() > 6 {
        Err(BandError::OutOfRange(s.len() as usize))
    } else {
        match Digit::spec_from_band(s[0]) {
            None => Err(BandError::UnsupportedBand(Role::Digit, s[0])),
            Some(first) => match Digit::spec_from_band(s[1]) {
                None => Err(BandError::UnsupportedBand(Role::Digit, s[1])),
                Some(second) => {
                    // a 5- or 6-band code spends its third position on one
                    // more digit, pushing the remaining roles one to the right
                    let m: int = if s.len() >= 5 { 3 } else { 2 };
                    let third_slot: Result<Option<Digit>, BandError> = if s.len() >= 5 {
                        match Digit::spec_from_band(s[2]) {
                            None => Err(BandError::UnsupportedBand(Role::Digit, s[2])),
                            Some(t) => Ok(Some(t)),
                        }
                    } else {
                        Ok(None)
                    };
                    match third_slot {
                        Err(e) => Err(e),
                        Ok(third) => {
                            let multiplier = Multiplier::spec_of_band(s[m]);
                            let tol_slot: Result<Tolerance, BandError> = if s.len() > m + 1 {
                                match Tolerance::spec_from_band(s[m + 1]) {
                                    None => Err(
                                        BandError::UnsupportedBand(Role::Tolerance, s[m + 1]),
                                    ),
                                    Some(t) => Ok(t),
                                }
                            } else {
                                Ok(Tolerance::Default)
                            };
                            match tol_slot {
                                Err(e) => Err(e),
                                Ok(tolerance) => {
                                    let tc_slot: Result<Option<TempCoeff>, BandError> = if s.len()
                                        > m + 2 {
                                        match TempCoeff::spec_from_band(s[m + 2]) {
                                            None => Err(
                                                BandError::UnsupportedBand(Role::TempCoeff, s[m + 2]),
                                            ),
                                            Some(t) => Ok(Some(t)),
                                        }
                                    } else {
                                        Ok(None)
                                    };
                                    match tc_slot {
                                        Err(e) => Err(e),
                                        Ok(temp_coeff) => Ok(
                                            Resistor {
                                                first,
                                                second,
                                                third,
                                                multiplier,
                                                tolerance,
                                                temp_coeff,
                                            },
                                        ),
                                    }
                                },
                            }
                        },
                    }
                },
            },
        }
    }
}

/// A band sequence read back to front.
pub open spec fn spec_reversed(s: Seq<Band>) -> Seq<Band> {
    Seq::new(s.len(), |i: int| s[s.len() - 1 - i])
}

fn reverse_bands(v: &Vec<Band>) -> (r: Vec<Band>)
    ensures
        r@ == spec_reversed(v@),
{
    let n = v.len();
    let mut r: Vec<Band> = Vec::new();
    let mut i: usize = 0;
    while i < n
        invariant
            i <= n,
            n == v@.len(),
            r@.len() == i,
            forall|k: int| 0 <= k < i ==> r@[k] == v@[n - 1 - k],
        decreases n - i,
    {
        r.push(v[n - 1 - i]);
        i = i + 1;
    }
    proof {
        assert(r@ =~= spec_reversed(v@));
    }
    r
}

impl Resistor {
    /// Decode an ordered band sequence into a resistor: reject counts
    /// outside 3 to 6, then assign roles positionally, the first position
    /// whose band its role refuses deciding the error.
    pub fn decode(vec: Vec<Band>) -> (r: Result<Resistor, BandError>)
        ensures
            r == spec_decode(vec@),
    {
        let n = vec.len();
        if n < 3 || n > 6 {
            return Err(BandError::OutOfRange(n));
        }
        let first = match Digit::from_band(&vec[0]) {
            Ok(d) => d,
            Err(e) => return Err(e),
        };
        let second = match Digit::from_band(&vec[1]) {
            Ok(d) => d,
            Err(e) => return Err(e),
        };
        let (third, m): (Option<Digit>, usize) = if n >= 5 {
            match Digit::from_band(&vec[2]) {
                Ok(d) => (Some(d), 3),
                Err(e) => return Err(e),
            }
        } else {
            (None, 2)
        };
        let multiplier = match Multiplier::from_band(&vec[m]) {
            Ok(mu) => mu,
            Err(e) => return Err(e),
        };
        let tolerance = if n > m + 1 {
            match Tolerance::from_band(&vec[m + 1]) {
                Ok(t) => t,
                Err(e) => return Err(e),
            }
        } else {
            Tolerance::Default
        };
        let temp_coeff = if n > m + 2 {
            match TempCoeff::from_band(&vec[m + 2]) {
                Ok(t) => Some(t),
                Err(e) => return Err(e),
            }
        } else {
            None
        };
        Ok(Resistor { first, second, third, multiplier, tolerance, temp_coeff })
    }

    /// Decode a band sequence, and when that fails, try the reverse order as
    /// a diagnostic: if the reversed sequence decodes, the input was likely
    /// entered back to front, and the more specific
    /// [`BandError::ReversedBandOrder`] wraps the original failure. Decoding
    /// still fails either way; only the error's specificity improves.
    pub fn decode_or_reversed(vec: Vec<Band>) -> (r: Result<Resistor, BandError>)
        ensures
            (match spec_decode(vec@) {
                Ok(res) => r == Ok::<Resistor, BandError>(res),
                Err(e) => (match spec_decode(spec_reversed(vec@)) {
                    Ok(_) => r matches Err(BandError::ReversedBandOrder(inner)) && *inner == e,
                    Err(_) => r == Err::<Resistor, BandError>(e),
                }),
            }),
    {
        let rev = reverse_bands(&vec);
        match Resistor::decode(vec) {
            Ok(res) => Ok(res),
            Err(e) => match Resistor::decode(rev) {
                Ok(_) => Err(BandError::ReversedBandOrder(Box::new(e))),
                Err(_) => Err(e),
            },
        }
    }

    /// The band count this resistor must have come from, read off its
    /// populated optional fields.
    pub open spec fn spec_size(self) -> BandLength {
        if self.tolerance != Tolerance::Default {
            if self.third is Some {
                if self.temp_coeff is Some {
                    BandLength::L6
                } else {
                    BandLength::L5
                }
            } else {
                BandLength::L4
            }
        } else {
            BandLength::L3
        }
    }

    /// The band count this resistor was decoded from.
    pub fn size(&self) -> (r: BandLength)
        ensures
            r == (*self).spec_size(),
    {
        if self.tolerance != Tolerance::Default {
            if self.third.is_some() {
                if self.temp_coeff.is_some() {
                    BandLength::L6
                } else {
                    BandLength::L5
                }
            } else {
                BandLength::L4
            }
        } else {
            BandLength::L3
        }
    }
}

/// The calculator's state as the command-line collaborator hands it over:
/// the band tokens, if any were given, and whether color output is disabled.
#[derive(Debug, PartialEq)]
pub struct Ohm {
    pub no_color: bool,
    pub bands: Option<Vec<Band>>,
}

impl Ohm {
    /// The nominal resistance of a resistor, in hundredths of an ohm:
    /// accumulate the significant digits left to right, then scale by the
    /// multiplier's power of ten — multiplying for exponents of zero and
    /// above, dividing for the negative Gold and Silver exponents.
    pub fn calculate_raw(res: &Resistor) -> (raw: u64)
        ensures
            raw == spec_raw_centi(*res),
    {
        let mut result: u64 = 0;
        // add the first digit
        result += res.first.value() as u64;
        // shift left one decimal position, add the second digit
        result = result * 10 + res.second.value() as u64;
        if let Some(third) = res.third {
            // shift left once more for the third digit
            result = result * 10 + third.value() as u64;
        }
        assert(result == spec_base(*res));
        let mult: i8 = res.multiplier.exponent();
        let ghost e = res.multiplier.spec_exponent();
        if mult >= 0 {
            let scale = pow10_u64(mult as u32);
            proof {
                lemma_pow10_mono(e as nat, 9);
                lemma_pow10_values();
                assert(pow10((e + 2) as nat) == 10 * pow10((e + 1) as nat));
                assert(pow10((e + 1) as nat) == 10 * pow10(e as nat));
                assert((result * 100) * pow10(e as nat) <= 99_900 * 1_000_000_000)
                    by (nonlinear_arith)
                    requires
                        0 <= result * 100 <= 99_900,
                        0 <= pow10(e as nat) <= 1_000_000_000,
                ;
                assert((result * 100) * pow10(e as nat) == result * (100 * pow10(e as nat)))
                    by (nonlinear_arith);
            }
            result * 100 * scale
        } else {
            let scale = pow10_u64((-mult) as u32);
            proof {
                lemma_pow10_values();
                if e == -1 {
                    assert((result * 100) / 10 == (10 * (result * 10)) / 10) by {
                        assert(result * 100 == 10 * (result * 10));
                    }
                    vstd::arithmetic::div_mod::lemma_div_multiples_vanish(result * 10 as int, 10);
                } else {
                    assert((result * 100) / 100 == (100 * (result * 1)) / 100) by {
                        assert(result * 100 == 100 * (result * 1));
                    }
                    vstd::arithmetic::div_mod::lemma_div_multiples_vanish(result * 1 as int, 100);
                }
            }
            result * 100 / scale
        }
    }

    /// Compute the resistance a resistor stands for: the nominal value from
    /// the digits and multiplier, the tolerance rating as its percentage,
    /// and the temperature coefficient passed through unchanged.
    pub fn compute(resistor: Resistor) -> (r: Resistance)
        ensures
            r.raw == spec_raw_centi(resistor),
            r.tol == resistor.tolerance.spec_basis_points(),
            r.temp == resistor.temp_coeff,
            r.wf(),
    {
        proof {
            lemma_raw_centi_bounds(resistor);
        }
        Resistance::new(
            Self::calculate_raw(&resistor),
            resistor.tolerance.basis_points(),
            resistor.temp_coeff,
        )
    }
}

/// On every valid 3-band code the tolerance resolves to
/// [`Tolerance::Default`] (the 20% fallback) and the temperature coefficient
/// is absent.
pub proof fn lemma_three_band_defaults(s: Seq<Band>)
    requires
        s.len() == 3,
        spec_decode(s) is Ok,
    ensures
        (spec_decode(s) matches Ok(r) && r.tolerance == Tolerance::Default && r.temp_coeff
            is None),
{
}

/// On every valid 4-, 5- or 6-band code the decoded tolerance is exactly the
/// conversion of the explicit band at the tolerance position — and therefore
/// never [`Tolerance::Default`], which no band converts to.
pub proof fn lemma_explicit_tolerance(s: Seq<Band>)
    requires
        4 <= s.len() <= 6,
        spec_decode(s) is Ok,
    ensures
        (spec_decode(s) matches Ok(r) && {
            let p: int = if s.len() >= 5 { 4 } else { 3 };
            Tolerance::spec_from_band(s[p]) == Some(r.tolerance) && r.tolerance
                != Tolerance::Default
        }),
{
}

/// The third digit is present exactly on 5- and 6-band codes, and the
/// temperature coefficient exactly on 6-band codes.
pub proof fn lemma_optional_fields_track_band_count(s: Seq<Band>)
    requires
        spec_decode(s) is Ok,
    ensures
        (spec_decode(s) matches Ok(r) && ((r.third is Some) <==> s.len() >= 5) && ((r.temp_coeff
            is Some) <==> s.len() == 6)),
{
}

/// A decoded resistor remembers its arity: the band count read back off the
/// populated optional fields is the length of the sequence it came from.
pub proof fn lemma_size_matches_band_count(s: Seq<Band>)
    requires
        spec_decode(s) is Ok,
    ensures
        (spec_decode(s) matches Ok(r) && r.spec_size().spec_count() == s.len()),
{
    if s.len() >= 4 {
        lemma_explicit_tolerance(s);
    }
}

/// Decoding is a pure function of the band sequence: identical inputs decode
/// to equal resistors (or to the same error).
pub proof fn lemma_decode_deterministic(s1: Seq<Band>, s2: Seq<Band>)
    requires
        s1 == s2,
    ensures
        spec_decode(s1) == spec_decode(s2),
{
}

/// Digit accumulation is order-sensitive: swapping the first and second
/// digit bands of a resistor changes the nominal value, unless the two
/// digits are equal.
pub proof fn lemma_digit_order_sensitive(r: Resistor, w: Resistor)
    requires
        w.first == r.second,
        w.second == r.first,
        w.third == r.third,
        w.multiplier == r.multiplier,
        r.first != r.second,
    ensures
        spec_raw_centi(w) != spec_raw_centi(r),
{
    let p = pow10((r.multiplier.spec_exponent() + 2) as nat) as int;
    lemma_pow10_pos((r.multiplier.spec_exponent() + 2) as nat);
    assert(r.first.spec_value() != r.second.spec_value());
    assert(spec_base(r) != spec_base(w));
    if spec_base(r) < spec_base(w) {
        vstd::arithmetic::mul::lemma_mul_strict_inequality(spec_base(r), spec_base(w), p);
    } else {
        vstd::arithmetic::mul::lemma_mul_strict_inequality(spec_base(w), spec_base(r), p);
    }
}

/// The multiplier's sign inverts the scale. In hundredths of an ohm the
/// neutral Black multiplier scales the digit base by a hundred, Gold by only
/// ten and Silver by one: relative to Black, a Gold multiplier divides the
/// resistance by ten and a Silver multiplier by a hundred.
pub proof fn lemma_negative_multiplier_divides(r: Resistor)
    ensures
        r.multiplier == Multiplier::Black ==> spec_raw_centi(r) == 100 * spec_base(r),
        r.multiplier == Multiplier::Gold ==> spec_raw_centi(r) == 10 * spec_base(r),
        r.multiplier == Multiplier::Silver ==> spec_raw_centi(r) == spec_base(r),
{
    lemma_pow10_values();
    let b = spec_base(r);
    if r.multiplier == Multiplier::Black {
        assert((r.multiplier.spec_exponent() + 2) as nat == 2);
        assert(spec_raw_centi(r) == b * 100);
        vstd::arithmetic::mul::lemma_mul_is_commutative(b, 100);
    } else if r.multiplier == Multiplier::Gold {
        assert((r.multiplier.spec_exponent() + 2) as nat == 1);
        assert(spec_raw_centi(r) == b * 10);
        vstd::arithmetic::mul::lemma_mul_is_commutative(b, 10);
    } else if r.multiplier == Multiplier::Silver {
        assert((r.multiplier.spec_exponent() + 2) as nat == 0);
        assert(spec_raw_centi(r) == b * 1);
        vstd::arithmetic::mul::lemma_mul_is_commutative(b, 1);
    }
}

} // verus!
