//! The band taxonomy: the closed set of colors a band can have, the
//! role-specific subsets (digit, multiplier, tolerance, temperature
//! coefficient) together with each role's numeric meaning, and the parser
//! that turns a textual token into a [`Band`].

use vstd::prelude::*;

verus! {

/// One colored ring painted on a resistor body.
#[derive(Debug, PartialEq, Eq, Structural, Clone, Copy)]
pub enum Band {
    Black,
    Brown,
    Red,
    Orange,
    Yellow,
    Green,
    Blue,
    Violet,
    Grey,
    White,
    Gold,
    Silver,
}

/// The positional meaning a band is asked to take on. Named in
/// [`BandError::UnsupportedBand`] when a band cannot fill the role.
#[derive(Debug, PartialEq, Eq, Structural, Clone, Copy)]
pub enum Role {
    Digit,
    Multiplier,
    Tolerance,
    TempCoeff,
}

/// Why a token or a band sequence was rejected.
#[derive(Debug, PartialEq, Eq)]
pub enum BandError {
    /// The token matched no known color name or abbreviation.
    InvalidCode,
    /// The band count is outside the supported range of 3 to 6; carries the
    /// count that was given.
    OutOfRange(usize),
    /// The band is a valid color but cannot take the role its position
    /// assigned to it (for example Gold as a digit).
    UnsupportedBand(Role, Band),
    /// Decoding failed as given, but the reverse-ordered sequence decodes:
    /// the bands were likely entered back to front. Wraps the error the
    /// original order produced.
    ReversedBandOrder(Box<BandError>),
}

/// Conversion from a generic band to one role's meaning: a partial function
/// given by a fixed table, [`FromBand::spec_from_band`].
pub trait FromBand: Sized {
    /// The role's table: `Some` exactly on the bands the role accepts.
    spec fn spec_from_band(b: Band) -> Option<Self>;

    /// The role named in the error when a band is refused.
    spec fn spec_role() -> Role;

    /// Look the band up in the role's table; a refused band reports the role
    /// it could not fill.
    fn from_band(b: &Band) -> (r: Result<Self, BandError>)
        ensures
            (match Self::spec_from_band(*b) {
                Some(v) => r == Ok::<Self, BandError>(v),
                None => r == Err::<Self, BandError>(
                    BandError::UnsupportedBand(Self::spec_role(), *b),
                ),
            }),
    ;
}

/// A significant-figure digit: every band from Black to White, worth 0 to 9.
/// Gold and Silver are never digits.
#[derive(Debug, PartialEq, Eq, Structural, Clone, Copy)]
pub enum Digit {
    Black,
    Brown,
    Red,
    Orange,
    Yellow,
    Green,
    Blue,
    Violet,
    Grey,
    White,
}

impl Digit {
    /// The digit each color stands for.
    pub open spec fn spec_value(self) -> u8 {
        match self {
            Digit::Black => 0,
            Digit::Brown => 1,
            Digit::Red => 2,
            Digit::Orange => 3,
            Digit::Yellow => 4,
            Digit::Green => 5,
            Digit::Blue => 6,
            Digit::Violet => 7,
            Digit::Grey => 8,
            Digit::White => 9,
        }
    }

    /// The digit's numeric value, 0 through 9.
    pub fn value(self) -> (v: u8)
        ensures
            v == self.spec_value(),
    {
        match self {
            Digit::Black => 0,
            Digit::Brown => 1,
            Digit::Red => 2,
            Digit::Orange => 3,
            Digit::Yellow => 4,
            Digit::Green => 5,
            Digit::Blue => 6,
            Digit::Violet => 7,
            Digit::Grey => 8,
            Digit::White => 9,
        }
    }
}

impl FromBand for Digit {
    open spec fn spec_from_band(b: Band) -> Option<Digit> {
        match b {
            Band::Black => Some(Digit::Black),
            Band::Brown => Some(Digit::Brown),
            Band::Red => Some(Digit::Red),
            Band::Orange => Some(Digit::Orange),
            Band::Yellow => Some(Digit::Yellow),
            Band::Green => Some(Digit::Green),
            Band::Blue => Some(Digit::Blue),
            Band::Violet => Some(Digit::Violet),
            Band::Grey => Some(Digit::Grey),
            Band::White => Some(Digit::White),
            Band::Gold => None,
            Band::Silver => None,
        }
    }

    open spec fn spec_role() -> Role {
        Role::Digit
    }

    fn from_band(b: &Band) -> (r: Result<Self, BandError>) {
        match b {
            Band::Black => Ok(Digit::Black),
            Band::Brown => Ok(Digit::Brown),
            Band::Red => Ok(Digit::Red),
            Band::Orange => Ok(Digit::Orange),
            Band::Yellow => Ok(Digit::Yellow),
            Band::Green => Ok(Digit::Green),
            Band::Blue => Ok(Digit::Blue),
            Band::Violet => Ok(Digit::Violet),
            Band::Grey => Ok(Digit::Grey),
            Band::White => Ok(Digit::White),
            _ => Err(BandError::UnsupportedBand(Role::Digit, *b)),
        }
    }
}

/// A power-of-ten multiplier: every band is valid. Black through White scale
/// up by 0 to 9 decades; Gold and Silver scale down by one and two.
#[derive(Debug, PartialEq, Eq, Structural, Clone, Copy)]
pub enum Multiplier {
    Black,
    Brown,
    Red,
    Orange,
    Yellow,
    Green,
    Blue,
    Violet,
    Grey,
    White,
    Gold,
    Silver,
}

impl Multiplier {
    /// The band every multiplier color comes from: the conversion is total.
    pub open spec fn spec_of_band(b: Band) -> Multiplier {
        match b {
            Band::Black => Multiplier::Black,
            Band::Brown => Multiplier::Brown,
            Band::Red => Multiplier::Red,
            Band::Orange => Multiplier::Orange,
            Band::Yellow => Multiplier::Yellow,
            Band::Green => Multiplier::Green,
            Band::Blue => Multiplier::Blue,
            Band::Violet => Multiplier::Violet,
            Band::Grey => Multiplier::Grey,
            Band::White => Multiplier::White,
            Band::Gold => Multiplier::Gold,
            Band::Silver => Multiplier::Silver,
        }
    }

    /// The signed power-of-ten exponent each color stands for.
    pub open spec fn spec_exponent(self) -> int {
        match self {
            Multiplier::Black => 0,
            Multiplier::Brown => 1,
            Multiplier::Red => 2,
            Multiplier::Orange => 3,
            Multiplier::Yellow => 4,
            Multiplier::Green => 5,
            Multiplier::Blue => 6,
            Multiplier::Violet => 7,
            Multiplier::Grey => 8,
            Multiplier::White => 9,
            Multiplier::Gold => -1,
            Multiplier::Silver => -2,
        }
    }

    /// The multiplier's exponent, -2 through 9.
    pub fn exponent(self) -> (e: i8)
        ensures
            e == self.spec_exponent(),
    {
        match self {
            Multiplier::Black => 0,
            Multiplier::Brown => 1,
            Multiplier::Red => 2,
            Multiplier::Orange => 3,
            Multiplier::Yellow => 4,
            Multiplier::Green => 5,
            Multiplier::Blue => 6,
            Multiplier::Violet => 7,
            Multiplier::Grey => 8,
            Multiplier::White => 9,
            Multiplier::Gold => -1,
            Multiplier::Silver => -2,
        }
    }
}

impl FromBand for Multiplier {
    open spec fn spec_from_band(b: Band) -> Option<Multiplier> {
        Some(Multiplier::spec_of_band(b))
    }

    open spec fn spec_role() -> Role {
        Role::Multiplier
    }

    fn from_band(b: &Band) -> (r: Result<Self, BandError>) {
        match b {
            Band::Black => Ok(Multiplier::Black),
            Band::Brown => Ok(Multiplier::Brown),
            Band::Red => Ok(Multiplier::Red),
            Band::Orange => Ok(Multiplier::Orange),
            Band::Yellow => Ok(Multiplier::Yellow),
            Band::Green => Ok(Multiplier::Green),
            Band::Blue => Ok(Multiplier::Blue),
            Band::Violet => Ok(Multiplier::Violet),
            Band::Grey => Ok(Multiplier::Grey),
            Band::White => Ok(Multiplier::White),
            Band::Gold => Ok(Multiplier::Gold),
            Band::Silver => Ok(Multiplier::Silver),
        }
    }
}

/// A tolerance rating: Brown through Grey plus Gold and Silver, never Black
/// or White. `Default` is the synthetic rating a 3-band code falls back to.
#[derive(Debug, PartialEq, Eq, Structural, Clone, Copy)]
pub enum Tolerance {
    Brown,
    Red,
    Orange,
    Yellow,
    Green,
    Blue,
    Violet,
    Grey,
    Gold,
    Silver,
    /// The rating assumed when no tolerance band is supplied: 20%.
    Default,
}

impl Tolerance {
    /// The tolerance in hundredths of a percent, so that the fractional
    /// ratings (0.05% for Grey up to 20% for Default) stay exact integers.
    pub open spec fn spec_basis_points(self) -> u32 {
        match self {
            Tolerance::Brown => 100,
            Tolerance::Red => 200,
            Tolerance::Orange => 300,
            Tolerance::Yellow => 400,
            Tolerance::Green => 50,
            Tolerance::Blue => 25,
            Tolerance::Violet => 10,
            Tolerance::Grey => 5,
            Tolerance::Gold => 500,
            Tolerance::Silver => 1000,
            Tolerance::Default => 2000,
        }
    }

    /// The tolerance percentage in hundredths of a percent (100 is 1%).
    pub fn basis_points(self) -> (p: u32)
        ensures
            p == self.spec_basis_points(),
    {
        match self {
            Tolerance::Brown => 100,
            Tolerance::Red => 200,
            Tolerance::Orange => 300,
            Tolerance::Yellow => 400,
            Tolerance::Green => 50,
            Tolerance::Blue => 25,
            Tolerance::Violet => 10,
            Tolerance::Grey => 5,
            Tolerance::Gold => 500,
            Tolerance::Silver => 1000,
            Tolerance::Default => 2000,
        }
    }
}

impl FromBand for Tolerance {
    open spec fn spec_from_band(b: Band) -> Option<Tolerance> {
        match b {
            Band::Black => None,
            Band::Brown => Some(Tolerance::Brown),
            Band::Red => Some(Tolerance::Red),
            Band::Orange => Some(Tolerance::Orange),
            Band::Yellow => Some(Tolerance::Yellow),
            Band::Green => Some(Tolerance::Green),
            Band::Blue => Some(Tolerance::Blue),
            Band::Violet => Some(Tolerance::Violet),
            Band::Grey => Some(Tolerance::Grey),
            Band::White => None,
            Band::Gold => Some(Tolerance::Gold),
            Band::Silver => Some(Tolerance::Silver),
        }
    }

    open spec fn spec_role() -> Role {
        Role::Tolerance
    }

    fn from_band(b: &Band) -> (r: Result<Self, BandError>) {
        match b {
            Band::Brown => Ok(Tolerance::Brown),
            Band::Red => Ok(Tolerance::Red),
            Band::Orange => Ok(Tolerance::Orange),
            Band::Yellow => Ok(Tolerance::Yellow),
            Band::Green => Ok(Tolerance::Green),
            Band::Blue => Ok(Tolerance::Blue),
            Band::Violet => Ok(Tolerance::Violet),
            Band::Grey => Ok(Tolerance::Grey),
            Band::Gold => Ok(Tolerance::Gold),
            Band::Silver => Ok(Tolerance::Silver),
            _ => Err(BandError::UnsupportedBand(Role::Tolerance, *b)),
        }
    }
}

/// A temperature-coefficient rating: Black through Grey only. The ppm/K
/// table is a fixed non-monotonic mapping, not an arithmetic progression.
#[derive(Debug, PartialEq, Eq, Structural, Clone, Copy)]
pub enum TempCoeff {
    Black,
    Brown,
    Red,
    Orange,
    Yellow,
    Green,
    Blue,
    Violet,
    Grey,
}

impl TempCoeff {
    /// The drift rating in ppm/K each color stands for.
    pub open spec fn spec_ppm(self) -> u8 {
        match self {
            TempCoeff::Black => 250,
            TempCoeff::Brown => 100,
            TempCoeff::Red => 50,
            TempCoeff::Orange => 15,
            TempCoeff::Yellow => 25,
            TempCoeff::Green => 20,
            TempCoeff::Blue => 10,
            TempCoeff::Violet => 5,
            TempCoeff::Grey => 1,
        }
    }

    /// The drift rating in ppm/K.
    pub fn ppm(self) -> (p: u8)
        ensures
            p == self.spec_ppm(),
    {
        match self {
            TempCoeff::Black => 250,
            TempCoeff::Brown => 100,
            TempCoeff::Red => 50,
            TempCoeff::Orange => 15,
            TempCoeff::Yellow => 25,
            TempCoeff::Green => 20,
            TempCoeff::Blue => 10,
            TempCoeff::Violet => 5,
            TempCoeff::Grey => 1,
        }
    }
}

impl FromBand for TempCoeff {
    open spec fn spec_from_band(b: Band) -> Option<TempCoeff> {
        match b {
            Band::Black => Some(TempCoeff::Black),
            Band::Brown => Some(TempCoeff::Brown),
            Band::Red => Some(TempCoeff::Red),
            Band::Orange => Some(TempCoeff::Orange),
            Band::Yellow => Some(TempCoeff::Yellow),
            Band::Green => Some(TempCoeff::Green),
            Band::Blue => Some(TempCoeff::Blue),
            Band::Violet => Some(TempCoeff::Violet),
            Band::Grey => Some(TempCoeff::Grey),
            Band::White => None,
            Band::Gold => None,
            Band::Silver => None,
        }
    }

    open spec fn spec_role() -> Role {
        Role::TempCoeff
    }

    fn from_band(b: &Band) -> (r: Result<Self, BandError>) {
        match b {
            Band::Black => Ok(TempCoeff::Black),
            Band::Brown => Ok(TempCoeff::Brown),
            Band::Red => Ok(TempCoeff::Red),
            Band::Orange => Ok(TempCoeff::Orange),
            Band::Yellow => Ok(TempCoeff::Yellow),
            Band::Green => Ok(TempCoeff::Green),
            Band::Blue => Ok(TempCoeff::Blue),
            Band::Violet => Ok(TempCoeff::Violet),
            Band::Grey => Ok(TempCoeff::Grey),
            _ => Err(BandError::UnsupportedBand(Role::TempCoeff, *b)),
        }
    }
}

/// An ASCII uppercase letter folded to lowercase; any other character is
/// left as it is.
pub open spec fn spec_lower(c: char) -> char {
    match c {
        'A' => 'a',
        'B' => 'b',
        'C' => 'c',
        'D' => 'd',
        'E' => 'e',
        'F' => 'f',
        'G' => 'g',
        'H' => 'h',
        'I' => 'i',
        'J' => 'j',
        'K' => 'k',
        'L' => 'l',
        'M' => 'm',
        'N' => 'n',
        'O' => 'o',
        'P' => 'p',
        'Q' => 'q',
        'R' => 'r',
        'S' => 's',
        'T' => 't',
        'U' => 'u',
        'V' => 'v',
        'W' => 'w',
        'X' => 'x',
        'Y' => 'y',
        'Z' => 'z',
        _ => c,
    }
}

/// A character sequence folded to lowercase, ASCII letter by ASCII letter.
pub open spec fn spec_lower_seq(s: Seq<char>) -> Seq<char> {
    s.map_values(|c: char| spec_lower(c))
}

fn lower(c: char) -> (r: char)
    ensures
        r == spec_lower(c),
{
    match c {
        'A' => 'a',
        'B' => 'b',
        'C' => 'c',
        'D' => 'd',
        'E' => 'e',
        'F' => 'f',
        'G' => 'g',
        'H' => 'h',
        'I' => 'i',
        'J' => 'j',
        'K' => 'k',
        'L' => 'l',
        'M' => 'm',
        'N' => 'n',
        'O' => 'o',
        'P' => 'p',
        'Q' => 'q',
        'R' => 'r',
        'S' => 's',
        'T' => 't',
        'U' => 'u',
        'V' => 'v',
        'W' => 'w',
        'X' => 'x',
        'Y' => 'y',
        'Z' => 'z',
        _ => c,
    }
}

/// Whether `s`, folded to lowercase, reads exactly as `t` (which the callers
/// pass already in lowercase).
fn matches_token(s: &str, t: &str) -> (r: bool)
    ensures
        r == (spec_lower_seq(s@) == t@),
{
    let n = s.unicode_len();
    if n != t.unicode_len() {
        proof {
            assert(spec_lower_seq(s@).len() == s@.len());
        }
        return false;
    }
    let mut i: usize = 0;
    while i < n
        invariant
            i <= n,
            n == s@.len(),
            n == t@.len(),
            forall|k: int| 0 <= k < i ==> spec_lower_seq(s@)[k] == t@[k],
        decreases n - i,
    {
        if lower(s.get_char(i)) != t.get_char(i) {
            proof {
                assert(spec_lower_seq(s@)[i as int] != t@[i as int]);
            }
            return false;
        }
        i = i + 1;
    }
    proof {
        assert(spec_lower_seq(s@) =~= t@);
    }
    true
}

/// The band a token names: the 12 canonical color names matched without
/// regard to case, with "gray" beside "grey", and one-letter abbreviations.
pub open spec fn spec_parse_band(s: Seq<char>) -> Result<Band, BandError> {
    let l = spec_lower_seq(s);
    if l == "k"@ || l == "black"@ {
        Ok(Band::Black)
    } else if l == "n"@ || l == "brown"@ {
        Ok(Band::Brown)
    } else if l == "r"@ || l == "red"@ {
        Ok(Band::Red)
    } else if l == "o"@ || l == "orange"@ {
        Ok(Band::Orange)
    } else if l == "y"@ || l == "yellow"@ {
        Ok(Band::Yellow)
    } else if l == "g"@ || l == "green"@ {
        Ok(Band::Green)
    } else if l == "b"@ || l == "blue"@ {
        Ok(Band::Blue)
    } else if l == "v"@ || l == "violet"@ {
        Ok(Band::Violet)
    } else if l == "a"@ || l == "grey"@ || l == "gray"@ {
        Ok(Band::Grey)
    } else if l == "w"@ || l == "white"@ {
        Ok(Band::White)
    } else if l == "d"@ || l == "gold"@ {
        Ok(Band::Gold)
    } else if l == "s"@ || l == "silver"@ {
        Ok(Band::Silver)
    } else {
        Err(BandError::InvalidCode)
    }
}

impl Band {
    /// Parse a textual token into a band, case-insensitively; unknown tokens
    /// are rejected as [`BandError::InvalidCode`].
    pub fn from_str(s: &str) -> (r: Result<Band, BandError>)
        ensures
            r == spec_parse_band(s@),
    {
        if matches_token(s, "k") || matches_token(s, "black") {
            Ok(Band::Black)
        } else if matches_token(s, "n") || matches_token(s, "brown") {
            Ok(Band::Brown)
        } else if matches_token(s, "r") || matches_token(s, "red") {
            Ok(Band::Red)
        } else if matches_token(s, "o") || matches_token(s, "orange") {
            Ok(Band::Orange)
        } else if matches_token(s, "y") || matches_token(s, "yellow") {
            Ok(Band::Yellow)
        } else if matches_token(s, "g") || matches_token(s, "green") {
            Ok(Band::Green)
        } else if matches_token(s, "b") || matches_token(s, "blue") {
            Ok(Band::Blue)
        } else if matches_token(s, "v") || matches_token(s, "violet") {
            Ok(Band::Violet)
        } else if matches_token(s, "a") || matches_token(s, "grey") || matches_token(s, "gray") {
            Ok(Band::Grey)
        } else if matches_token(s, "w") || matches_token(s, "white") {
            Ok(Band::White)
        } else if matches_token(s, "d") || matches_token(s, "gold") {
            Ok(Band::Gold)
        } else if matches_token(s, "s") || matches_token(s, "silver") {
            Ok(Band::Silver)
        } else {
            Err(BandError::InvalidCode)
        }
    }

    /// The band's one-letter abbreviation, the same letter `from_str`
    /// accepts for it.
    pub open spec fn spec_letter(self) -> char {
        match self {
            Band::Black => 'k',
            Band::Brown => 'n',
            Band::Red => 'r',
            Band::Orange => 'o',
            Band::Yellow => 'y',
            Band::Green => 'g',
            Band::Blue => 'b',
            Band::Violet => 'v',
            Band::Grey => 'a',
            Band::White => 'w',
            Band::Gold => 'd',
            Band::Silver => 's',
        }
    }

    /// The band's one-letter abbreviation as a plain string slice.
    pub fn ascii(&self) -> (r: &'static str)
        ensures
            r@ == seq![self.spec_letter()],
    {
        match self {
            Band::Black => {
                proof {
                    reveal_strlit("k");
                    assert("k"@ =~= seq!['k']);
                }
                "k"
            },
            Band::Brown => {
                proof {
                    reveal_strlit("n");
                    assert("n"@ =~= seq!['n']);
                }
                "n"
            },
            Band::Red => {
                proof {
                    reveal_strlit("r");
                    assert("r"@ =~= seq!['r']);
                }
                "r"
            },
            Band::Orange => {
                proof {
                    reveal_strlit("o");
                    assert("o"@ =~= seq!['o']);
                }
                "o"
            },
            Band::Yellow => {
                proof {
                    reveal_strlit("y");
                    assert("y"@ =~= seq!['y']);
                }
                "y"
            },
            Band::Green => {
                proof {
                    reveal_strlit("g");
                    assert("g"@ =~= seq!['g']);
                }
                "g"
            },
            Band::Blue => {
                proof {
                    reveal_strlit("b");
                    assert("b"@ =~= seq!['b']);
                }
                "b"
            },
            Band::Violet => {
                proof {
                    reveal_strlit("v");
                    assert("v"@ =~= seq!['v']);
                }
                "v"
            },
            Band::Grey => {
                proof {
                    reveal_strlit("a");
                    assert("a"@ =~= seq!['a']);
                }
                "a"
            },
            Band::White => {
                proof {
                    reveal_strlit("w");
                    assert("w"@ =~= seq!['w']);
                }
                "w"
            },
            Band::Gold => {
                proof {
                    reveal_strlit("d");
                    assert("d"@ =~= seq!['d']);
                }
                "d"
            },
            Band::Silver => {
                proof {
                    reveal_strlit("s");
                    assert("s"@ =~= seq!['s']);
                }
                "s"
            },
        }
    }
}

} // verus!
