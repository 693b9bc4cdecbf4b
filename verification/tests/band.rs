use ohm::band::{Band, BandError, Digit, FromBand, Multiplier, Role, TempCoeff, Tolerance};

#[test]
fn parses_full_color_names() {
    assert_eq!(Band::from_str("black"), Ok(Band::Black));
    assert_eq!(Band::from_str("brown"), Ok(Band::Brown));
    assert_eq!(Band::from_str("red"), Ok(Band::Red));
    assert_eq!(Band::from_str("orange"), Ok(Band::Orange));
    assert_eq!(Band::from_str("yellow"), Ok(Band::Yellow));
    assert_eq!(Band::from_str("green"), Ok(Band::Green));
    assert_eq!(Band::from_str("blue"), Ok(Band::Blue));
    assert_eq!(Band::from_str("violet"), Ok(Band::Violet));
    assert_eq!(Band::from_str("grey"), Ok(Band::Grey));
    assert_eq!(Band::from_str("white"), Ok(Band::White));
    assert_eq!(Band::from_str("gold"), Ok(Band::Gold));
    assert_eq!(Band::from_str("silver"), Ok(Band::Silver));
}

#[test]
fn parses_gray_as_grey() {
    assert_eq!(Band::from_str("gray"), Ok(Band::Grey));
    assert_eq!(Band::from_str("grey"), Ok(Band::Grey));
}

#[test]
fn parses_single_letter_abbreviations() {
    assert_eq!(Band::from_str("k"), Ok(Band::Black));
    assert_eq!(Band::from_str("n"), Ok(Band::Brown));
    assert_eq!(Band::from_str("r"), Ok(Band::Red));
    assert_eq!(Band::from_str("o"), Ok(Band::Orange));
    assert_eq!(Band::from_str("y"), Ok(Band::Yellow));
    assert_eq!(Band::from_str("g"), Ok(Band::Green));
    assert_eq!(Band::from_str("b"), Ok(Band::Blue));
    assert_eq!(Band::from_str("v"), Ok(Band::Violet));
    assert_eq!(Band::from_str("a"), Ok(Band::Grey));
    assert_eq!(Band::from_str("w"), Ok(Band::White));
    assert_eq!(Band::from_str("d"), Ok(Band::Gold));
    assert_eq!(Band::from_str("s"), Ok(Band::Silver));
}

#[test]
fn parses_case_insensitively() {
    assert_eq!(Band::from_str("RED"), Ok(Band::Red));
    assert_eq!(Band::from_str("Violet"), Ok(Band::Violet));
    assert_eq!(Band::from_str("GrAy"), Ok(Band::Grey));
    assert_eq!(Band::from_str("K"), Ok(Band::Black));
}

#[test]
fn rejects_unknown_tokens() {
    assert_eq!(Band::from_str("purple"), Err(BandError::InvalidCode));
    assert_eq!(Band::from_str(""), Err(BandError::InvalidCode));
    assert_eq!(Band::from_str("blacks"), Err(BandError::InvalidCode));
    assert_eq!(Band::from_str("x"), Err(BandError::InvalidCode));
}

#[test]
fn digit_table_runs_black_to_white() {
    assert_eq!(Digit::from_band(&Band::Black), Ok(Digit::Black));
    assert_eq!(Digit::from_band(&Band::White), Ok(Digit::White));
    assert_eq!(Digit::Black.value(), 0);
    assert_eq!(Digit::Brown.value(), 1);
    assert_eq!(Digit::Red.value(), 2);
    assert_eq!(Digit::Orange.value(), 3);
    assert_eq!(Digit::Yellow.value(), 4);
    assert_eq!(Digit::Green.value(), 5);
    assert_eq!(Digit::Blue.value(), 6);
    assert_eq!(Digit::Violet.value(), 7);
    assert_eq!(Digit::Grey.value(), 8);
    assert_eq!(Digit::White.value(), 9);
}

#[test]
fn digit_refuses_gold_and_silver() {
    assert_eq!(
        Digit::from_band(&Band::Gold),
        Err(BandError::UnsupportedBand(Role::Digit, Band::Gold))
    );
    assert_eq!(
        Digit::from_band(&Band::Silver),
        Err(BandError::UnsupportedBand(Role::Digit, Band::Silver))
    );
}

#[test]
fn multiplier_accepts_every_band() {
    assert_eq!(Multiplier::from_band(&Band::Black), Ok(Multiplier::Black));
    assert_eq!(Multiplier::from_band(&Band::White), Ok(Multiplier::White));
    assert_eq!(Multiplier::from_band(&Band::Gold), Ok(Multiplier::Gold));
    assert_eq!(Multiplier::from_band(&Band::Silver), Ok(Multiplier::Silver));
    assert_eq!(Multiplier::Black.exponent(), 0);
    assert_eq!(Multiplier::White.exponent(), 9);
    assert_eq!(Multiplier::Gold.exponent(), -1);
    assert_eq!(Multiplier::Silver.exponent(), -2);
}

#[test]
fn tolerance_table_and_refusals() {
    assert_eq!(Tolerance::from_band(&Band::Brown), Ok(Tolerance::Brown));
    assert_eq!(Tolerance::from_band(&Band::Grey), Ok(Tolerance::Grey));
    assert_eq!(Tolerance::from_band(&Band::Gold), Ok(Tolerance::Gold));
    assert_eq!(Tolerance::from_band(&Band::Silver), Ok(Tolerance::Silver));
    assert_eq!(
        Tolerance::from_band(&Band::Black),
        Err(BandError::UnsupportedBand(Role::Tolerance, Band::Black))
    );
    assert_eq!(
        Tolerance::from_band(&Band::White),
        Err(BandError::UnsupportedBand(Role::Tolerance, Band::White))
    );
    // percentages in hundredths of a percent
    assert_eq!(Tolerance::Brown.basis_points(), 100);
    assert_eq!(Tolerance::Red.basis_points(), 200);
    assert_eq!(Tolerance::Orange.basis_points(), 300);
    assert_eq!(Tolerance::Yellow.basis_points(), 400);
    assert_eq!(Tolerance::Green.basis_points(), 50);
    assert_eq!(Tolerance::Blue.basis_points(), 25);
    assert_eq!(Tolerance::Violet.basis_points(), 10);
    assert_eq!(Tolerance::Grey.basis_points(), 5);
    assert_eq!(Tolerance::Gold.basis_points(), 500);
    assert_eq!(Tolerance::Silver.basis_points(), 1000);
    assert_eq!(Tolerance::Default.basis_points(), 2000);
}

#[test]
fn temp_coeff_table_and_refusals() {
    assert_eq!(TempCoeff::from_band(&Band::Black), Ok(TempCoeff::Black));
    assert_eq!(TempCoeff::from_band(&Band::Grey), Ok(TempCoeff::Grey));
    assert_eq!(
        TempCoeff::from_band(&Band::White),
        Err(BandError::UnsupportedBand(Role::TempCoeff, Band::White))
    );
    assert_eq!(
        TempCoeff::from_band(&Band::Gold),
        Err(BandError::UnsupportedBand(Role::TempCoeff, Band::Gold))
    );
    assert_eq!(
        TempCoeff::from_band(&Band::Silver),
        Err(BandError::UnsupportedBand(Role::TempCoeff, Band::Silver))
    );
    // the exact, non-monotonic ppm/K table
    assert_eq!(TempCoeff::Black.ppm(), 250);
    assert_eq!(TempCoeff::Brown.ppm(), 100);
    assert_eq!(TempCoeff::Red.ppm(), 50);
    assert_eq!(TempCoeff::Orange.ppm(), 15);
    assert_eq!(TempCoeff::Yellow.ppm(), 25);
    assert_eq!(TempCoeff::Green.ppm(), 20);
    assert_eq!(TempCoeff::Blue.ppm(), 10);
    assert_eq!(TempCoeff::Violet.ppm(), 5);
    assert_eq!(TempCoeff::Grey.ppm(), 1);
}

#[test]
fn abbreviations_round_trip_through_parser() {
    let bands = [
        Band::Black,
        Band::Brown,
        Band::Red,
        Band::Orange,
        Band::Yellow,
        Band::Green,
        Band::Blue,
        Band::Violet,
        Band::Grey,
        Band::White,
        Band::Gold,
        Band::Silver,
    ];
    for band in bands {
        assert_eq!(Band::from_str(band.ascii()), Ok(band));
    }
}
