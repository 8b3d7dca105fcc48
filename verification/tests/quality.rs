use meteo_types::quality::{check_components, validate_components};
use meteo_types::{DataQualityBand, DataQualityError};

#[test]
fn data_quality_error_display() {
    assert_eq!(
        DataQualityError::InvalidOverall.to_string(),
        "overall must be finite and in [0, 1]"
    );
    assert_eq!(
        DataQualityError::InvalidRangeScore.to_string(),
        "range_score must be finite and in [0, 1]"
    );
    assert_eq!(
        DataQualityError::InvalidConsistencyScore.to_string(),
        "consistency_score must be finite and in [0, 1]"
    );
}

#[test]
fn data_quality_band_display() {
    assert_eq!(DataQualityBand::High.to_string(), "High");
    assert_eq!(DataQualityBand::Borderline.to_string(), "Borderline");
    assert_eq!(DataQualityBand::WarningOnly.to_string(), "WarningOnly");
    assert_eq!(DataQualityBand::Low.to_string(), "Low");
}

#[test]
fn check_components_accepts_valid_components() {
    assert_eq!(check_components(true, true, true), Ok(()));
    assert_eq!(validate_components(true, true, true), Ok(()));
}

#[test]
fn check_components_names_first_invalid_component() {
    assert_eq!(
        check_components(false, true, true),
        Err(DataQualityError::InvalidOverall)
    );
    assert_eq!(
        check_components(true, false, true),
        Err(DataQualityError::InvalidRangeScore)
    );
    assert_eq!(
        check_components(true, true, false),
        Err(DataQualityError::InvalidConsistencyScore)
    );
    assert_eq!(
        check_components(false, false, false),
        Err(DataQualityError::InvalidOverall)
    );
    assert_eq!(
        check_components(true, false, false),
        Err(DataQualityError::InvalidRangeScore)
    );
}

#[test]
fn validate_components_reports_messages() {
    assert_eq!(
        validate_components(false, true, true),
        Err("overall must be finite and in [0, 1]")
    );
    assert_eq!(
        validate_components(true, false, true),
        Err("range_score must be finite and in [0, 1]")
    );
    assert_eq!(
        validate_components(true, true, false),
        Err("consistency_score must be finite and in [0, 1]")
    );
}

#[test]
fn validate_components_agrees_with_check_components() {
    for o in [false, true] {
        for r in [false, true] {
            for c in [false, true] {
                let typed = check_components(o, r, c);
                let text = validate_components(o, r, c);
                match (typed, text) {
                    (Ok(()), Ok(())) => {}
                    (Err(e), Err(m)) => assert_eq!(e.message(), m),
                    _ => panic!("disagreement"),
                }
            }
        }
    }
}
