//! Data quality scoring: the error taxonomy, the order in which score components
//! are checked, and the quality bands.
//!
//! Score components are real numbers in [0, 1]; whether one is finite and in range
//! is decided by the caller, which hands the verdict of each component to
//! [`check_components`] or [`validate_components`].

use vstd::prelude::*;

verus! {

/// Errors returned when a data quality score is built from invalid components.
#[derive(Debug, Clone, Copy, PartialEq, Eq, Structural)]
pub enum DataQualityError {
    /// The `overall` score is not finite or not in [0.0, 1.0].
    InvalidOverall,
    /// The `range_score` is not finite or not in [0.0, 1.0].
    InvalidRangeScore,
    /// The `consistency_score` is not finite or not in [0.0, 1.0].
    InvalidConsistencyScore,
}

impl DataQualityError {
    /// The human-readable message of the error.
    pub open spec fn text(self) -> Seq<char> {
        match self {
            DataQualityError::InvalidOverall => "overall must be finite and in [0, 1]"@,
            DataQualityError::InvalidRangeScore => "range_score must be finite and in [0, 1]"@,
            DataQualityError::InvalidConsistencyScore =>
                "consistency_score must be finite and in [0, 1]"@,
        }
    }

    /// The human-readable message of the error, as a static string.
    pub fn message(&self) -> (s: &'static str)
        ensures
            s@ == self.text(),
    {
        match self {
            DataQualityError::InvalidOverall => "overall must be finite and in [0, 1]",
            DataQualityError::InvalidRangeScore => "range_score must be finite and in [0, 1]",
            DataQualityError::InvalidConsistencyScore =>
                "consistency_score must be finite and in [0, 1]",
        }
    }

    /// The human-readable message of the error.
    pub fn to_string(&self) -> (s: String)
        ensures
            s@ == self.text(),
    {
        self.message().to_owned()
    }
}

/// The first component that fails its check, in the order overall, range,
/// consistency; `None` when all three pass.
pub open spec fn first_invalid_component(overall_ok: bool, range_ok: bool, consistency_ok: bool)
    -> Option<DataQualityError>
{
    if !overall_ok {
        Some(DataQualityError::InvalidOverall)
    } else if !range_ok {
        Some(DataQualityError::InvalidRangeScore)
    } else if !consistency_ok {
        Some(DataQualityError::InvalidConsistencyScore)
    } else {
        None
    }
}

/// The component checks run in a fixed order, stated on the inputs: each error is
/// reported exactly when every earlier component passes and its own fails, whatever
/// the later verdicts are; no error exactly when all three pass.
pub proof fn lemma_component_checks_in_order(overall_ok: bool, range_ok: bool, consistency_ok: bool)
    ensures
        first_invalid_component(overall_ok, range_ok, consistency_ok) == Some(DataQualityError::InvalidOverall) <==> !overall_ok,
        first_invalid_component(overall_ok, range_ok, consistency_ok) == Some(DataQualityError::InvalidRangeScore) <==> overall_ok && !range_ok,
        first_invalid_component(overall_ok, range_ok, consistency_ok) == Some(DataQualityError::InvalidConsistencyScore) <==> overall_ok && range_ok
            && !consistency_ok,
        first_invalid_component(overall_ok, range_ok, consistency_ok) is None <==> overall_ok && range_ok && consistency_ok,
{
}

/// Decide whether a quality score may be built from components whose individual
/// verdicts ("finite and in [0, 1]") are given. The first failing component, in the
/// order overall, range, consistency, names the error.
pub fn check_components(overall_ok: bool, range_ok: bool, consistency_ok: bool) -> (r: Result<
    (),
    DataQualityError,
>)
    ensures
        r is Ok <==> overall_ok && range_ok && consistency_ok,
        r == Err::<(), DataQualityError>(DataQualityError::InvalidOverall) <==> !overall_ok,
        r == Err::<(), DataQualityError>(DataQualityError::InvalidRangeScore) <==> overall_ok
            && !range_ok,
        r == Err::<(), DataQualityError>(DataQualityError::InvalidConsistencyScore) <==> overall_ok
            && range_ok && !consistency_ok,
        r == match first_invalid_component(overall_ok, range_ok, consistency_ok) {
            None => Ok::<(), DataQualityError>(()),
            Some(e) => Err(e),
        },
{
    if !overall_ok {
        return Err(DataQualityError::InvalidOverall);
    }
    if !range_ok {
        return Err(DataQualityError::InvalidRangeScore);
    }
    if !consistency_ok {
        return Err(DataQualityError::InvalidConsistencyScore);
    }
    Ok(())
}

/// The same decision as [`check_components`], reported with the error's message.
pub fn validate_components(overall_ok: bool, range_ok: bool, consistency_ok: bool) -> (r: Result<
    (),
    &'static str,
>)
    ensures
        r is Ok <==> first_invalid_component(overall_ok, range_ok, consistency_ok) is None,
        r matches Err(m) ==> m@ == first_invalid_component(
            overall_ok,
            range_ok,
            consistency_ok,
        ).unwrap().text(),
        (r matches Err(m) && m@ == "overall must be finite and in [0, 1]"@) <==> !overall_ok,
        (r matches Err(m) && m@ == "range_score must be finite and in [0, 1]"@) <==> overall_ok
            && !range_ok,
        (r matches Err(m) && m@ == "consistency_score must be finite and in [0, 1]"@)
            <==> overall_ok && range_ok && !consistency_ok,
{
    proof {
        lemma_component_checks_in_order(overall_ok, range_ok, consistency_ok);
        reveal_strlit("overall must be finite and in [0, 1]");
        reveal_strlit("range_score must be finite and in [0, 1]");
        reveal_strlit("consistency_score must be finite and in [0, 1]");
        assert(DataQualityError::InvalidOverall.text().len() != DataQualityError::InvalidRangeScore.text().len());
        assert(DataQualityError::InvalidOverall.text().len() != DataQualityError::InvalidConsistencyScore.text().len());
        assert(DataQualityError::InvalidRangeScore.text().len() != DataQualityError::InvalidConsistencyScore.text().len());
    }
    match check_components(overall_ok, range_ok, consistency_ok) {
        Ok(()) => Ok(()),
        Err(e) => Err(e.message()),
    }
}

/// Quality classification bands for weather data.
///
/// Default thresholds on the overall score: High >= 0.85, Borderline >= 0.70,
/// WarningOnly >= 0.50, Low below.
#[derive(Debug, Clone, Copy, PartialEq, Eq, Structural)]
#[non_exhaustive]
pub enum DataQualityBand {
    /// High quality: data is reliable and reward-eligible.
    High,
    /// Borderline: data is usable but may receive reduced rewards.
    Borderline,
    /// Warning only: data is questionable, flagged for inspection.
    WarningOnly,
    /// Low quality: data is unreliable, may be rejected.
    Low,
}

impl DataQualityBand {
    /// The display name of the band.
    pub open spec fn name(self) -> Seq<char> {
        match self {
            DataQualityBand::High => "High"@,
            DataQualityBand::Borderline => "Borderline"@,
            DataQualityBand::WarningOnly => "WarningOnly"@,
            DataQualityBand::Low => "Low"@,
        }
    }

    /// Position of the band from best (0) to worst (3).
    pub open spec fn rank(self) -> int {
        match self {
            DataQualityBand::High => 0,
            DataQualityBand::Borderline => 1,
            DataQualityBand::WarningOnly => 2,
            DataQualityBand::Low => 3,
        }
    }

    /// The display name of the band, as a static string.
    pub fn as_str(&self) -> (s: &'static str)
        ensures
            s@ == self.name(),
    {
        match self {
            DataQualityBand::High => "High",
            DataQualityBand::Borderline => "Borderline",
            DataQualityBand::WarningOnly => "WarningOnly",
            DataQualityBand::Low => "Low",
        }
    }

    /// The display name of the band.
    pub fn to_string(&self) -> (s: String)
        ensures
            s@ == self.name(),
    {
        self.as_str().to_owned()
    }
}

/// Distinct errors have distinct messages, so the message returned by
/// [`validate_components`] identifies the error that [`check_components`] returns.
pub proof fn lemma_error_text_injective(a: DataQualityError, b: DataQualityError)
    ensures
        a.text() == b.text() ==> a == b,
{
    reveal_strlit("overall must be finite and in [0, 1]");
    reveal_strlit("range_score must be finite and in [0, 1]");
    reveal_strlit("consistency_score must be finite and in [0, 1]");
    if a != b {
        assert(a.text().len() != b.text().len());
    }
}

/// Distinct bands have distinct display names.
pub proof fn lemma_band_name_injective(a: DataQualityBand, b: DataQualityBand)
    ensures
        a.name() == b.name() ==> a == b,
{
    reveal_strlit("High");
    reveal_strlit("Borderline");
    reveal_strlit("WarningOnly");
    reveal_strlit("Low");
    if a != b {
        assert(a.name().len() != b.name().len());
    }
}

} // verus!
