//! IoT sensor accuracy: the error taxonomy, the order in which accuracy metrics
//! are checked, the sample count of a comparison, accuracy bands and their
//! mapping onto data quality bands, and the span of an accuracy window.
//!
//! Metric values are real numbers; whether one is finite and in its range is
//! decided by the caller, which hands the verdict of each metric to
//! [`check_metrics`].

use vstd::prelude::*;

use crate::quality::DataQualityBand;

verus! {

/// Errors returned by IoT accuracy metric validation.
#[derive(Debug, Clone, Copy, PartialEq, Eq, Structural)]
#[non_exhaustive]
pub enum IoTAccuracyError {
    /// The MAE value is not finite or is negative.
    InvalidMae,
    /// The RMSE value is not finite or is negative.
    InvalidRmse,
    /// The bias value is not finite.
    InvalidBias,
    /// The correlation value is not finite or not in [-1.0, 1.0].
    InvalidCorrelation,
    /// The accuracy score is not finite or not in [0.0, 1.0].
    InvalidAccuracyScore,
    /// The sample count is zero.
    ZeroSampleCount,
}

impl IoTAccuracyError {
    /// The human-readable message of the error.
    pub open spec fn text(self) -> Seq<char> {
        match self {
            IoTAccuracyError::InvalidMae => "mae must be finite and non-negative"@,
            IoTAccuracyError::InvalidRmse => "rmse must be finite and non-negative"@,
            IoTAccuracyError::InvalidBias => "bias must be finite"@,
            IoTAccuracyError::InvalidCorrelation => "correlation must be finite and in [-1, 1]"@,
            IoTAccuracyError::InvalidAccuracyScore => "accuracy_score must be finite and in [0, 1]"@,
            IoTAccuracyError::ZeroSampleCount => "sample count must be greater than zero"@,
        }
    }

    /// The human-readable message of the error, as a static string.
    pub fn message(&self) -> (s: &'static str)
        ensures
            s@ == self.text(),
    {
        match self {
            IoTAccuracyError::InvalidMae => "mae must be finite and non-negative",
            IoTAccuracyError::InvalidRmse => "rmse must be finite and non-negative",
            IoTAccuracyError::InvalidBias => "bias must be finite",
            IoTAccuracyError::InvalidCorrelation => "correlation must be finite and in [-1, 1]",
            IoTAccuracyError::InvalidAccuracyScore => "accuracy_score must be finite and in [0, 1]",
            IoTAccuracyError::ZeroSampleCount => "sample count must be greater than zero",
        }
    }

    /// The human-readable message of the error.
    pub fn to_string(&self) -> (s: String)
        ensures
            s@ == self.text(),
    {
        self.message().to_owned()
    }
}

/// The first metric that fails its check, in the order MAE, RMSE, bias,
/// correlation, accuracy score, sample count; `None` when all pass.
pub open spec fn first_invalid_metric(
    mae_ok: bool,
    rmse_ok: bool,
    bias_ok: bool,
    correlation_ok: bool,
    accuracy_score_ok: bool,
    sample_count: u32,
) -> Option<IoTAccuracyError> {
    if !mae_ok {
        Some(IoTAccuracyError::InvalidMae)
    } else if !rmse_ok {
        Some(IoTAccuracyError::InvalidRmse)
    } else if !bias_ok {
        Some(IoTAccuracyError::InvalidBias)
    } else if !correlation_ok {
        Some(IoTAccuracyError::InvalidCorrelation)
    } else if !accuracy_score_ok {
        Some(IoTAccuracyError::InvalidAccuracyScore)
    } else if sample_count == 0 {
        Some(IoTAccuracyError::ZeroSampleCount)
    } else {
        None
    }
}

/// Decide whether accuracy metrics are valid, given the verdict on each real-valued
/// metric (MAE and RMSE finite and non-negative, bias finite, correlation finite and
/// in [-1, 1], accuracy score finite and in [0, 1]) and the sample count, which must
/// not be zero. The first failing check names the error.
pub fn check_metrics(
    mae_ok: bool,
    rmse_ok: bool,
    bias_ok: bool,
    correlation_ok: bool,
    accuracy_score_ok: bool,
    sample_count: u32,
) -> (r: Result<(), IoTAccuracyError>)
    ensures
        r is Ok <==> mae_ok && rmse_ok && bias_ok && correlation_ok && accuracy_score_ok
            && sample_count != 0,
        r matches Err(e) ==> Some(e) == first_invalid_metric(
            mae_ok,
            rmse_ok,
            bias_ok,
            correlation_ok,
            accuracy_score_ok,
            sample_count,
        ),
        r == Err::<(), IoTAccuracyError>(IoTAccuracyError::InvalidMae) <==> !mae_ok,
        r == Err::<(), IoTAccuracyError>(IoTAccuracyError::InvalidRmse) <==> mae_ok && !rmse_ok,
        r == Err::<(), IoTAccuracyError>(IoTAccuracyError::InvalidBias) <==> mae_ok && rmse_ok && !bias_ok,
        r == Err::<(), IoTAccuracyError>(IoTAccuracyError::InvalidCorrelation) <==> mae_ok && rmse_ok && bias_ok && !correlation_ok,
        r == Err::<(), IoTAccuracyError>(IoTAccuracyError::InvalidAccuracyScore) <==> mae_ok && rmse_ok && bias_ok && correlation_ok
            && !accuracy_score_ok,
        r == Err::<(), IoTAccuracyError>(IoTAccuracyError::ZeroSampleCount) <==> mae_ok && rmse_ok && bias_ok && correlation_ok
            && accuracy_score_ok && sample_count == 0,
{
    if !mae_ok {
        return Err(IoTAccuracyError::InvalidMae);
    }
    if !rmse_ok {
        return Err(IoTAccuracyError::InvalidRmse);
    }
    if !bias_ok {
        return Err(IoTAccuracyError::InvalidBias);
    }
    if !correlation_ok {
        return Err(IoTAccuracyError::InvalidCorrelation);
    }
    if !accuracy_score_ok {
        return Err(IoTAccuracyError::InvalidAccuracyScore);
    }
    if sample_count == 0 {
        return Err(IoTAccuracyError::ZeroSampleCount);
    }
    Ok(())
}

/// The low 32 bits of a pair count: what a `u32` sample count keeps of it.
pub open spec fn recorded_sample_count(pair_count: usize) -> u32 {
    (pair_count as u64 % 0x1_0000_0000) as u32
}

/// The sample count recorded for a comparison of `pair_count` sensor/reference
/// pairs: an empty comparison is refused with `ZeroSampleCount`; otherwise the
/// count is stored as a `u32`, keeping its low 32 bits.
pub fn sample_count_of(pair_count: usize) -> (r: Result<u32, IoTAccuracyError>)
    ensures
        pair_count == 0 ==> r == Err::<u32, IoTAccuracyError>(IoTAccuracyError::ZeroSampleCount),
        pair_count != 0 ==> r == Ok::<u32, IoTAccuracyError>(recorded_sample_count(pair_count)),
        pair_count != 0 ==> (r matches Ok(c) && c as int == pair_count as int % 0x1_0000_0000),
        pair_count != 0 && pair_count as int <= u32::MAX ==> (r matches Ok(c) && c as int
            == pair_count as int),
{
    if pair_count == 0 {
        return Err(IoTAccuracyError::ZeroSampleCount);
    }
    let wide: u64 = pair_count as u64;
    let low: u64 = wide % 0x1_0000_0000;
    Ok(low as u32)
}

/// Classification of sensor accuracy for reward calculation.
///
/// Thresholds on the accuracy score: Excellent >= 0.90, Good >= 0.75,
/// Marginal >= 0.50, Poor below.
#[derive(Debug, Clone, Copy, PartialEq, Eq, Structural)]
#[non_exhaustive]
pub enum SensorAccuracyBand {
    /// Excellent accuracy: full reward eligibility.
    Excellent,
    /// Good accuracy: standard reward eligibility.
    Good,
    /// Marginal accuracy: reduced rewards, flagged for calibration.
    Marginal,
    /// Poor accuracy: no rewards, may trigger slashing.
    Poor,
}

impl SensorAccuracyBand {
    /// The display name of the band.
    pub open spec fn name(self) -> Seq<char> {
        match self {
            SensorAccuracyBand::Excellent => "Excellent"@,
            SensorAccuracyBand::Good => "Good"@,
            SensorAccuracyBand::Marginal => "Marginal"@,
            SensorAccuracyBand::Poor => "Poor"@,
        }
    }

    /// Position of the band from best (0) to worst (3).
    pub open spec fn rank(self) -> int {
        match self {
            SensorAccuracyBand::Excellent => 0,
            SensorAccuracyBand::Good => 1,
            SensorAccuracyBand::Marginal => 2,
            SensorAccuracyBand::Poor => 3,
        }
    }

    /// The data quality band that corresponds to this accuracy band.
    pub open spec fn quality_band_of(self) -> DataQualityBand {
        match self {
            SensorAccuracyBand::Excellent => DataQualityBand::High,
            SensorAccuracyBand::Good => DataQualityBand::Borderline,
            SensorAccuracyBand::Marginal => DataQualityBand::WarningOnly,
            SensorAccuracyBand::Poor => DataQualityBand::Low,
        }
    }

    /// Convert to the corresponding [`DataQualityBand`]: Excellent to High, Good to
    /// Borderline, Marginal to WarningOnly, Poor to Low.
    pub fn to_quality_band(self) -> (q: DataQualityBand)
        ensures
            q == self.quality_band_of(),
    {
        match self {
            SensorAccuracyBand::Excellent => DataQualityBand::High,
            SensorAccuracyBand::Good => DataQualityBand::Borderline,
            SensorAccuracyBand::Marginal => DataQualityBand::WarningOnly,
            SensorAccuracyBand::Poor => DataQualityBand::Low,
        }
    }

    /// The display name of the band, as a static string.
    pub fn as_str(&self) -> (s: &'static str)
        ensures
            s@ == self.name(),
    {
        match self {
            SensorAccuracyBand::Excellent => "Excellent",
            SensorAccuracyBand::Good => "Good",
            SensorAccuracyBand::Marginal => "Marginal",
            SensorAccuracyBand::Poor => "Poor",
        }
    }

    /// The display name of the band.
    pub fn to_string(&self) -> (s: String)
        ensures
            s@ == self.name(),
    {
        self.as_str().to_owned()
    }
}

/// The time span of an accuracy window: Unix timestamps of its earliest and
/// latest sensor/reference pairs.
#[derive(Debug, Clone, Copy, PartialEq, Eq, Structural)]
pub struct WindowSpan {
    /// Unix timestamp of the earliest pair in the window.
    pub window_start: u64,
    /// Unix timestamp of the latest pair in the window.
    pub window_end: u64,
}

impl WindowSpan {
    /// Create a window span.
    pub fn new(window_start: u64, window_end: u64) -> (w: WindowSpan)
        ensures
            w.window_start == window_start,
            w.window_end == window_end,
    {
        WindowSpan { window_start, window_end }
    }

    /// Duration of the window in seconds; zero when the end precedes the start.
    pub fn duration_secs(&self) -> (d: u64)
        ensures
            self.window_start <= self.window_end ==> d == self.window_end - self.window_start,
            self.window_end < self.window_start ==> d == 0,
    {
        self.window_end.saturating_sub(self.window_start)
    }
}

/// The mapping onto data quality bands keeps the order of the bands: a better
/// accuracy band never maps to a worse quality band, and distinct accuracy bands map
/// to distinct quality bands.
pub proof fn lemma_quality_band_keeps_order(a: SensorAccuracyBand, b: SensorAccuracyBand)
    ensures
        a.rank() <= b.rank() <==> a.quality_band_of().rank() <= b.quality_band_of().rank(),
        a.quality_band_of().rank() == a.rank(),
        a.quality_band_of() == b.quality_band_of() ==> a == b,
{
}

/// The metric checks run in a fixed order: each error is reported exactly when every
/// earlier check passes and its own check fails, whatever the later verdicts are;
/// no error is reported exactly when every check passes.
pub proof fn lemma_metric_checks_in_order(
    mae_ok: bool,
    rmse_ok: bool,
    bias_ok: bool,
    correlation_ok: bool,
    accuracy_score_ok: bool,
    sample_count: u32,
)
    ensures
        first_invalid_metric(mae_ok, rmse_ok, bias_ok, correlation_ok, accuracy_score_ok, sample_count) == Some(IoTAccuracyError::InvalidMae) <==> !mae_ok,
        first_invalid_metric(mae_ok, rmse_ok, bias_ok, correlation_ok, accuracy_score_ok, sample_count) == Some(IoTAccuracyError::InvalidRmse) <==> mae_ok && !rmse_ok,
        first_invalid_metric(mae_ok, rmse_ok, bias_ok, correlation_ok, accuracy_score_ok, sample_count) == Some(IoTAccuracyError::InvalidBias) <==> mae_ok && rmse_ok && !bias_ok,
        first_invalid_metric(mae_ok, rmse_ok, bias_ok, correlation_ok, accuracy_score_ok, sample_count) == Some(IoTAccuracyError::InvalidCorrelation) <==> mae_ok && rmse_ok && bias_ok
            && !correlation_ok,
        first_invalid_metric(mae_ok, rmse_ok, bias_ok, correlation_ok, accuracy_score_ok, sample_count) == Some(IoTAccuracyError::InvalidAccuracyScore) <==> mae_ok && rmse_ok && bias_ok
            && correlation_ok && !accuracy_score_ok,
        first_invalid_metric(mae_ok, rmse_ok, bias_ok, correlation_ok, accuracy_score_ok, sample_count) == Some(IoTAccuracyError::ZeroSampleCount) <==> mae_ok && rmse_ok && bias_ok
            && correlation_ok && accuracy_score_ok && sample_count == 0,
        first_invalid_metric(mae_ok, rmse_ok, bias_ok, correlation_ok, accuracy_score_ok, sample_count) is None <==> mae_ok && rmse_ok && bias_ok && correlation_ok && accuracy_score_ok
            && sample_count != 0,
{
}

/// The recorded sample count is the number of pairs modulo 2^32; in particular it is
/// the number of pairs itself whenever that number fits in a `u32`.
pub proof fn lemma_recorded_sample_count_is_pair_count(pair_count: usize)
    ensures
        recorded_sample_count(pair_count) as int == pair_count as int % 0x1_0000_0000,
        pair_count as int <= u32::MAX ==> recorded_sample_count(pair_count) as int
            == pair_count as int,
{
}

/// The sample count recorded for a non-empty comparison passes the metrics'
/// sample-count check, unless the number of pairs is a multiple of 2^32, whose low
/// 32 bits are zero.
pub proof fn lemma_nonempty_comparison_passes_sample_check(
    pair_count: usize,
    mae_ok: bool,
    rmse_ok: bool,
    bias_ok: bool,
    correlation_ok: bool,
    accuracy_score_ok: bool,
)
    requires
        pair_count as u64 % 0x1_0000_0000 != 0,
    ensures
        recorded_sample_count(pair_count) != 0,
        first_invalid_metric(
            mae_ok,
            rmse_ok,
            bias_ok,
            correlation_ok,
            accuracy_score_ok,
            recorded_sample_count(pair_count),
        ) != Some(IoTAccuracyError::ZeroSampleCount),
{
}

/// Distinct errors have distinct messages.
pub proof fn lemma_error_text_injective(a: IoTAccuracyError, b: IoTAccuracyError)
    ensures
        a.text() == b.text() ==> a == b,
{
    reveal_strlit("mae must be finite and non-negative");
    reveal_strlit("rmse must be finite and non-negative");
    reveal_strlit("bias must be finite");
    reveal_strlit("correlation must be finite and in [-1, 1]");
    reveal_strlit("accuracy_score must be finite and in [0, 1]");
    reveal_strlit("sample count must be greater than zero");
    if a != b && a.text().len() == b.text().len() {
        assert(a.text()[0] != b.text()[0]);
    }
}

/// Distinct bands have distinct display names.
pub proof fn lemma_band_name_injective(a: SensorAccuracyBand, b: SensorAccuracyBand)
    ensures
        a.name() == b.name() ==> a == b,
{
    reveal_strlit("Excellent");
    reveal_strlit("Good");
    reveal_strlit("Marginal");
    reveal_strlit("Poor");
    if a != b && a.name().len() == b.name().len() {
        assert(a.name()[0] != b.name()[0]);
    }
}

} // verus!
