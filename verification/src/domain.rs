//! Environmental domains, provenance chains, and the consistency rules of an
//! environmental report.
//!
//! A report's payload and location carry real-valued measurements; the report
//! checks here read what the rules need of them: the domain of the payload and
//! whether the optional quality score is finite and in [0, 1].

use vstd::prelude::*;

verus! {

/// Environmental observation domain.
#[derive(Debug, Clone, Copy, PartialEq, Eq, Hash, Structural)]
#[non_exhaustive]
pub enum EnvironmentalDomain {
    Weather,
    AirQuality,
    WaterQuality,
    Wildfire,
    Soil,
    Ocean,
    Hydrology,
}

impl EnvironmentalDomain {
    /// The display name of the domain.
    pub open spec fn name(self) -> Seq<char> {
        match self {
            EnvironmentalDomain::Weather => "Weather"@,
            EnvironmentalDomain::AirQuality => "AirQuality"@,
            EnvironmentalDomain::WaterQuality => "WaterQuality"@,
            EnvironmentalDomain::Wildfire => "Wildfire"@,
            EnvironmentalDomain::Soil => "Soil"@,
            EnvironmentalDomain::Ocean => "Ocean"@,
            EnvironmentalDomain::Hydrology => "Hydrology"@,
        }
    }

    /// The display name of the domain, as a static string.
    pub fn as_str(&self) -> (s: &'static str)
        ensures
            s@ == self.name(),
    {
        match self {
            EnvironmentalDomain::Weather => "Weather",
            EnvironmentalDomain::AirQuality => "AirQuality",
            EnvironmentalDomain::WaterQuality => "WaterQuality",
            EnvironmentalDomain::Wildfire => "Wildfire",
            EnvironmentalDomain::Soil => "Soil",
            EnvironmentalDomain::Ocean => "Ocean",
            EnvironmentalDomain::Hydrology => "Hydrology",
        }
    }

    /// The display name of the domain.
    pub fn to_string(&self) -> (s: String)
        ensures
            s@ == self.name(),
    {
        self.as_str().to_owned()
    }
}

/// A single provenance attestation step.
#[derive(Debug, Clone, PartialEq, Eq)]
pub struct ProvenanceEntry {
    pub attester_id: String,
    pub timestamp: u64,
}

/// Lightweight provenance chain: ordered list of attestation entries.
#[derive(Debug, Clone, PartialEq, Eq)]
pub struct ProvenanceChain(pub Vec<ProvenanceEntry>);

impl View for ProvenanceChain {
    type V = Seq<ProvenanceEntry>;

    /// The entries of the chain, in order.
    open spec fn view(&self) -> Seq<ProvenanceEntry> {
        self.0@
    }
}

impl ProvenanceChain {
    /// A chain made of the given entries, in the given order.
    pub fn new(entries: Vec<ProvenanceEntry>) -> (chain: Self)
        ensures
            chain@ == entries@,
    {
        ProvenanceChain(entries)
    }

    /// Returns `true` if the chain contains no attestation entries.
    pub fn is_empty(&self) -> (b: bool)
        ensures
            b == (self@.len() == 0),
    {
        self.0.len() == 0
    }

    /// Returns the number of attestation entries in the chain.
    pub fn len(&self) -> (n: usize)
        ensures
            n == self@.len(),
    {
        self.0.len()
    }
}

impl Default for ProvenanceChain {
    /// The chain with no entries.
    fn default() -> (chain: Self)
        ensures
            chain@ == Seq::<ProvenanceEntry>::empty(),
    {
        ProvenanceChain(Vec::new())
    }
}

/// The message of a report with an empty identifier.
pub open spec fn empty_report_id_text() -> Seq<char> {
    "report_id must not be empty"@
}

/// The message of a report with an empty station identifier.
pub open spec fn empty_station_id_text() -> Seq<char> {
    "station_id must not be empty"@
}

/// The message of a report whose domain differs from its payload's.
pub open spec fn domain_mismatch_text() -> Seq<char> {
    "environmental report domain does not match payload domain"@
}

/// The message of a report whose quality score is not finite or not in [0, 1].
pub open spec fn invalid_quality_score_text() -> Seq<char> {
    "quality_score must be finite and in [0, 1]"@
}

/// The first rule that a report breaks, as its message, in the order: non-empty
/// report identifier, non-empty station identifier, domain equal to the payload's
/// domain, quality score (when present) finite and in [0, 1]. `None` when the report
/// breaks none. `quality_score_ok` is `None` when the report has no quality score.
pub open spec fn report_problem(
    report_id: Seq<char>,
    station_id: Seq<char>,
    domain: EnvironmentalDomain,
    payload_domain: EnvironmentalDomain,
    quality_score_ok: Option<bool>,
) -> Option<Seq<char>> {
    if report_id.len() == 0 {
        Some(empty_report_id_text())
    } else if station_id.len() == 0 {
        Some(empty_station_id_text())
    } else if domain != payload_domain {
        Some(domain_mismatch_text())
    } else if quality_score_ok == Some(false) {
        Some(invalid_quality_score_text())
    } else {
        None
    }
}

/// Validate the consistency and field ranges of an environmental report.
///
/// `payload_domain` is the domain of the report's payload; `quality_score_ok` is
/// `None` when the report carries no quality score, and otherwise says whether the
/// score is finite and in [0, 1].
pub fn check_report(
    report_id: &str,
    station_id: &str,
    domain: EnvironmentalDomain,
    payload_domain: EnvironmentalDomain,
    quality_score_ok: Option<bool>,
) -> (r: Result<(), String>)
    ensures
        r is Ok <==> report_id@.len() > 0 && station_id@.len() > 0 && domain == payload_domain
            && quality_score_ok != Some(false),
        r is Ok <==> report_problem(
            report_id@,
            station_id@,
            domain,
            payload_domain,
            quality_score_ok,
        ) is None,
        r matches Err(m) ==> report_problem(
            report_id@,
            station_id@,
            domain,
            payload_domain,
            quality_score_ok,
        ) == Some(m@),
        report_id@.len() == 0 ==> (r matches Err(m) && m@ == "report_id must not be empty"@),
        (r matches Err(m) && m@ == "station_id must not be empty"@) <==> report_id@.len() > 0
            && station_id@.len() == 0,
        (r matches Err(m) && m@ == "environmental report domain does not match payload domain"@)
            <==> report_id@.len() > 0 && station_id@.len() > 0 && domain != payload_domain,
        (r matches Err(m) && m@ == "quality_score must be finite and in [0, 1]"@) <==> report_id@.len()
            > 0 && station_id@.len() > 0 && domain == payload_domain && quality_score_ok == Some(
            false,
        ),
{
    proof {
        lemma_report_rules_in_order(
            report_id@,
            station_id@,
            domain,
            payload_domain,
            quality_score_ok,
        );
    }
    if report_id.is_empty() {
        return Err("report_id must not be empty".to_owned());
    }
    if station_id.is_empty() {
        return Err("station_id must not be empty".to_owned());
    }
    if domain != payload_domain {
        return Err("environmental report domain does not match payload domain".to_owned());
    }
    if let Some(ok) = quality_score_ok {
        if !ok {
            return Err("quality_score must be finite and in [0, 1]".to_owned());
        }
    }
    Ok(())
}

/// The report rules are applied in a fixed order, stated on the inputs: an empty
/// report identifier is always the reported problem; each later rule is reported
/// exactly when every earlier rule holds and it is broken; no problem is reported
/// exactly when every rule holds.
pub proof fn lemma_report_rules_in_order(
    report_id: Seq<char>,
    station_id: Seq<char>,
    domain: EnvironmentalDomain,
    payload_domain: EnvironmentalDomain,
    quality_score_ok: Option<bool>,
)
    ensures
        report_id.len() == 0 ==> report_problem(
            report_id,
            station_id,
            domain,
            payload_domain,
            quality_score_ok,
        ) == Some("report_id must not be empty"@),
        report_problem(report_id, station_id, domain, payload_domain, quality_score_ok) == Some(
            "station_id must not be empty"@,
        ) <==> report_id.len() > 0 && station_id.len() == 0,
        report_problem(report_id, station_id, domain, payload_domain, quality_score_ok) == Some(
            "environmental report domain does not match payload domain"@,
        ) <==> report_id.len() > 0 && station_id.len() > 0 && domain != payload_domain,
        report_problem(report_id, station_id, domain, payload_domain, quality_score_ok) == Some(
            "quality_score must be finite and in [0, 1]"@,
        ) <==> report_id.len() > 0 && station_id.len() > 0 && domain == payload_domain
            && quality_score_ok == Some(false),
        report_problem(report_id, station_id, domain, payload_domain, quality_score_ok) is None
            <==> report_id.len() > 0 && station_id.len() > 0 && domain == payload_domain
            && quality_score_ok != Some(false),
{
    reveal_strlit("report_id must not be empty");
    reveal_strlit("station_id must not be empty");
    reveal_strlit("environmental report domain does not match payload domain");
    reveal_strlit("quality_score must be finite and in [0, 1]");
    assert(empty_report_id_text().len() != empty_station_id_text().len());
    assert(empty_report_id_text().len() != domain_mismatch_text().len());
    assert(empty_report_id_text().len() != invalid_quality_score_text().len());
    assert(empty_station_id_text().len() != domain_mismatch_text().len());
    assert(empty_station_id_text().len() != invalid_quality_score_text().len());
    assert(invalid_quality_score_text().len() != domain_mismatch_text().len());
}

/// A report whose domain is derived from its own payload never fails the
/// domain/payload consistency rule: whatever else it breaks, it is not reported
/// as a domain mismatch.
pub proof fn lemma_derived_domain_never_mismatches(
    report_id: Seq<char>,
    station_id: Seq<char>,
    payload_domain: EnvironmentalDomain,
    quality_score_ok: Option<bool>,
)
    ensures
        report_problem(report_id, station_id, payload_domain, payload_domain, quality_score_ok)
            != Some(domain_mismatch_text()),
        report_problem(report_id, station_id, payload_domain, payload_domain, quality_score_ok)
            is None <==> report_id.len() > 0 && station_id.len() > 0 && quality_score_ok != Some(
            false,
        ),
{
    reveal_strlit("report_id must not be empty");
    reveal_strlit("station_id must not be empty");
    reveal_strlit("environmental report domain does not match payload domain");
    reveal_strlit("quality_score must be finite and in [0, 1]");
    assert(empty_report_id_text().len() != domain_mismatch_text().len());
    assert(empty_station_id_text().len() != domain_mismatch_text().len());
    assert(invalid_quality_score_text().len() != domain_mismatch_text().len());
}

/// Distinct domains have distinct display names.
pub proof fn lemma_domain_name_injective(a: EnvironmentalDomain, b: EnvironmentalDomain)
    ensures
        a.name() == b.name() ==> a == b,
{
    reveal_strlit("Weather");
    reveal_strlit("AirQuality");
    reveal_strlit("WaterQuality");
    reveal_strlit("Wildfire");
    reveal_strlit("Soil");
    reveal_strlit("Ocean");
    reveal_strlit("Hydrology");
    if a != b && a.name().len() == b.name().len() {
        assert(a.name()[0] != b.name()[0]);
    }
}

} // verus!
