use meteo_types::domain::check_report;
use meteo_types::{EnvironmentalDomain, ProvenanceChain, ProvenanceEntry};

#[test]
fn environmental_domain_display() {
    assert_eq!(EnvironmentalDomain::Weather.to_string(), "Weather");
    assert_eq!(EnvironmentalDomain::AirQuality.to_string(), "AirQuality");
    assert_eq!(EnvironmentalDomain::WaterQuality.to_string(), "WaterQuality");
    assert_eq!(EnvironmentalDomain::Wildfire.to_string(), "Wildfire");
    assert_eq!(EnvironmentalDomain::Soil.to_string(), "Soil");
    assert_eq!(EnvironmentalDomain::Ocean.to_string(), "Ocean");
    assert_eq!(EnvironmentalDomain::Hydrology.to_string(), "Hydrology");
}

#[test]
fn environmental_domain_as_str_matches_to_string() {
    for d in [
        EnvironmentalDomain::Weather,
        EnvironmentalDomain::AirQuality,
        EnvironmentalDomain::WaterQuality,
        EnvironmentalDomain::Wildfire,
        EnvironmentalDomain::Soil,
        EnvironmentalDomain::Ocean,
        EnvironmentalDomain::Hydrology,
    ] {
        assert_eq!(d.as_str(), d.to_string());
    }
}

fn entry(id: &str, ts: u64) -> ProvenanceEntry {
    ProvenanceEntry {
        attester_id: id.to_string(),
        timestamp: ts,
    }
}

#[test]
fn provenance_chain_new_keeps_entries() {
    let chain = ProvenanceChain::new(vec![entry("a", 1), entry("b", 2)]);
    assert_eq!(chain.len(), 2);
    assert!(!chain.is_empty());
    assert_eq!(chain.0[0], entry("a", 1));
    assert_eq!(chain.0[1], entry("b", 2));
}

#[test]
fn provenance_chain_empty() {
    let chain = ProvenanceChain::new(Vec::new());
    assert_eq!(chain.len(), 0);
    assert!(chain.is_empty());
    let d = ProvenanceChain::default();
    assert!(d.is_empty());
    assert_eq!(d, chain);
}

#[test]
fn report_check_accepts_consistent_report() {
    assert_eq!(
        check_report(
            "rpt-001",
            "buoy-42",
            EnvironmentalDomain::Ocean,
            EnvironmentalDomain::Ocean,
            Some(true)
        ),
        Ok(())
    );
    assert_eq!(
        check_report(
            "rpt-002",
            "station-1",
            EnvironmentalDomain::Ocean,
            EnvironmentalDomain::Ocean,
            None
        ),
        Ok(())
    );
}

#[test]
fn report_check_rejects_invalid_quality_score() {
    assert_eq!(
        check_report(
            "rpt-003",
            "station-1",
            EnvironmentalDomain::Weather,
            EnvironmentalDomain::Weather,
            Some(false)
        ),
        Err("quality_score must be finite and in [0, 1]".to_string())
    );
}

#[test]
fn report_check_rejects_empty_ids_first() {
    assert_eq!(
        check_report(
            "",
            "",
            EnvironmentalDomain::Weather,
            EnvironmentalDomain::Soil,
            Some(false)
        ),
        Err("report_id must not be empty".to_string())
    );
    assert_eq!(
        check_report(
            "r",
            "",
            EnvironmentalDomain::Weather,
            EnvironmentalDomain::Soil,
            Some(false)
        ),
        Err("station_id must not be empty".to_string())
    );
}

#[test]
fn report_check_rejects_domain_mismatch() {
    assert_eq!(
        check_report(
            "r",
            "s",
            EnvironmentalDomain::Weather,
            EnvironmentalDomain::Ocean,
            Some(false)
        ),
        Err("environmental report domain does not match payload domain".to_string())
    );
}

#[test]
fn report_check_with_derived_domain_never_mismatches() {
    for d in [
        EnvironmentalDomain::Weather,
        EnvironmentalDomain::AirQuality,
        EnvironmentalDomain::Hydrology,
    ] {
        let r = check_report("", "s", d, d, Some(false));
        assert_eq!(r, Err("report_id must not be empty".to_string()));
        let r = check_report("r", "s", d, d, None);
        assert_eq!(r, Ok(()));
    }
}
