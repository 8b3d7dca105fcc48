//! Canonical types for meteorological and environmental observation data.

pub mod domain;
pub mod iot_accuracy;
pub mod observation;
pub mod quality;

pub use domain::{EnvironmentalDomain, ProvenanceChain, ProvenanceEntry};
pub use iot_accuracy::{IoTAccuracyError, SensorAccuracyBand, WindowSpan};
pub use quality::{DataQualityBand, DataQualityError};
