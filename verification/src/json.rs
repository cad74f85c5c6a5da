//! The parsed configuration schema.  All time fields are milliseconds, as in
//! the configuration file; ratios that the file states as fractions (the
//! simulation speed, fault chances, sensor parameters) are held in
//! thousandths so the schema stays in plain integers.
use vstd::prelude::*;

verus! {

/// One fault table entry of the configuration: a firing chance in
/// thousandths and the recovery-time bounds in milliseconds.
pub struct JSONFault {
    pub faultChanceMilli: u64,
    pub faultMessage: String,
    pub faultTimeHighMs: u64,
    pub faultTimeLowMs: u64,
}

/// One machine of the configuration.
pub struct JSONMachine {
    pub id: String,
    pub cost: usize,
    pub throughput: usize,
    pub state: String,
    pub faults: Vec<JSONFault>,
    pub inputIDs: Vec<String>,
    pub inputBehavior: String,
    pub inputSpeedMs: u64,
    pub inputCapacity: usize,
    pub processingBehavior: String,
    pub processingSpeedMs: u64,
    pub outputIDs: Vec<String>,
    pub outputBehavior: String,
    pub outputSpeedMs: u64,
    pub outputCapacity: usize,
    pub sensor: bool,
    pub sensorBaselineMilli: i64,
    pub sensorVarianceMilli: i64,
}

/// One conveyor belt of the configuration.
pub struct JSONConveyor {
    pub id: String,
    pub capacity: usize,
    pub beltSpeedMs: u64,
    pub inputID: Option<String>,
}

/// The factory section of the configuration.
pub struct JSONFactory {
    pub name: String,
    pub description: String,
    pub simSpeedMilli: u64,
    pub pollRateMs: u64,
    pub debounceRateInPolls: i64,
    pub machines: Vec<JSONMachine>,
    pub conveyors: Vec<JSONConveyor>,
}

/// A whole parsed configuration file.
pub struct JSONData {
    pub factory: JSONFactory,
}

} // verus!
