//! Hardware test harness logic: report comparison, VIN expectations, group
//! selection and report summaries.

pub mod compare;
pub mod report;
pub mod vehicles;
pub mod runner;
