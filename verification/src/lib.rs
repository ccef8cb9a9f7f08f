pub mod context;
pub mod journey;
pub mod worker;
