pub mod tally;
pub mod worker;
pub mod result;
pub mod job;
pub mod task;
pub mod broker;
