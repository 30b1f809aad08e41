pub mod job;
pub mod retry;
pub mod transfer;
