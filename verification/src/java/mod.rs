pub mod runtime;
pub mod discovery;
pub mod managed;
