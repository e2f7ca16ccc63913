//! Verified core of the clepsydra (water clock) monitoring backend.

pub mod alert;
pub mod clock;
pub mod forward;
pub mod ids;
pub mod ingest;
pub mod response;
pub mod settings;
pub mod table;
