//! Background download jobs for a music server: a FIFO job queue with a single
//! worker and cooperative shutdown, and the step-by-step protocol that imports
//! downloaded files into the play queue and a deduplicated downloads playlist.
pub mod config;
pub mod orchestrator;
pub mod uri;
pub mod worker;
