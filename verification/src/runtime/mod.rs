//! Orchestration of one stream: queues, clocks, output workers and admission.
pub mod config;
pub mod deadlines;
pub mod external_pull;
pub mod machinery;
pub mod opus_queue;
pub mod orchestration;
pub mod playout_clock;
pub mod producer;
pub mod progress;
pub mod resources;
pub mod sender;
pub mod time;
pub mod timing;
pub mod worker_events;
