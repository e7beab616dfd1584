//! Verified core of a single-wire temperature/humidity sensor client:
//! protocol decoding of a self-clocking pulse train, a bounded pulse-capture
//! state machine, debounced edge detection, FIFO event hand-off, retry with
//! exponential backoff, and a freshness filter for remote commands.
//!
//! Hardware access, threads and outbound transports live outside this
//! library; it works on plain values the callers hand in.

pub mod capture;
pub mod clock;
pub mod command;
pub mod debounce;
pub mod decode;
pub mod events;
pub mod levels;
pub mod pulse;
pub mod reading;
pub mod retry;
pub mod worker;
