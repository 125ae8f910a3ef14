//! The call protocol around a native technical-analysis engine.
//!
//! The native engine computes indicators (moving averages, oscillators and
//! the like) over series of samples. It is reached through a C interface:
//! it reads input series from index `start` to index `end`, writes its
//! results to the front of output buffers that the caller has sized, and
//! reports a status, the index of the first input sample that has a
//! result, and the number of results. It must be initialized while it
//! computes.
//!
//! This library decides everything around that computation and leaves the
//! computation itself, and the initializing and shutting down, to its
//! caller:
//!
//! - [`operation`] is the table of indicators: name, input series and
//!   output series of each.
//! - [`call`] plans a call from the lengths of the input series, and
//!   concludes it from the native engine's report.
//! - [`lifecycle`] says when the engine is to be initialized and shut down,
//!   by counting the calls in flight.
//! - [`session`] puts the two together: a call from end to end, let in
//!   once and let out once.
//! - [`error`] is what a failed call reports, and [`status`] what the
//!   native engine does.
//! - [`wrapper`] holds names that are kept callable and compute nothing.

pub mod call;
pub mod error;
pub mod lifecycle;
pub mod operation;
pub mod session;
pub mod status;
pub mod wrapper;
