//! Float-free core of a dynamics processor (compressor / expander / gate):
//! the processing modes, the per-character gain-curve dispatch, the decision
//! of which part of a gain curve applies to a level, the routing of each
//! sample (level measured at once, signal delayed by the lookahead), and the
//! fixed-length ring buffer that serves both as the RMS window of the
//! envelope follower and as the lookahead delay line.
pub mod curve;
pub mod detection;
pub mod ring;
pub mod routing;
