//! Level detection: which signal is measured, and how.
use vstd::prelude::*;

verus! {

/// How the envelope follower measures the level of a sample.
#[derive(Clone, Copy, PartialEq, Eq, Structural, Debug)]
pub enum DetectionMode {
    /// The absolute value of each sample.
    Peak,
    /// The root of the mean of the squared samples over a fixed window.
    RMS,
    /// Measured exactly as `RMS`; kept as a distinct setting for callers.
    LogRMS,
}

impl DetectionMode {
    /// Whether this mode averages squared samples over the window (`RMS` and
    /// its alias `LogRMS`) rather than taking the peak.
    pub fn averages_window(&self) -> (r: bool)
        ensures
            r == !(*self is Peak),
    {
        match self {
            DetectionMode::Peak => false,
            DetectionMode::RMS => true,
            DetectionMode::LogRMS => true,
        }
    }
}

/// The signal the level is measured on: the sidechain sample where the
/// external sidechain is enabled and a sidechain sample was supplied, the
/// input sample otherwise.
pub fn detection_source<T: Copy>(input: T, sidechain_input: Option<T>, external: bool) -> (r: T)
    ensures
        external && sidechain_input is Some ==> r == sidechain_input->Some_0,
        !external || sidechain_input is None ==> r == input,
{
    match sidechain_input {
        Some(s) => {
            if external {
                s
            } else {
                input
            }
        },
        None => input,
    }
}

} // verus!
