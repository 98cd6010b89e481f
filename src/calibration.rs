//! The decision taken after each bandwidth tried by the calibration search.
//!
//! The search keeps an interval of bandwidths and the best mean error seen
//! so far. After evaluating the midpoint it first records the midpoint if its
//! error is strictly below the best, and only then compares the error with
//! the (possibly just updated) best to decide which end of the interval
//! moves: an improvement therefore always raises the lower end.
use vstd::prelude::*;
use crate::ieee::{less_than, value_less};

verus! {

/// What the search does after evaluating one bandwidth.
#[derive(Clone, Copy, Debug, PartialEq, Eq, Structural)]
pub struct SearchStep {
    /// The bandwidth just tried becomes the best one.
    pub record_best: bool,
    /// The upper end of the interval drops below the bandwidth just tried;
    /// otherwise the lower end rises above it.
    pub lower_high: bool,
}

/// The best error after a step that saw `error` while the best was `best`.
pub open spec fn best_after(error: u64, best: u64) -> u64 {
    if less_than(error, best) {
        error
    } else {
        best
    }
}

/// Decides one step of the search from the mean error `error` at the
/// bandwidth just tried and the best mean error `best` before it (both
/// binary64 bit patterns).
pub fn search_step(error: u64, best: u64) -> (r: SearchStep)
    ensures
        r.record_best == less_than(error, best),
        r.lower_high == less_than(best_after(error, best), error),
        r.record_best ==> !r.lower_high,
{
    let record_best = value_less(error, best);
    let best_now = if record_best {
        error
    } else {
        best
    };
    let lower_high = value_less(best_now, error);
    SearchStep { record_best, lower_high }
}

} // verus!
