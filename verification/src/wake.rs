//! The wake signal of a driver that never sleeps.

use std::sync::Arc;
use std::task::Wake;
use vstd::prelude::*;

verus! {

/// A wake signal that does nothing.
///
/// The driver resumes the computation again as soon as it has suspended
/// without an item, so there is never a sleeper to wake.
pub(crate) struct NoopWake;

impl Wake for NoopWake {
    fn wake(self: Arc<Self>) {
    }
}

} // verus!
