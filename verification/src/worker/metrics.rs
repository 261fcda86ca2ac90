//! Errors of worker metrics.

use vstd::prelude::*;

verus! {

/// The error returned when a metric is added under a key already in use.
#[derive(Debug, Clone, Copy, PartialEq, Eq, Structural)]
pub enum MetricsError {
    KeyAlreadyExists,
}

} // verus!
