//! Adapter selection.
//!
//! Radios are enumerated once at startup and the chosen adapter lives
//! for the whole process. With no radio nothing can be done; with
//! exactly one it is chosen automatically, without prompting; with
//! several the operator must pick one, and an out-of-range pick is
//! rejected so the caller can prompt again.

use vstd::prelude::*;
use crate::error::BleError;

verus! {

/// The outcome of looking at the enumerated radios.
#[derive(Clone, Copy, PartialEq, Eq, Structural, Debug)]
pub enum AdapterSelection {
    /// The adapter at this index is selected automatically.
    Chosen(usize),
    /// Several adapters exist; the operator must choose one.
    PromptRequired,
}

/// Decides how to select an adapter from the number of radios found:
/// none is fatal, one is chosen automatically, several require the
/// operator's choice.
pub fn select_adapter(adapter_count: usize) -> (r: Result<AdapterSelection, BleError>)
    ensures
        adapter_count == 0 ==> (r matches Err(e) && e is AdapterUnavailable),
        adapter_count == 1 ==> r == Ok::<AdapterSelection, BleError>(AdapterSelection::Chosen(
            0usize,
        )),
        adapter_count > 1 ==> r == Ok::<AdapterSelection, BleError>(
            AdapterSelection::PromptRequired,
        ),
{
    if adapter_count == 0 {
        Err(BleError::AdapterUnavailable)
    } else if adapter_count == 1 {
        Ok(AdapterSelection::Chosen(0))
    } else {
        Ok(AdapterSelection::PromptRequired)
    }
}

/// Whether an operator's numeric pick names one of the enumerated
/// adapters; a pick that does not must be rejected and asked again.
pub fn validate_adapter_index(adapter_count: usize, choice: usize) -> (r: bool)
    ensures
        r == (choice < adapter_count),
{
    choice < adapter_count
}

} // verus!
