//! The one failure that the adapter itself can originate.
use vstd::prelude::*;

verus! {

/// Why a call was refused before it reached the firmware.
#[derive(Clone, Copy, Debug, PartialEq, Eq, Structural)]
pub enum ScreenError {
    /// A string argument holds a zero byte, so it has no null-terminated form.
    InvalidArgument,
}

} // verus!
