//! Names shared by the whole task set.

use vstd::prelude::*;

verus! {

pub use crate::time::TimeInstant;

/// What the activation log holds once written: the activation count modulo
/// 100 and the instant of the latest activation.
pub type ActivationEntry = (u8, TimeInstant);

} // verus!
