use vstd::prelude::*;

verus! {

/// Whether a daemon executable was provisioned when the crate was built.
pub const HAS_FEATURE: bool = false;

/// The version of the provisioned daemon executable, `"N/A"` when there is none.
pub const VERSION: &'static str = "N/A";

} // verus!
