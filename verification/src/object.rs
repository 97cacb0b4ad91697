//! The dynamic-object side of the class extension point.

use vstd::prelude::*;

verus! {

/// A dynamic runtime class instance inspected by reflection rather than
/// cast into a fixed host type: the target to name when the static type
/// of a value is not known ahead of time.
///
/// The instance encoding behind it is the open seam of the class
/// extension point; only the introspection tag is fixed here.
#[derive(Debug)]
pub struct Object;

} // verus!
