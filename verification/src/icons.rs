//! Keys under which icons are cached.

use vstd::prelude::*;

verus! {

/// An icon by name, at one size.
#[derive(Clone, Debug, PartialEq, Eq, Hash)]
pub struct IconCacheKey {
    pub name: String,
    pub size: u16,
}

} // verus!
