//! The kinds of registry content that share the caching abstraction.

use vstd::prelude::*;

verus! {

/// Which category of registry content an entry holds: asset definitions or
/// icon images.
#[derive(Debug, Clone, Copy, PartialEq, Eq, Structural)]
pub enum AssetsOrIcons {
    Assets,
    Icons,
}

} // verus!
