//! The named blockchain networks whose registry content is cached.

use vstd::prelude::*;

verus! {

/// A network whose asset registry this client can serve.
#[derive(Debug, Clone, Copy, PartialEq, Eq, Structural)]
pub enum ElementsNetwork {
    Liquid,
    LiquidTestnet,
    ElementsRegtest,
}

} // verus!
