//! Level-of-detail vocabulary of the world view: the rung ladder of
//! container boxes, the draw tiers of leaf pages, and the draw mode that
//! combines them.

use vstd::prelude::*;

verus! {

/// Level-of-detail ladder for container boxes, driven by on-screen height.
#[derive(Debug, Clone, Copy, PartialEq, Eq, Structural)]
pub enum Rung {
    /// Solid fill only: the box is too small for any text.
    Dot,
    /// Pinned name row only.
    Label,
    /// Name and one meta line.
    Card,
    /// Name and a multi-line summary.
    Detail,
    /// Full content.
    Full,
}

/// Draw tier of a leaf page, chosen by on-screen box size.
#[derive(Debug, Clone, Copy, PartialEq, Eq, Structural)]
pub enum LeafDraw {
    Dot,
    Label,
    Minimap,
    Text,
}

/// The draw mode of a visible node: containers use the rung ladder, leaf
/// pages a leaf tier.
#[derive(Debug, Clone, Copy, PartialEq, Eq, Structural)]
pub enum Draw {
    Container(Rung),
    Leaf(LeafDraw),
}

} // verus!
