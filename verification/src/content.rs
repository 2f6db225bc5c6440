//! Body lines of a box: the rows of text a box shows below its name row.

use vstd::prelude::*;

use crate::symbol::SymbolNode;
use crate::world::Rung;

verus! {

/// One body row: plain text, or dimmed secondary text.
#[derive(Debug, Clone, PartialEq, Eq)]
pub enum BodyLine {
    Plain(String),
    Dim(String),
}

/// The body rows of `node` at `rung`. Boxes no longer render body rows
/// (names, code and doc text are painted directly), so there are none at
/// any rung.
pub fn body_lines(node: &SymbolNode, rung: Rung) -> (r: Vec<BodyLine>)
    ensures
        r@.len() == 0,
{
    Vec::new()
}

} // verus!
