//! The symbol-tree model the rest of the library reads: identities, kinds
//! and the per-node values that colouring, caching and navigation use.

use vstd::prelude::*;

use crate::text::{
    before_char, before_double_colon, chars_of, find_char, find_double_colon,
    lemma_double_colon_from_range, lemma_index_of_from_range, slice_chars, string_from_chars,
};

verus! {

/// What a node of the code map is.
#[derive(Debug, PartialEq, Eq)]
pub enum SymbolKind {
    Folder,
    File,
    /// A fixed-size part of a large text file.
    Chunk,
    /// A parsed item (function, class, impl block, ...) with its label.
    Item { label: String },
}

/// Stable identity of a node: kind, `::`-qualified path, and an ordinal
/// that separates same-named siblings.
#[derive(Debug, PartialEq, Eq)]
pub struct SymbolId {
    pub kind: SymbolKind,
    pub qualified_path: String,
    pub ordinal: u32,
}

/// One node of the symbol tree: identity, display name, source byte range
/// (present for nodes backed by source text), line count and children.
pub struct SymbolNode {
    pub id: SymbolId,
    pub name: String,
    pub byte_range: Option<(usize, usize)>,
    pub measure: u64,
    pub churn_count: u64,
    pub children: Vec<SymbolNode>,
}

/// Kind tag, item label, qualified path and ordinal of an identity.
pub type IdView = (int, Seq<char>, Seq<char>, u32);

/// Numeric tag of a kind (Folder 0, File 1, Chunk 2, Item 3).
pub open spec fn kind_tag(k: SymbolKind) -> int {
    match k {
        SymbolKind::Folder => 0,
        SymbolKind::File => 1,
        SymbolKind::Chunk => 2,
        SymbolKind::Item { .. } => 3,
    }
}

/// The item label of a kind (empty for the other kinds).
pub open spec fn kind_label(k: SymbolKind) -> Seq<char> {
    match k {
        SymbolKind::Item { label } => label@,
        _ => Seq::empty(),
    }
}

impl View for SymbolId {
    type V = IdView;

    open spec fn view(&self) -> IdView {
        (kind_tag(self.kind), kind_label(self.kind), self.qualified_path@, self.ordinal)
    }
}

impl Clone for SymbolKind {
    fn clone(&self) -> (r: Self)
        ensures
            r == *self,
    {
        match self {
            SymbolKind::Folder => SymbolKind::Folder,
            SymbolKind::File => SymbolKind::File,
            SymbolKind::Chunk => SymbolKind::Chunk,
            SymbolKind::Item { label } => SymbolKind::Item { label: label.clone() },
        }
    }
}

impl Clone for SymbolId {
    fn clone(&self) -> (r: Self)
        ensures
            r == *self,
    {
        SymbolId {
            kind: self.kind.clone(),
            qualified_path: self.qualified_path.clone(),
            ordinal: self.ordinal,
        }
    }
}

/// Whether two identities are the same (kind, label, path and ordinal).
pub fn same_id(a: &SymbolId, b: &SymbolId) -> (r: bool)
    ensures
        r == (a@ == b@),
{
    let same_kind = match (&a.kind, &b.kind) {
        (SymbolKind::Folder, SymbolKind::Folder) => true,
        (SymbolKind::File, SymbolKind::File) => true,
        (SymbolKind::Chunk, SymbolKind::Chunk) => true,
        (SymbolKind::Item { label: x }, SymbolKind::Item { label: y }) => *x == *y,
        _ => false,
    };
    same_kind && a.qualified_path == b.qualified_path && a.ordinal == b.ordinal
}

/// The file-path portion of a qualified path: everything before the first
/// `::`, then before the first `#` (chunk suffix).
pub open spec fn file_path_spec(qualified_path: Seq<char>) -> Seq<char> {
    before_char(before_double_colon(qualified_path), '#')
}

/// The file-path portion of a qualified path: everything before the first
/// `::` (the whole path when there is none, as on File nodes), without a
/// `#n` chunk suffix.
pub fn file_path_of(qualified_path: &str) -> (r: String)
    ensures
        r@ == file_path_spec(qualified_path@),
{
    let s = chars_of(qualified_path);
    let colon = find_double_colon(&s);
    proof {
        lemma_double_colon_from_range(s@, 0);
    }
    let head = slice_chars(&s, 0, colon);
    let hash = find_char(&head, '#');
    proof {
        lemma_index_of_from_range(head@, '#', 0);
    }
    string_from_chars(&slice_chars(&head, 0, hash))
}

/// The path of a node's source on disk, relative to the repository root:
/// a folder's own path, and for every other node the file it lives in.
pub open spec fn fs_rel_path_spec(id: IdView) -> Seq<char> {
    if id.0 == 0 {
        id.2
    } else {
        file_path_spec(id.2)
    }
}

/// The path of a node's source on disk, relative to the repository root
/// (see `fs_rel_path_spec`).
pub fn fs_rel_path(id: &SymbolId) -> (r: String)
    ensures
        r@ == fs_rel_path_spec(id@),
{
    match id.kind {
        SymbolKind::Folder => id.qualified_path.clone(),
        _ => file_path_of(id.qualified_path.as_str()),
    }
}

/// A leaf page: has source bytes, no children, and is not a folder.
pub open spec fn is_leaf_spec(node: SymbolNode) -> bool {
    node.byte_range is Some && node.children@.len() == 0 && !(node.id.kind is Folder)
}

/// A leaf page: has source bytes, no children, and is not a folder. Items
/// are code pages; childless files are text pages.
pub fn is_leaf_item(node: &SymbolNode) -> (r: bool)
    ensures
        r == is_leaf_spec(*node),
{
    node.byte_range.is_some() && node.children.len() == 0 && !matches!(node.id.kind, SymbolKind::Folder)
}

} // verus!
