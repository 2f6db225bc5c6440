//! Visual design tokens and colour-derivation functions for the treemap
//! renderer. All colours are 24-bit sRGB (`0xRRGGBB`). Blending is exact
//! rational arithmetic on 8-bit channels, rounded half up.

use vstd::prelude::*;
use vstd::string::StringSliceAdditionalSpecFns;

use crate::hash::{extend_bytes, fnv_fold, fnv_update, le4, le_bytes_u32, FNV_OFFSET};
use crate::symbol::{SymbolKind, SymbolNode};
use crate::text::{
    after_last_char, before_double_colon, chars_eq, chars_of, find_double_colon,
    lemma_double_colon_from_range, lemma_last_index_before_range, rfind_char, slice_chars,
};

verus! {

/// Window and panel background colour.
pub const BG: u32 = 0x1a1a1c;
/// Churn-stripe base (neutral, zero activity).
pub const FILL_COLD: u32 = 0x2a2a2e;
/// Churn-stripe top (saturated red, maximum activity).
pub const FILL_HOT: u32 = 0xb03030;
/// Primary label and code text colour.
pub const TEXT_PRIMARY: u32 = 0xd8d8d8;
/// Dimmed text for secondary labels, button glyphs, and hints.
pub const TEXT_SECONDARY: u32 = 0x9a9a9a;
/// Focused-node border accent.
pub const FOCUS_BORDER: u32 = 0x4da6ff;
/// Light blue for doc-description overlays.
pub const DOC_COLOR: u32 = 0x7cb8e4;
/// Depth-shaded box fill at nesting level 0 (outermost, darkest).
pub const DEPTH_FILL_0: u32 = 0x17171B;
/// Depth-shaded box fill at nesting level 8 and deeper (lightest).
pub const DEPTH_FILL_8: u32 = 0x3C3C46;
/// Editor background for boxes that render code.
pub const CODE_BG: u32 = 0x101014;
/// Ring around the four arrow-key neighbour targets (`0xRRGGBBAA`).
pub const NEIGHBOR_BORDER: u32 = 0xffffff80;

/// Semantic tint target for documentation folders.
pub const TINT_DOCS: u32 = 0x3060a0;
/// Semantic tint target for test folders.
pub const TINT_TEST: u32 = 0x306030;
/// Semantic tint target for type definitions.
pub const TINT_TYPEDEF: u32 = 0x206060;
/// Warm shift applied to file containers.
pub const FILE_TINT: u32 = 0x443828;

/// Denominator shared by every percentage blend factor below.
pub const PERCENT: u32 = 100;
/// Blend toward a semantic tint (12%).
pub const TINT_BLEND_PCT: u32 = 12;
/// Blend of the folder ramp toward `FILE_TINT` (25%).
pub const FILE_BLEND_PCT: u32 = 25;
/// File-type tint strength on file containers (35%).
pub const FILE_TYPE_BLEND_PCT: u32 = 35;
/// File-type tint strength on item containers (25%).
pub const ITEM_TYPE_BLEND_PCT: u32 = 25;
/// File-type tint strength on leaf pages (18%).
pub const LEAF_TYPE_BLEND_PCT: u32 = 18;
/// Item containers sit this far from `CODE_BG` toward the file fill (45%).
pub const ITEM_FILL_PCT: u32 = 45;
/// Leaf pages sit this far from `CODE_BG` toward the file fill (15%).
pub const LEAF_FILL_PCT: u32 = 15;
/// Borders are the fill lightened this far toward white (12%).
pub const BORDER_PCT: u32 = 12;

/// IEEE-754 single-precision bit patterns of the renderer's float tokens
/// (tint blend 0.12, file blend 0.25, stripe width 3.0); they take part in
/// the theme fingerprint.
pub const TINT_BLEND_BITS: u32 = 0x3df5c28f;
pub const FILE_BLEND_BITS: u32 = 0x3e800000;
pub const STRIPE_W_BITS: u32 = 0x40400000;

// ----------------------------------------------------------------------
// Channel model
// ----------------------------------------------------------------------

/// Red channel of a packed colour.
pub open spec fn red(c: u32) -> int {
    (c as int / 65536) % 256
}

/// Green channel of a packed colour.
pub open spec fn green(c: u32) -> int {
    (c as int / 256) % 256
}

/// Blue channel of a packed colour.
pub open spec fn blue(c: u32) -> int {
    c as int % 256
}

/// A colour assembled from three 8-bit channels.
pub open spec fn pack(r: int, g: int, b: int) -> int {
    r * 65536 + g * 256 + b
}

/// `a + (b - a) * num / den`, rounded half up.
pub open spec fn lerp_channel_spec(a: int, b: int, num: int, den: int) -> int {
    (2 * (a * den + (b - a) * num) + den) / (2 * den)
}

/// Per-channel blend of two packed colours by `num / den`.
pub open spec fn lerp_rgb_spec(a: u32, b: u32, num: int, den: int) -> int {
    pack(
        lerp_channel_spec(red(a), red(b), num, den),
        lerp_channel_spec(green(a), green(b), num, den),
        lerp_channel_spec(blue(a), blue(b), num, den),
    )
}

/// A blended channel lies between its two endpoints.
pub proof fn lemma_lerp_channel_bounds(a: int, b: int, num: int, den: int)
    requires
        0 <= a <= 255,
        0 <= b <= 255,
        0 <= num <= den,
        0 < den,
    ensures
        a <= b ==> a <= lerp_channel_spec(a, b, num, den) <= b,
        b <= a ==> b <= lerp_channel_spec(a, b, num, den) <= a,
        0 <= lerp_channel_spec(a, b, num, den) <= 255,
{
    let v = 2 * (a * den + (b - a) * num) + den;
    let d2 = 2 * den;
    assert(a <= b ==> a * d2 + d2 / 2 <= v <= b * d2 + d2 / 2) by (nonlinear_arith)
        requires
            0 <= num <= den,
            0 < den,
            d2 == 2 * den,
            v == 2 * (a * den + (b - a) * num) + den,
    ;
    assert(b <= a ==> b * d2 + d2 / 2 <= v <= a * d2 + d2 / 2) by (nonlinear_arith)
        requires
            0 <= num <= den,
            0 < den,
            d2 == 2 * den,
            v == 2 * (a * den + (b - a) * num) + den,
    ;
    lemma_div_between(v, 2 * den, a, b);
}

/// Helper: if `2*lo*d <= v - d' < 2*hi*d + d` then `lo <= v / (2d) <= hi`.
proof fn lemma_div_between(v: int, d2: int, a: int, b: int)
    requires
        d2 > 0,
        d2 % 2 == 0,
        a <= b ==> a * d2 + d2 / 2 <= v <= b * d2 + d2 / 2,
        b <= a ==> b * d2 + d2 / 2 <= v <= a * d2 + d2 / 2,
        0 <= a <= 255,
        0 <= b <= 255,
    ensures
        a <= b ==> a <= v / d2 <= b,
        b <= a ==> b <= v / d2 <= a,
{
    if a <= b {
        assert(a <= v / d2 <= b) by (nonlinear_arith)
            requires
                d2 > 0,
                a * d2 + d2 / 2 <= v <= b * d2 + d2 / 2,
                d2 / 2 < d2,
        ;
    }
    if b <= a {
        assert(b <= v / d2 <= a) by (nonlinear_arith)
            requires
                d2 > 0,
                b * d2 + d2 / 2 <= v <= a * d2 + d2 / 2,
                d2 / 2 < d2,
        ;
    }
}

/// Linear interpolation between two 8-bit channel values by `num / den`,
/// rounded half up.
fn lerp_channel(a: u32, b: u32, num: u32, den: u32) -> (r: u32)
    requires
        a <= 255,
        b <= 255,
        num <= den,
        0 < den <= PERCENT,
    ensures
        r == lerp_channel_spec(a as int, b as int, num as int, den as int),
        r <= 255,
{
    proof {
        lemma_lerp_channel_bounds(a as int, b as int, num as int, den as int);
    }
    let a64 = a as u64;
    let b64 = b as u64;
    let n64 = num as u64;
    let d64 = den as u64;
    assert(a64 * d64 <= 255 * 100) by (nonlinear_arith)
        requires
            a64 <= 255,
            d64 <= 100,
    ;
    if b64 >= a64 {
        assert((b64 - a64) * n64 <= 255 * 100) by (nonlinear_arith)
            requires
                b64 - a64 <= 255,
                n64 <= 100,
        ;
        let v = 2 * (a64 * d64 + (b64 - a64) * n64) + d64;
        (v / (2 * d64)) as u32
    } else {
        assert((a64 - b64) * n64 <= a64 * d64) by (nonlinear_arith)
            requires
                a64 - b64 <= a64,
                n64 <= d64,
        ;
        let v = 2 * (a64 * d64 - (a64 - b64) * n64) + d64;
        assert(v as int == 2 * (a as int * den as int + (b as int - a as int) * num as int)
            + den as int) by (nonlinear_arith)
            requires
                v == 2 * (a64 * d64 - (a64 - b64) * n64) + d64,
                a64 == a,
                b64 == b,
                n64 == num,
                d64 == den,
                a64 > b64,
        ;
        (v / (2 * d64)) as u32
    }
}

/// Channel extraction from a packed colour.
fn channel(c: u32, scale: u32) -> (r: u32)
    requires
        scale == 65536 || scale == 256 || scale == 1,
    ensures
        r == (c as int / scale as int) % 256,
        r <= 255,
{
    (c / scale) % 256
}

/// Three 8-bit channels packed into `0xRRGGBB`.
fn pack_channels(r: u32, g: u32, b: u32) -> (c: u32)
    requires
        r <= 255,
        g <= 255,
        b <= 255,
    ensures
        c == pack(r as int, g as int, b as int),
        c <= 0xffffff,
{
    r * 65536 + g * 256 + b
}

/// The channels of a packed colour are recovered exactly.
pub proof fn lemma_pack_channels(r: int, g: int, b: int)
    requires
        0 <= r <= 255,
        0 <= g <= 255,
        0 <= b <= 255,
    ensures
        0 <= pack(r, g, b) <= 0xffffff,
        red(pack(r, g, b) as u32) == r,
        green(pack(r, g, b) as u32) == g,
        blue(pack(r, g, b) as u32) == b,
{
    let c = pack(r, g, b);
    assert(c / 65536 == r) by (nonlinear_arith)
        requires
            c == r * 65536 + g * 256 + b,
            0 <= g <= 255,
            0 <= b <= 255,
    ;
    assert(c / 256 == r * 256 + g) by (nonlinear_arith)
        requires
            c == r * 65536 + g * 256 + b,
            0 <= b <= 255,
    ;
    assert((r * 256 + g) % 256 == g) by (nonlinear_arith)
        requires
            0 <= g <= 255,
            0 <= r,
    ;
    assert(c % 256 == b) by (nonlinear_arith)
        requires
            c == r * 65536 + g * 256 + b,
            0 <= b <= 255,
            0 <= r,
            0 <= g,
    ;
}

/// The channels of any colour are 8-bit values.
pub proof fn lemma_channel_ranges(c: u32)
    ensures
        0 <= red(c) <= 255,
        0 <= green(c) <= 255,
        0 <= blue(c) <= 255,
{
}

/// Per-channel linear blend between two packed `0xRRGGBB` colours.
fn lerp_rgb(a: u32, b: u32, num: u32, den: u32) -> (r: u32)
    requires
        num <= den,
        0 < den <= PERCENT,
    ensures
        r == lerp_rgb_spec(a, b, num as int, den as int),
        r <= 0xffffff,
{
    let red_c = lerp_channel(channel(a, 65536), channel(b, 65536), num, den);
    let green_c = lerp_channel(channel(a, 256), channel(b, 256), num, den);
    let blue_c = lerp_channel(channel(a, 1), channel(b, 1), num, den);
    pack_channels(red_c, green_c, blue_c)
}

// ----------------------------------------------------------------------
// Fills
// ----------------------------------------------------------------------

/// Depth ramp: level clamped at 8, blended linearly from `DEPTH_FILL_0`.
pub open spec fn depth_fill_spec(level: u8) -> int {
    lerp_rgb_spec(DEPTH_FILL_0, DEPTH_FILL_8, if level <= 8 { level as int } else { 8 }, 8)
}

/// File-container fill: the depth ramp shifted toward `FILE_TINT`.
pub open spec fn file_fill_spec(level: u8) -> int {
    lerp_rgb_spec(depth_fill_spec(level) as u32, FILE_TINT, FILE_BLEND_PCT as int, PERCENT as int)
}

/// Item-container fill: 45% of the way from `CODE_BG` to the file fill.
pub open spec fn item_fill_spec(level: u8) -> int {
    lerp_rgb_spec(CODE_BG, file_fill_spec(level) as u32, ITEM_FILL_PCT as int, PERCENT as int)
}

/// Leaf fill: 15% of the way from `CODE_BG` to the file fill.
pub open spec fn leaf_fill_spec(level: u8) -> int {
    lerp_rgb_spec(CODE_BG, file_fill_spec(level) as u32, LEAF_FILL_PCT as int, PERCENT as int)
}

/// Box background by nesting depth (containment read): a linear ramp from
/// `DEPTH_FILL_0` at level 0 to `DEPTH_FILL_8` at level 8, clamped there.
pub fn depth_fill(level: u8) -> (r: u32)
    ensures
        r == depth_fill_spec(level),
        r <= 0xffffff,
{
    let clamped: u32 = if level <= 8 { level as u32 } else { 8 };
    lerp_rgb(DEPTH_FILL_0, DEPTH_FILL_8, clamped, 8)
}

/// File-container depth fill: the folder ramp shifted warm.
pub fn file_fill(level: u8) -> (r: u32)
    ensures
        r == file_fill_spec(level),
        r <= 0xffffff,
{
    lerp_rgb(depth_fill(level), FILE_TINT, FILE_BLEND_PCT, PERCENT)
}

/// Item-container fill: between `CODE_BG` and `file_fill` (darker than a file).
pub fn item_fill(level: u8) -> (r: u32)
    ensures
        r == item_fill_spec(level),
        r <= 0xffffff,
{
    lerp_rgb(CODE_BG, file_fill(level), ITEM_FILL_PCT, PERCENT)
}

/// Leaf code fill: just above `CODE_BG` (darkest tier).
pub fn leaf_fill(level: u8) -> (r: u32)
    ensures
        r == leaf_fill_spec(level),
        r <= 0xffffff,
{
    lerp_rgb(CODE_BG, file_fill(level), LEAF_FILL_PCT, PERCENT)
}

/// Border: the fill lightened 12% toward white.
pub open spec fn border_spec(fill: u32) -> int {
    lerp_rgb_spec(fill, 0xffffff, BORDER_PCT as int, PERCENT as int)
}

/// Border: the fill lightened 12% toward white.
pub fn border_for(fill: u32) -> (r: u32)
    ensures
        r == border_spec(fill),
        r <= 0xffffff,
{
    lerp_rgb(fill, 0xffffff, BORDER_PCT, PERCENT)
}


/// Whether a box is a leaf page, a file/item container, or a folder.
#[derive(Clone, Copy, PartialEq, Eq, Debug, Structural)]
pub enum BoxKind {
    /// A leaf symbol page that renders source code lines.
    Leaf,
    /// A file container; uses the warm depth ramp.
    File,
    /// An item container (class, module, impl block); darker than File.
    Item,
    /// A folder container; uses the cool depth ramp.
    Folder,
}

/// Semantic category for box background tinting.
#[derive(Clone, Copy, PartialEq, Eq, Debug, Structural)]
pub enum BoxTint {
    /// No tint; use the base depth/kind fill unchanged.
    Normal,
    /// Type-definition items (struct, enum, trait, interface, type alias).
    TypeDef,
    /// Folder whose contents are predominantly documentation files.
    DocsFolder,
    /// Folder whose contents are predominantly test files.
    TestFolder,
    /// File-type tint derived from the source extension.
    FileType(u32),
}

/// Tint colour of a file extension.
pub open spec fn extension_tint_spec(ext: Seq<char>) -> u32 {
    if ext == "rs"@ {
        0xc06030
    } else if ext == "js"@ || ext == "mjs"@ || ext == "cjs"@ {
        0xc0b030
    } else if ext == "jsx"@ {
        0xd0a030
    } else if ext == "ts"@ || ext == "mts"@ || ext == "cts"@ {
        0x3080d0
    } else if ext == "tsx"@ {
        0x4070c0
    } else if ext == "py"@ {
        0x30a060
    } else if ext == "rb"@ {
        0xc03040
    } else if ext == "go"@ {
        0x30b0b0
    } else if ext == "java"@ {
        0xb04030
    } else if ext == "kt"@ || ext == "kts"@ {
        0xa050c0
    } else if ext == "swift"@ {
        0xe06030
    } else if ext == "c"@ || ext == "h"@ {
        0x5070a0
    } else if ext == "cpp"@ || ext == "cc"@ || ext == "cxx"@ || ext == "hpp"@ || ext == "hxx"@ || ext == "hh"@ {
        0x5060c0
    } else if ext == "cs"@ {
        0x7050b0
    } else if ext == "html"@ || ext == "htm"@ {
        0xd05030
    } else if ext == "css"@ {
        0xc040a0
    } else if ext == "scss"@ || ext == "sass"@ || ext == "less"@ {
        0xb050a0
    } else if ext == "vue"@ {
        0x40b070
    } else if ext == "svelte"@ {
        0xd04020
    } else if ext == "json"@ {
        0x908040
    } else if ext == "yaml"@ || ext == "yml"@ {
        0x906050
    } else if ext == "toml"@ {
        0x807060
    } else if ext == "xml"@ {
        0x808060
    } else if ext == "md"@ || ext == "markdown"@ {
        0x4080c0
    } else if ext == "txt"@ || ext == "rst"@ {
        0x808080
    } else if ext == "sh"@ || ext == "bash"@ || ext == "zsh"@ || ext == "fish"@ {
        0x50a040
    } else if ext == "sql"@ {
        0xc08030
    } else if ext == "lua"@ {
        0x3040c0
    } else if ext == "php"@ {
        0x7060b0
    } else if ext == "r"@ {
        0x3060c0
    } else if ext == "ex"@ || ext == "exs"@ {
        0x6040a0
    } else if ext == "zig"@ {
        0xd0a020
    } else if ext == "dart"@ {
        0x40a0c0
    } else if ext == "scala"@ {
        0xc03020
    } else {
        0x606068
    }
}

/// Whether the characters of `ext` spell `lit`.
fn is(ext: &[char], lit: &str) -> (r: bool)
    ensures
        r == (ext@ == lit@),
{
    let l = chars_of(lit);
    chars_eq(ext, &l)
}

fn extension_tint_chars(ext: &[char]) -> (r: u32)
    ensures
        r == extension_tint_spec(ext@),
{
    if is(ext, "rs") {
        0xc06030
    } else if is(ext, "js") || is(ext, "mjs") || is(ext, "cjs") {
        0xc0b030
    } else if is(ext, "jsx") {
        0xd0a030
    } else if is(ext, "ts") || is(ext, "mts") || is(ext, "cts") {
        0x3080d0
    } else if is(ext, "tsx") {
        0x4070c0
    } else if is(ext, "py") {
        0x30a060
    } else if is(ext, "rb") {
        0xc03040
    } else if is(ext, "go") {
        0x30b0b0
    } else if is(ext, "java") {
        0xb04030
    } else if is(ext, "kt") || is(ext, "kts") {
        0xa050c0
    } else if is(ext, "swift") {
        0xe06030
    } else if is(ext, "c") || is(ext, "h") {
        0x5070a0
    } else if is(ext, "cpp") || is(ext, "cc") || is(ext, "cxx") || is(ext, "hpp") || is(ext, "hxx") || is(ext, "hh") {
        0x5060c0
    } else if is(ext, "cs") {
        0x7050b0
    } else if is(ext, "html") || is(ext, "htm") {
        0xd05030
    } else if is(ext, "css") {
        0xc040a0
    } else if is(ext, "scss") || is(ext, "sass") || is(ext, "less") {
        0xb050a0
    } else if is(ext, "vue") {
        0x40b070
    } else if is(ext, "svelte") {
        0xd04020
    } else if is(ext, "json") {
        0x908040
    } else if is(ext, "yaml") || is(ext, "yml") {
        0x906050
    } else if is(ext, "toml") {
        0x807060
    } else if is(ext, "xml") {
        0x808060
    } else if is(ext, "md") || is(ext, "markdown") {
        0x4080c0
    } else if is(ext, "txt") || is(ext, "rst") {
        0x808080
    } else if is(ext, "sh") || is(ext, "bash") || is(ext, "zsh") || is(ext, "fish") {
        0x50a040
    } else if is(ext, "sql") {
        0xc08030
    } else if is(ext, "lua") {
        0x3040c0
    } else if is(ext, "php") {
        0x7060b0
    } else if is(ext, "r") {
        0x3060c0
    } else if is(ext, "ex") || is(ext, "exs") {
        0x6040a0
    } else if is(ext, "zig") {
        0xd0a020
    } else if is(ext, "dart") {
        0x40a0c0
    } else if is(ext, "scala") {
        0xc03020
    } else {
        0x606068
    }
}

/// Tint colour of a file extension (languages, data and docs formats each
/// get their own hue; anything else a neutral grey).
pub fn extension_tint(ext: &str) -> (r: u32)
    ensures
        r == extension_tint_spec(ext@),
{
    let e = chars_of(ext);
    extension_tint_chars(&e)
}

/// Tint of a path by the extension of its file part (before `::`); paths
/// without a `.` get no tint.
pub open spec fn file_extension_tint_spec(path: Seq<char>) -> BoxTint {
    let file = before_double_colon(path);
    let ext = after_last_char(file, '.');
    if ext == file {
        BoxTint::Normal
    } else {
        BoxTint::FileType(extension_tint_spec(ext))
    }
}

fn file_extension_tint(path: &str) -> (r: BoxTint)
    ensures
        r == file_extension_tint_spec(path@),
{
    let s = chars_of(path);
    let colon = find_double_colon(&s);
    proof {
        lemma_double_colon_from_range(s@, 0);
    }
    let file = slice_chars(&s, 0, colon);
    let start = match rfind_char(&file, '.') {
        Some(i) => i + 1,
        None => 0,
    };
    proof {
        lemma_last_index_before_range(file@, '.', file@.len() as int);
    }
    let ext = slice_chars(&file, start, file.len());
    assert(ext@ == after_last_char(file@, '.'));
    if chars_eq(&ext, &file) {
        BoxTint::Normal
    } else {
        BoxTint::FileType(extension_tint_chars(&ext))
    }
}

/// Map leaf status and symbol kind to a rendering tier.
pub open spec fn node_box_kind_spec(is_leaf: bool, kind: SymbolKind) -> BoxKind {
    if is_leaf {
        BoxKind::Leaf
    } else {
        match kind {
            SymbolKind::Folder => BoxKind::Folder,
            SymbolKind::Item { .. } => BoxKind::Item,
            SymbolKind::File | SymbolKind::Chunk => BoxKind::File,
        }
    }
}

/// Map canonical leaf status and symbol kind to a rendering tier.
pub fn node_box_kind(is_leaf: bool, symbol_kind: &SymbolKind) -> (r: BoxKind)
    ensures
        r == node_box_kind_spec(is_leaf, *symbol_kind),
{
    if is_leaf {
        BoxKind::Leaf
    } else {
        match symbol_kind {
            SymbolKind::Folder => BoxKind::Folder,
            SymbolKind::Item { .. } => BoxKind::Item,
            SymbolKind::File | SymbolKind::Chunk => BoxKind::File,
        }
    }
}

/// Semantic tint of a node: named documentation and test folders, and the
/// file extension for files, chunks and items.
pub open spec fn node_box_tint_spec(node: SymbolNode) -> BoxTint {
    match node.id.kind {
        SymbolKind::Folder => {
            let n = node.name@;
            if n == "docs"@ || n == "doc"@ || n == "documentation"@ {
                BoxTint::DocsFolder
            } else if n == "test"@ || n == "tests"@ || n == "spec"@ || n == "specs"@ || n
                == "__tests__"@ {
                BoxTint::TestFolder
            } else {
                BoxTint::Normal
            }
        },
        SymbolKind::Item { .. } => file_extension_tint_spec(node.id.qualified_path@),
        SymbolKind::File | SymbolKind::Chunk => file_extension_tint_spec(node.name@),
    }
}

/// Law: a folder named docs, doc or documentation gets the docs tint, one
/// named test, tests, spec, specs or __tests__ the test tint, and any other
/// folder (names are case-sensitive) no tint.
pub proof fn lemma_folder_tints(node: SymbolNode)
    ensures
        node.id.kind == SymbolKind::Folder ==> {
            &&& (node.name@ == "docs"@ || node.name@ == "doc"@ || node.name@ == "documentation"@) ==> node_box_tint_spec(node) == BoxTint::DocsFolder
            &&& (node.name@ == "test"@ || node.name@ == "tests"@ || node.name@ == "spec"@ || node.name@ == "specs"@
                || node.name@ == "__tests__"@) ==> node_box_tint_spec(node) == BoxTint::TestFolder
            &&& (node.name@ == "src"@ || node.name@ == "Docs"@) ==> node_box_tint_spec(node) == BoxTint::Normal
        },
{
    reveal_strlit("docs");
    reveal_strlit("doc");
    reveal_strlit("documentation");
    reveal_strlit("test");
    reveal_strlit("tests");
    reveal_strlit("spec");
    reveal_strlit("specs");
    reveal_strlit("__tests__");
    reveal_strlit("src");
    reveal_strlit("Docs");
    assert("docs"@.len() == 4 && "docs"@[0] == 'd' && "docs"@[1] == 'o' && "docs"@[2] == 'c' && "docs"@[3] == 's');
    assert("doc"@.len() == 3 && "doc"@[0] == 'd' && "doc"@[1] == 'o' && "doc"@[2] == 'c');
    assert("documentation"@.len() == 13 && "documentation"@[0] == 'd' && "documentation"@[1] == 'o' && "documentation"@[2] == 'c' && "documentation"@[3] == 'u' && "documentation"@[4] == 'm' && "documentation"@[5] == 'e' && "documentation"@[6] == 'n' && "documentation"@[7] == 't' && "documentation"@[8] == 'a' && "documentation"@[9] == 't' && "documentation"@[10] == 'i' && "documentation"@[11] == 'o' && "documentation"@[12] == 'n');
    assert("test"@.len() == 4 && "test"@[0] == 't' && "test"@[1] == 'e' && "test"@[2] == 's' && "test"@[3] == 't');
    assert("tests"@.len() == 5 && "tests"@[0] == 't' && "tests"@[1] == 'e' && "tests"@[2] == 's' && "tests"@[3] == 't' && "tests"@[4] == 's');
    assert("spec"@.len() == 4 && "spec"@[0] == 's' && "spec"@[1] == 'p' && "spec"@[2] == 'e' && "spec"@[3] == 'c');
    assert("specs"@.len() == 5 && "specs"@[0] == 's' && "specs"@[1] == 'p' && "specs"@[2] == 'e' && "specs"@[3] == 'c' && "specs"@[4] == 's');
    assert("__tests__"@.len() == 9 && "__tests__"@[0] == '_' && "__tests__"@[1] == '_' && "__tests__"@[2] == 't' && "__tests__"@[3] == 'e' && "__tests__"@[4] == 's' && "__tests__"@[5] == 't' && "__tests__"@[6] == 's' && "__tests__"@[7] == '_' && "__tests__"@[8] == '_');
    assert("src"@.len() == 3 && "src"@[0] == 's' && "src"@[1] == 'r' && "src"@[2] == 'c');
    assert("Docs"@.len() == 4 && "Docs"@[0] == 'D' && "Docs"@[1] == 'o' && "Docs"@[2] == 'c' && "Docs"@[3] == 's');
}

/// Derive the semantic tint shared by live and cached rendering.
pub fn node_box_tint(node: &SymbolNode) -> (r: BoxTint)
    ensures
        r == node_box_tint_spec(*node),
{
    match &node.id.kind {
        SymbolKind::Folder => {
            let n = chars_of(node.name.as_str());
            if is(&n, "docs") || is(&n, "doc") || is(&n, "documentation") {
                BoxTint::DocsFolder
            } else if is(&n, "test") || is(&n, "tests") || is(&n, "spec") || is(&n, "specs") || is(
                &n,
                "__tests__",
            ) {
                BoxTint::TestFolder
            } else {
                BoxTint::Normal
            }
        },
        SymbolKind::Item { .. } => file_extension_tint(node.id.qualified_path.as_str()),
        SymbolKind::File | SymbolKind::Chunk => file_extension_tint(node.name.as_str()),
    }
}

/// Base fill of a box kind before tinting.
pub open spec fn base_fill_spec(kind: BoxKind, level: u8) -> int {
    match kind {
        BoxKind::Leaf => CODE_BG as int,
        BoxKind::Item => item_fill_spec(level),
        BoxKind::File => file_fill_spec(level),
        BoxKind::Folder => depth_fill_spec(level),
    }
}

/// File-type tint strength per box kind.
pub open spec fn file_type_blend(kind: BoxKind) -> int {
    match kind {
        BoxKind::File => FILE_TYPE_BLEND_PCT as int,
        BoxKind::Item => ITEM_TYPE_BLEND_PCT as int,
        BoxKind::Leaf => LEAF_TYPE_BLEND_PCT as int,
        BoxKind::Folder => FILE_TYPE_BLEND_PCT as int,
    }
}

/// Box background: the kind's base fill, blended toward the tint target.
pub open spec fn box_fill_spec(kind: BoxKind, level: u8, tint: BoxTint) -> int {
    let base = base_fill_spec(kind, level) as u32;
    match tint {
        BoxTint::Normal => base as int,
        BoxTint::TypeDef => lerp_rgb_spec(base, TINT_TYPEDEF, TINT_BLEND_PCT as int, PERCENT as int),
        BoxTint::DocsFolder => lerp_rgb_spec(base, TINT_DOCS, TINT_BLEND_PCT as int, PERCENT as int),
        BoxTint::TestFolder => lerp_rgb_spec(base, TINT_TEST, TINT_BLEND_PCT as int, PERCENT as int),
        BoxTint::FileType(color) => lerp_rgb_spec(base, color, file_type_blend(kind), PERCENT as int),
    }
}

/// Box background: three tiers of brightness for file-type colouring.
/// File containers are brightest, item containers (classes) are darker,
/// leaf code pages are darkest. Folder containers use the cool depth ramp.
pub fn box_fill(kind: BoxKind, level: u8, tint: BoxTint) -> (r: u32)
    ensures
        r == box_fill_spec(kind, level, tint),
        r <= 0xffffff,
        kind == BoxKind::Leaf && tint == BoxTint::Normal ==> r == CODE_BG,
        kind == BoxKind::Folder && tint == BoxTint::Normal ==> r == depth_fill_spec(level),
        kind == BoxKind::File && tint == BoxTint::Normal ==> r == file_fill_spec(level),
        kind == BoxKind::Item && tint == BoxTint::Normal ==> r == item_fill_spec(level),
{
    let base = match kind {
        BoxKind::Leaf => CODE_BG,
        BoxKind::Item => item_fill(level),
        BoxKind::File => file_fill(level),
        BoxKind::Folder => depth_fill(level),
    };
    match tint {
        BoxTint::Normal => base,
        BoxTint::TypeDef => lerp_rgb(base, TINT_TYPEDEF, TINT_BLEND_PCT, PERCENT),
        BoxTint::DocsFolder => lerp_rgb(base, TINT_DOCS, TINT_BLEND_PCT, PERCENT),
        BoxTint::TestFolder => lerp_rgb(base, TINT_TEST, TINT_BLEND_PCT, PERCENT),
        BoxTint::FileType(color) => {
            let blend = match kind {
                BoxKind::File => FILE_TYPE_BLEND_PCT,
                BoxKind::Item => ITEM_TYPE_BLEND_PCT,
                BoxKind::Leaf => LEAF_TYPE_BLEND_PCT,
                BoxKind::Folder => FILE_TYPE_BLEND_PCT,
            };
            lerp_rgb(base, color, blend, PERCENT)
        },
    }
}


/// Syntax-highlight categories of a code run.
#[derive(Clone, Copy, PartialEq, Eq, Debug, Structural)]
pub enum HighlightKind {
    Keyword,
    Function,
    Type,
    String,
    Comment,
    Number,
    Property,
    Default,
}

pub const SYNTAX_KEYWORD: u32 = 0xc586c0;
pub const SYNTAX_FUNCTION: u32 = 0xdcdcaa;
pub const SYNTAX_TYPE: u32 = 0x4ec9b0;
pub const SYNTAX_STRING: u32 = 0xce9178;
pub const SYNTAX_COMMENT: u32 = 0x6a9955;
pub const SYNTAX_NUMBER: u32 = 0xb5cea8;
pub const SYNTAX_PROPERTY: u32 = 0x9cdcfe;

/// Colour of a highlight category.
pub open spec fn syntax_color_spec(kind: HighlightKind) -> u32 {
    match kind {
        HighlightKind::Keyword => SYNTAX_KEYWORD,
        HighlightKind::Function => SYNTAX_FUNCTION,
        HighlightKind::Type => SYNTAX_TYPE,
        HighlightKind::String => SYNTAX_STRING,
        HighlightKind::Comment => SYNTAX_COMMENT,
        HighlightKind::Number => SYNTAX_NUMBER,
        HighlightKind::Property => SYNTAX_PROPERTY,
        HighlightKind::Default => TEXT_PRIMARY,
    }
}

/// Syntax palette for full-detail code, legible on `BG`; the default
/// category falls back to `TEXT_PRIMARY`.
pub fn syntax_color(kind: HighlightKind) -> (r: u32)
    ensures
        r == syntax_color_spec(kind),
{
    match kind {
        HighlightKind::Keyword => SYNTAX_KEYWORD,
        HighlightKind::Function => SYNTAX_FUNCTION,
        HighlightKind::Type => SYNTAX_TYPE,
        HighlightKind::String => SYNTAX_STRING,
        HighlightKind::Comment => SYNTAX_COMMENT,
        HighlightKind::Number => SYNTAX_NUMBER,
        HighlightKind::Property => SYNTAX_PROPERTY,
        HighlightKind::Default => TEXT_PRIMARY,
    }
}

/// Law: every extension of the tint table gets its own listed colour (none
/// of them the grey of unknown extensions); unknown extensions, and the
/// table's names in another case, get that grey.
pub proof fn lemma_extension_tint_table()
    ensures
        extension_tint_spec("rs"@) == 0xc06030,
        extension_tint_spec("js"@) == 0xc0b030,
        extension_tint_spec("mjs"@) == 0xc0b030,
        extension_tint_spec("cjs"@) == 0xc0b030,
        extension_tint_spec("jsx"@) == 0xd0a030,
        extension_tint_spec("ts"@) == 0x3080d0,
        extension_tint_spec("mts"@) == 0x3080d0,
        extension_tint_spec("cts"@) == 0x3080d0,
        extension_tint_spec("tsx"@) == 0x4070c0,
        extension_tint_spec("py"@) == 0x30a060,
        extension_tint_spec("rb"@) == 0xc03040,
        extension_tint_spec("go"@) == 0x30b0b0,
        extension_tint_spec("java"@) == 0xb04030,
        extension_tint_spec("kt"@) == 0xa050c0,
        extension_tint_spec("kts"@) == 0xa050c0,
        extension_tint_spec("swift"@) == 0xe06030,
        extension_tint_spec("c"@) == 0x5070a0,
        extension_tint_spec("h"@) == 0x5070a0,
        extension_tint_spec("cpp"@) == 0x5060c0,
        extension_tint_spec("cc"@) == 0x5060c0,
        extension_tint_spec("cxx"@) == 0x5060c0,
        extension_tint_spec("hpp"@) == 0x5060c0,
        extension_tint_spec("hxx"@) == 0x5060c0,
        extension_tint_spec("hh"@) == 0x5060c0,
        extension_tint_spec("cs"@) == 0x7050b0,
        extension_tint_spec("html"@) == 0xd05030,
        extension_tint_spec("htm"@) == 0xd05030,
        extension_tint_spec("css"@) == 0xc040a0,
        extension_tint_spec("scss"@) == 0xb050a0,
        extension_tint_spec("sass"@) == 0xb050a0,
        extension_tint_spec("less"@) == 0xb050a0,
        extension_tint_spec("vue"@) == 0x40b070,
        extension_tint_spec("svelte"@) == 0xd04020,
        extension_tint_spec("json"@) == 0x908040,
        extension_tint_spec("yaml"@) == 0x906050,
        extension_tint_spec("yml"@) == 0x906050,
        extension_tint_spec("toml"@) == 0x807060,
        extension_tint_spec("xml"@) == 0x808060,
        extension_tint_spec("md"@) == 0x4080c0,
        extension_tint_spec("markdown"@) == 0x4080c0,
        extension_tint_spec("txt"@) == 0x808080,
        extension_tint_spec("rst"@) == 0x808080,
        extension_tint_spec("sh"@) == 0x50a040,
        extension_tint_spec("bash"@) == 0x50a040,
        extension_tint_spec("zsh"@) == 0x50a040,
        extension_tint_spec("fish"@) == 0x50a040,
        extension_tint_spec("sql"@) == 0xc08030,
        extension_tint_spec("lua"@) == 0x3040c0,
        extension_tint_spec("php"@) == 0x7060b0,
        extension_tint_spec("r"@) == 0x3060c0,
        extension_tint_spec("ex"@) == 0x6040a0,
        extension_tint_spec("exs"@) == 0x6040a0,
        extension_tint_spec("zig"@) == 0xd0a020,
        extension_tint_spec("dart"@) == 0x40a0c0,
        extension_tint_spec("scala"@) == 0xc03020,
        extension_tint_spec(Seq::<char>::empty()) == 0x606068,
        extension_tint_spec("RS"@) == 0x606068,
        extension_tint_spec("Go"@) == 0x606068,
        extension_tint_spec("unknown"@) == 0x606068,
{
    reveal_strlit("rs");
    reveal_strlit("js");
    reveal_strlit("mjs");
    reveal_strlit("cjs");
    reveal_strlit("jsx");
    reveal_strlit("ts");
    reveal_strlit("mts");
    reveal_strlit("cts");
    reveal_strlit("tsx");
    reveal_strlit("py");
    reveal_strlit("rb");
    reveal_strlit("go");
    reveal_strlit("java");
    reveal_strlit("kt");
    reveal_strlit("kts");
    reveal_strlit("swift");
    reveal_strlit("c");
    reveal_strlit("h");
    reveal_strlit("cpp");
    reveal_strlit("cc");
    reveal_strlit("cxx");
    reveal_strlit("hpp");
    reveal_strlit("hxx");
    reveal_strlit("hh");
    reveal_strlit("cs");
    reveal_strlit("html");
    reveal_strlit("htm");
    reveal_strlit("css");
    reveal_strlit("scss");
    reveal_strlit("sass");
    reveal_strlit("less");
    reveal_strlit("vue");
    reveal_strlit("svelte");
    reveal_strlit("json");
    reveal_strlit("yaml");
    reveal_strlit("yml");
    reveal_strlit("toml");
    reveal_strlit("xml");
    reveal_strlit("md");
    reveal_strlit("markdown");
    reveal_strlit("txt");
    reveal_strlit("rst");
    reveal_strlit("sh");
    reveal_strlit("bash");
    reveal_strlit("zsh");
    reveal_strlit("fish");
    reveal_strlit("sql");
    reveal_strlit("lua");
    reveal_strlit("php");
    reveal_strlit("r");
    reveal_strlit("ex");
    reveal_strlit("exs");
    reveal_strlit("zig");
    reveal_strlit("dart");
    reveal_strlit("scala");
    reveal_strlit("RS");
    reveal_strlit("Go");
    reveal_strlit("unknown");
    assert("rs"@.len() == 2 && "rs"@[0] == 'r' && "rs"@[1] == 's');
    assert("js"@.len() == 2 && "js"@[0] == 'j' && "js"@[1] == 's');
    assert("mjs"@.len() == 3 && "mjs"@[0] == 'm' && "mjs"@[1] == 'j' && "mjs"@[2] == 's');
    assert("cjs"@.len() == 3 && "cjs"@[0] == 'c' && "cjs"@[1] == 'j' && "cjs"@[2] == 's');
    assert("jsx"@.len() == 3 && "jsx"@[0] == 'j' && "jsx"@[1] == 's' && "jsx"@[2] == 'x');
    assert("ts"@.len() == 2 && "ts"@[0] == 't' && "ts"@[1] == 's');
    assert("mts"@.len() == 3 && "mts"@[0] == 'm' && "mts"@[1] == 't' && "mts"@[2] == 's');
    assert("cts"@.len() == 3 && "cts"@[0] == 'c' && "cts"@[1] == 't' && "cts"@[2] == 's');
    assert("tsx"@.len() == 3 && "tsx"@[0] == 't' && "tsx"@[1] == 's' && "tsx"@[2] == 'x');
    assert("py"@.len() == 2 && "py"@[0] == 'p' && "py"@[1] == 'y');
    assert("rb"@.len() == 2 && "rb"@[0] == 'r' && "rb"@[1] == 'b');
    assert("go"@.len() == 2 && "go"@[0] == 'g' && "go"@[1] == 'o');
    assert("java"@.len() == 4 && "java"@[0] == 'j' && "java"@[1] == 'a' && "java"@[2] == 'v' && "java"@[3] == 'a');
    assert("kt"@.len() == 2 && "kt"@[0] == 'k' && "kt"@[1] == 't');
    assert("kts"@.len() == 3 && "kts"@[0] == 'k' && "kts"@[1] == 't' && "kts"@[2] == 's');
    assert("swift"@.len() == 5 && "swift"@[0] == 's' && "swift"@[1] == 'w' && "swift"@[2] == 'i' && "swift"@[3] == 'f' && "swift"@[4] == 't');
    assert("c"@.len() == 1 && "c"@[0] == 'c');
    assert("h"@.len() == 1 && "h"@[0] == 'h');
    assert("cpp"@.len() == 3 && "cpp"@[0] == 'c' && "cpp"@[1] == 'p' && "cpp"@[2] == 'p');
    assert("cc"@.len() == 2 && "cc"@[0] == 'c' && "cc"@[1] == 'c');
    assert("cxx"@.len() == 3 && "cxx"@[0] == 'c' && "cxx"@[1] == 'x' && "cxx"@[2] == 'x');
    assert("hpp"@.len() == 3 && "hpp"@[0] == 'h' && "hpp"@[1] == 'p' && "hpp"@[2] == 'p');
    assert("hxx"@.len() == 3 && "hxx"@[0] == 'h' && "hxx"@[1] == 'x' && "hxx"@[2] == 'x');
    assert("hh"@.len() == 2 && "hh"@[0] == 'h' && "hh"@[1] == 'h');
    assert("cs"@.len() == 2 && "cs"@[0] == 'c' && "cs"@[1] == 's');
    assert("html"@.len() == 4 && "html"@[0] == 'h' && "html"@[1] == 't' && "html"@[2] == 'm' && "html"@[3] == 'l');
    assert("htm"@.len() == 3 && "htm"@[0] == 'h' && "htm"@[1] == 't' && "htm"@[2] == 'm');
    assert("css"@.len() == 3 && "css"@[0] == 'c' && "css"@[1] == 's' && "css"@[2] == 's');
    assert("scss"@.len() == 4 && "scss"@[0] == 's' && "scss"@[1] == 'c' && "scss"@[2] == 's' && "scss"@[3] == 's');
    assert("sass"@.len() == 4 && "sass"@[0] == 's' && "sass"@[1] == 'a' && "sass"@[2] == 's' && "sass"@[3] == 's');
    assert("less"@.len() == 4 && "less"@[0] == 'l' && "less"@[1] == 'e' && "less"@[2] == 's' && "less"@[3] == 's');
    assert("vue"@.len() == 3 && "vue"@[0] == 'v' && "vue"@[1] == 'u' && "vue"@[2] == 'e');
    assert("svelte"@.len() == 6 && "svelte"@[0] == 's' && "svelte"@[1] == 'v' && "svelte"@[2] == 'e' && "svelte"@[3] == 'l' && "svelte"@[4] == 't' && "svelte"@[5] == 'e');
    assert("json"@.len() == 4 && "json"@[0] == 'j' && "json"@[1] == 's' && "json"@[2] == 'o' && "json"@[3] == 'n');
    assert("yaml"@.len() == 4 && "yaml"@[0] == 'y' && "yaml"@[1] == 'a' && "yaml"@[2] == 'm' && "yaml"@[3] == 'l');
    assert("yml"@.len() == 3 && "yml"@[0] == 'y' && "yml"@[1] == 'm' && "yml"@[2] == 'l');
    assert("toml"@.len() == 4 && "toml"@[0] == 't' && "toml"@[1] == 'o' && "toml"@[2] == 'm' && "toml"@[3] == 'l');
    assert("xml"@.len() == 3 && "xml"@[0] == 'x' && "xml"@[1] == 'm' && "xml"@[2] == 'l');
    assert("md"@.len() == 2 && "md"@[0] == 'm' && "md"@[1] == 'd');
    assert("markdown"@.len() == 8 && "markdown"@[0] == 'm' && "markdown"@[1] == 'a' && "markdown"@[2] == 'r' && "markdown"@[3] == 'k' && "markdown"@[4] == 'd' && "markdown"@[5] == 'o' && "markdown"@[6] == 'w' && "markdown"@[7] == 'n');
    assert("txt"@.len() == 3 && "txt"@[0] == 't' && "txt"@[1] == 'x' && "txt"@[2] == 't');
    assert("rst"@.len() == 3 && "rst"@[0] == 'r' && "rst"@[1] == 's' && "rst"@[2] == 't');
    assert("sh"@.len() == 2 && "sh"@[0] == 's' && "sh"@[1] == 'h');
    assert("bash"@.len() == 4 && "bash"@[0] == 'b' && "bash"@[1] == 'a' && "bash"@[2] == 's' && "bash"@[3] == 'h');
    assert("zsh"@.len() == 3 && "zsh"@[0] == 'z' && "zsh"@[1] == 's' && "zsh"@[2] == 'h');
    assert("fish"@.len() == 4 && "fish"@[0] == 'f' && "fish"@[1] == 'i' && "fish"@[2] == 's' && "fish"@[3] == 'h');
    assert("sql"@.len() == 3 && "sql"@[0] == 's' && "sql"@[1] == 'q' && "sql"@[2] == 'l');
    assert("lua"@.len() == 3 && "lua"@[0] == 'l' && "lua"@[1] == 'u' && "lua"@[2] == 'a');
    assert("php"@.len() == 3 && "php"@[0] == 'p' && "php"@[1] == 'h' && "php"@[2] == 'p');
    assert("r"@.len() == 1 && "r"@[0] == 'r');
    assert("ex"@.len() == 2 && "ex"@[0] == 'e' && "ex"@[1] == 'x');
    assert("exs"@.len() == 3 && "exs"@[0] == 'e' && "exs"@[1] == 'x' && "exs"@[2] == 's');
    assert("zig"@.len() == 3 && "zig"@[0] == 'z' && "zig"@[1] == 'i' && "zig"@[2] == 'g');
    assert("dart"@.len() == 4 && "dart"@[0] == 'd' && "dart"@[1] == 'a' && "dart"@[2] == 'r' && "dart"@[3] == 't');
    assert("scala"@.len() == 5 && "scala"@[0] == 's' && "scala"@[1] == 'c' && "scala"@[2] == 'a' && "scala"@[3] == 'l' && "scala"@[4] == 'a');
    assert("RS"@.len() == 2 && "RS"@[0] == 'R' && "RS"@[1] == 'S');
    assert("Go"@.len() == 2 && "Go"@[0] == 'G' && "Go"@[1] == 'o');
    assert("unknown"@.len() == 7 && "unknown"@[0] == 'u' && "unknown"@[1] == 'n' && "unknown"@[2] == 'k' && "unknown"@[3] == 'n' && "unknown"@[4] == 'o' && "unknown"@[5] == 'w' && "unknown"@[6] == 'n');
}

/// Law: each highlight category has its fixed palette colour, the seven
/// highlighted categories all differ from one another, and unhighlighted
/// text keeps the primary text colour.
pub proof fn lemma_syntax_palette()
    ensures
        syntax_color_spec(HighlightKind::Keyword) == 0xc586c0,
        syntax_color_spec(HighlightKind::Function) == 0xdcdcaa,
        syntax_color_spec(HighlightKind::Type) == 0x4ec9b0,
        syntax_color_spec(HighlightKind::String) == 0xce9178,
        syntax_color_spec(HighlightKind::Comment) == 0x6a9955,
        syntax_color_spec(HighlightKind::Number) == 0xb5cea8,
        syntax_color_spec(HighlightKind::Property) == 0x9cdcfe,
        syntax_color_spec(HighlightKind::Default) == 0xd8d8d8,
        forall|a: HighlightKind, b: HighlightKind|
            a != b && !(a is Default) && !(b is Default) ==> #[trigger] syntax_color_spec(a) != #[trigger] syntax_color_spec(b),
{
}

/// Every colour that texture rendering reads, in fingerprint order.
pub open spec fn theme_colors() -> Seq<u32> {
    seq![
        BG, FILL_COLD, FILL_HOT, TEXT_PRIMARY, TEXT_SECONDARY, FOCUS_BORDER, DOC_COLOR,
        DEPTH_FILL_0, DEPTH_FILL_8, CODE_BG, TINT_DOCS, TINT_TEST, TINT_TYPEDEF, FILE_TINT,
        SYNTAX_KEYWORD, SYNTAX_FUNCTION, SYNTAX_TYPE, SYNTAX_STRING, SYNTAX_COMMENT,
        SYNTAX_NUMBER, SYNTAX_PROPERTY,
    ]
}

/// Little-endian bytes of a sequence of colours, concatenated.
pub open spec fn colors_bytes(cs: Seq<u32>) -> Seq<u8>
    decreases cs.len(),
{
    if cs.len() == 0 {
        Seq::empty()
    } else {
        colors_bytes(cs.drop_last()) + le4(cs.last())
    }
}

/// Every theme input of texture rendering as one byte string: colours,
/// the two font family names, then the float tokens' bit patterns.
pub open spec fn theme_bytes(font_family: Seq<u8>, font_family_sans: Seq<u8>) -> Seq<u8> {
    colors_bytes(theme_colors()) + font_family + font_family_sans + le4(TINT_BLEND_BITS) + le4(
        FILE_BLEND_BITS,
    ) + le4(STRIPE_W_BITS)
}

/// Deterministic identity of every theme input used by texture rendering:
/// FNV-1a over the colours, the platform's monospace and sans font family
/// names, and the renderer's float tokens.
pub fn fingerprint(font_family: &str, font_family_sans: &str) -> (r: u64)
    ensures
        r == fnv_fold(FNV_OFFSET, theme_bytes(font_family.spec_bytes(), font_family_sans.spec_bytes())),
{
    let colors: Vec<u32> = vec![
        BG, FILL_COLD, FILL_HOT, TEXT_PRIMARY, TEXT_SECONDARY, FOCUS_BORDER, DOC_COLOR,
        DEPTH_FILL_0, DEPTH_FILL_8, CODE_BG, TINT_DOCS, TINT_TEST, TINT_TYPEDEF, FILE_TINT,
        SYNTAX_KEYWORD, SYNTAX_FUNCTION, SYNTAX_TYPE, SYNTAX_STRING, SYNTAX_COMMENT,
        SYNTAX_NUMBER, SYNTAX_PROPERTY,
    ];
    assert(colors@ =~= theme_colors());
    let mut bytes: Vec<u8> = Vec::new();
    let mut i: usize = 0;
    while i < colors.len()
        invariant
            i <= colors.len(),
            bytes@ == colors_bytes(colors@.take(i as int)),
        decreases colors.len() - i,
    {
        let mut b = le_bytes_u32(colors[i]);
        bytes.append(&mut b);
        assert(colors@.take(i as int + 1).drop_last() =~= colors@.take(i as int));
        i += 1;
    }
    assert(colors@.take(colors@.len() as int) =~= colors@);
    extend_bytes(&mut bytes, font_family.as_bytes());
    extend_bytes(&mut bytes, font_family_sans.as_bytes());
    let mut tail = le_bytes_u32(TINT_BLEND_BITS);
    bytes.append(&mut tail);
    let mut tail = le_bytes_u32(FILE_BLEND_BITS);
    bytes.append(&mut tail);
    let mut tail = le_bytes_u32(STRIPE_W_BITS);
    bytes.append(&mut tail);
    fnv_update(FNV_OFFSET, &bytes)
}


/// Channel brightening toward white never darkens, and strictly brightens
/// any channel at least 5 below full intensity.
proof fn lemma_border_channel(c: int)
    requires
        0 <= c <= 255,
    ensures
        c <= lerp_channel_spec(c, 255, BORDER_PCT as int, PERCENT as int) <= 255,
        c <= 250 ==> c < lerp_channel_spec(c, 255, BORDER_PCT as int, PERCENT as int),
{
    lemma_lerp_channel_bounds(c, 255, 12, 100);
    let v = 2 * (c * 100 + (255 - c) * 12) + 100;
    if c <= 250 {
        assert(v >= 200 * (c + 1));
        assert(v / 200 >= c + 1) by (nonlinear_arith)
            requires
                v >= 200 * (c + 1),
        ;
    }
}

/// Law: a border is never darker than its fill on any channel, and it
/// differs from the fill whenever some channel of the fill is not already
/// within 5 of white.
pub proof fn lemma_border_is_lighter(fill: u32)
    ensures
        0 <= border_spec(fill) <= 0xffffff,
        red(border_spec(fill) as u32) >= red(fill),
        green(border_spec(fill) as u32) >= green(fill),
        blue(border_spec(fill) as u32) >= blue(fill),
        red(fill) <= 250 || green(fill) <= 250 || blue(fill) <= 250 ==> border_spec(fill)
            != fill as int,
{
    lemma_channel_ranges(fill);
    lemma_channel_ranges(0xffffff);
    assert(red(0xffffff) == 255 && green(0xffffff) == 255 && blue(0xffffff) == 255);
    let r = lerp_channel_spec(red(fill), 255, 12, 100);
    let g = lerp_channel_spec(green(fill), 255, 12, 100);
    let b = lerp_channel_spec(blue(fill), 255, 12, 100);
    lemma_border_channel(red(fill));
    lemma_border_channel(green(fill));
    lemma_border_channel(blue(fill));
    lemma_pack_channels(r, g, b);
    assert(border_spec(fill) == pack(r, g, b));
    if border_spec(fill) == fill as int {
        assert(red(fill) == r && green(fill) == g && blue(fill) == b);
    }
}

/// A ramp channel grows with the blend step when it rises from `a` to `b`.
proof fn lemma_ramp_monotone(a: int, b: int, k1: int, k2: int)
    requires
        0 <= a <= b <= 255,
        0 <= k1 <= k2 <= 8,
    ensures
        lerp_channel_spec(a, b, k1, 8) <= lerp_channel_spec(a, b, k2, 8),
{
    let v1 = 2 * (a * 8 + (b - a) * k1) + 8;
    let v2 = 2 * (a * 8 + (b - a) * k2) + 8;
    assert(v1 <= v2) by (nonlinear_arith)
        requires
            v1 == 2 * (a * 8 + (b - a) * k1) + 8,
            v2 == 2 * (a * 8 + (b - a) * k2) + 8,
            a <= b,
            k1 <= k2,
    ;
    assert(v1 / 16 <= v2 / 16) by (nonlinear_arith)
        requires
            v1 <= v2,
    ;
}

/// Law: the depth ramp is darker outside and lighter inside — no channel
/// of `depth_fill` decreases as the nesting level grows — and it is
/// constant from level 8 on.
pub proof fn lemma_depth_fill_monotone(l1: u8, l2: u8)
    requires
        l1 <= l2,
    ensures
        red(depth_fill_spec(l1) as u32) <= red(depth_fill_spec(l2) as u32),
        green(depth_fill_spec(l1) as u32) <= green(depth_fill_spec(l2) as u32),
        blue(depth_fill_spec(l1) as u32) <= blue(depth_fill_spec(l2) as u32),
        l1 >= 8 ==> depth_fill_spec(l1) == depth_fill_spec(l2),
{
    assert(red(DEPTH_FILL_0) == 0x17 && green(DEPTH_FILL_0) == 0x17 && blue(DEPTH_FILL_0)
        == 0x1b);
    assert(red(DEPTH_FILL_8) == 0x3c && green(DEPTH_FILL_8) == 0x3c && blue(DEPTH_FILL_8)
        == 0x46);
    let k1: int = if l1 <= 8 { l1 as int } else { 8 };
    let k2: int = if l2 <= 8 { l2 as int } else { 8 };
    let r1 = lerp_channel_spec(0x17, 0x3c, k1, 8);
    let g1 = lerp_channel_spec(0x17, 0x3c, k1, 8);
    let b1 = lerp_channel_spec(0x1b, 0x46, k1, 8);
    let r2 = lerp_channel_spec(0x17, 0x3c, k2, 8);
    let g2 = lerp_channel_spec(0x17, 0x3c, k2, 8);
    let b2 = lerp_channel_spec(0x1b, 0x46, k2, 8);
    lemma_lerp_channel_bounds(0x17, 0x3c, k1, 8);
    lemma_lerp_channel_bounds(0x1b, 0x46, k1, 8);
    lemma_lerp_channel_bounds(0x17, 0x3c, k2, 8);
    lemma_lerp_channel_bounds(0x1b, 0x46, k2, 8);
    lemma_ramp_monotone(0x17, 0x3c, k1, k2);
    lemma_ramp_monotone(0x1b, 0x46, k1, k2);
    lemma_pack_channels(r1, g1, b1);
    lemma_pack_channels(r2, g2, b2);
    assert(depth_fill_spec(l1) == pack(r1, g1, b1));
    assert(depth_fill_spec(l2) == pack(r2, g2, b2));
}


/// The brightness tiers of one nesting level, channel by channel: the
/// editor background, then the leaf fill (just above it), the item fill,
/// and the file fill above that; a file container also differs from a
/// folder at the same level.
pub open spec fn fill_tiers(level: u8) -> bool {
    let c = CODE_BG;
    let l = leaf_fill_spec(level) as u32;
    let i = item_fill_spec(level) as u32;
    let f = file_fill_spec(level) as u32;
    &&& red(c) <= red(l) <= red(i) < red(f)
    &&& green(c) <= green(l) <= green(i) < green(f)
    &&& blue(c) <= blue(l) <= blue(i) < blue(f)
    &&& leaf_fill_spec(level) != c as int
    &&& file_fill_spec(level) != depth_fill_spec(level)
}

proof fn lemma_tier_channel(c: int, f: int)
    requires
        0 <= c,
        c + 4 <= f <= 255,
    ensures
        c < lerp_channel_spec(c, f, 15, 100),
        lerp_channel_spec(c, f, 15, 100) <= lerp_channel_spec(c, f, 45, 100),
        lerp_channel_spec(c, f, 45, 100) < f,
{
    let v15 = 2 * (c * 100 + (f - c) * 15) + 100;
    let v45 = 2 * (c * 100 + (f - c) * 45) + 100;
    assert(v15 >= 200 * (c + 1));
    assert(v15 <= v45);
    assert(v45 < 200 * f);
    assert(v15 / 200 >= c + 1) by (nonlinear_arith)
        requires
            v15 >= 200 * (c + 1),
    ;
    assert(v15 / 200 <= v45 / 200) by (nonlinear_arith)
        requires
            v15 <= v45,
    ;
    assert(v45 / 200 < f) by (nonlinear_arith)
        requires
            v45 < 200 * f,
            v45 >= 0,
    ;
}

proof fn lemma_file_channel_above(d: int, t: int)
    requires
        0 <= d + 2 <= t <= 255,
    ensures
        lerp_channel_spec(d, t, 25, 100) > d,
{
    let v = 2 * (d * 100 + (t - d) * 25) + 100;
    assert(v >= 200 * (d + 1));
    assert(v / 200 >= d + 1) by (nonlinear_arith)
        requires
            v >= 200 * (d + 1),
    ;
}

/// Law: at every nesting level, leaf pages are the darkest tier just above
/// the editor background, item containers lie between leaves and files,
/// and file containers are brightest and differ from folders.
pub proof fn lemma_fill_tiers(level: u8)
    ensures
        fill_tiers(level),
{
    let k: int = if level <= 8 { level as int } else { 8 };
    assert(red(DEPTH_FILL_0) == 0x17 && green(DEPTH_FILL_0) == 0x17 && blue(DEPTH_FILL_0) == 0x1b);
    assert(red(DEPTH_FILL_8) == 0x3c && green(DEPTH_FILL_8) == 0x3c && blue(DEPTH_FILL_8) == 0x46);
    assert(red(FILE_TINT) == 0x44 && green(FILE_TINT) == 0x38 && blue(FILE_TINT) == 0x28);
    assert(red(CODE_BG) == 0x10 && green(CODE_BG) == 0x10 && blue(CODE_BG) == 0x14);
    // the depth ramp
    let dr = lerp_channel_spec(0x17, 0x3c, k, 8);
    let dg = lerp_channel_spec(0x17, 0x3c, k, 8);
    let db = lerp_channel_spec(0x1b, 0x46, k, 8);
    lemma_lerp_channel_bounds(0x17, 0x3c, k, 8);
    lemma_lerp_channel_bounds(0x1b, 0x46, k, 8);
    lemma_pack_channels(dr, dg, db);
    let d = depth_fill_spec(level);
    assert(d == pack(dr, dg, db));
    // the file fill
    let fr = lerp_channel_spec(dr, 0x44, 25, 100);
    let fg = lerp_channel_spec(dg, 0x38, 25, 100);
    let fb = lerp_channel_spec(db, 0x28, 25, 100);
    lemma_lerp_channel_bounds(dr, 0x44, 25, 100);
    lemma_lerp_channel_bounds(dg, 0x38, 25, 100);
    lemma_lerp_channel_bounds(db, 0x28, 25, 100);
    lemma_file_channel_above(dr, 0x44);
    lemma_pack_channels(fr, fg, fb);
    let f = file_fill_spec(level);
    assert(f == pack(fr, fg, fb));
    assert(red(f as u32) == fr && green(f as u32) == fg && blue(f as u32) == fb);
    assert(red(d as u32) == dr);
    assert(f != d);
    // item and leaf fills
    lemma_tier_channel(0x10, fr);
    lemma_tier_channel(0x10, fg);
    lemma_tier_channel(0x14, fb);
    let ir = lerp_channel_spec(0x10, fr, 45, 100);
    let ig = lerp_channel_spec(0x10, fg, 45, 100);
    let ib = lerp_channel_spec(0x14, fb, 45, 100);
    let lr = lerp_channel_spec(0x10, fr, 15, 100);
    let lg = lerp_channel_spec(0x10, fg, 15, 100);
    let lb = lerp_channel_spec(0x14, fb, 15, 100);
    lemma_pack_channels(ir, ig, ib);
    lemma_pack_channels(lr, lg, lb);
    assert(item_fill_spec(level) == pack(ir, ig, ib));
    assert(leaf_fill_spec(level) == pack(lr, lg, lb));
    assert(leaf_fill_spec(level) != CODE_BG as int) by {
        assert(red(leaf_fill_spec(level) as u32) == lr);
    }
}

} // verus!
