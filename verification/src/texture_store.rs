//! Persistent texture cache: content-addressed keys, the on-disk file
//! format (a 32-byte header followed by BGRA pixels), and the
//! least-recently-used index that keeps each project's cache within its
//! byte allowance. The file system itself is driven by the application;
//! this module decides what to read, write and evict.

use vstd::prelude::*;

use crate::hash::{
    extend_bytes, fnv_fold, fnv_update, from_le4, from_le8, le4, le8, le_bytes_u32, le_bytes_u64,
    FNV_OFFSET,
};
use crate::symbol::{SymbolId, SymbolKind};
use crate::text::{chars_of, push_str_chars, push_utf8, utf8};

verus! {

/// Magic bytes opening every texture file.
pub const MAGIC: [u8; 8] = [0x4f, 0x55, 0x54, 0x52, 0x54, 0x58, 0x30, 0x31];
/// Header length in bytes.
pub const HEADER_LEN: usize = 32;
/// Byte offset of the last-access stamp inside the header.
pub const ACCESS_OFFSET: u64 = 24;
/// Widest texture accepted, in pixels.
pub const MAX_TEX_W: u32 = 1024;
/// Tallest texture accepted, in pixels.
pub const MAX_TEX_H: u32 = 1024;

// ----------------------------------------------------------------------
// FNV-1a with length-prefixed fields
// ----------------------------------------------------------------------

/// A length-prefixed field: the byte count (8 bytes, little endian), then
/// the bytes.
pub open spec fn field_bytes(b: Seq<u8>) -> Seq<u8> {
    le8(b.len() as u64) + b
}

/// Incremental FNV-1a 64-bit hasher over length-prefixed fields.
pub struct Fnv1a(u64);

impl View for Fnv1a {
    type V = u64;

    closed spec fn view(&self) -> u64 {
        self.0
    }
}

impl Fnv1a {
    /// A hasher at the FNV-1a offset basis.
    pub fn new() -> (r: Self)
        ensures
            r@ == FNV_OFFSET,
    {
        Fnv1a(FNV_OFFSET)
    }

    /// Hash one field: its length as 8 little-endian bytes, then its bytes,
    /// so adjacent fields cannot run into each other.
    pub fn field(&mut self, bytes: &[u8])
        ensures
            final(self)@ == fnv_fold(old(self)@, field_bytes(bytes@)),
    {
        let len = le_bytes_u64(bytes.len() as u64);
        let before = self.0;
        self.update(&len);
        self.update(bytes);
        proof {
            crate::hash::lemma_fnv_fold_append(before, le8(bytes@.len() as u64), bytes@);
        }
    }

    /// Hash raw bytes.
    pub fn update(&mut self, bytes: &[u8])
        ensures
            final(self)@ == fnv_fold(old(self)@, bytes@),
    {
        self.0 = fnv_update(self.0, bytes);
    }

    /// The hash value.
    pub fn finish(self) -> (r: u64)
        ensures
            r == self@,
    {
        self.0
    }
}

// ----------------------------------------------------------------------
// Paths and keys
// ----------------------------------------------------------------------

/// `s` with every backslash turned into a slash.
pub open spec fn slashes(s: Seq<char>) -> Seq<char> {
    Seq::new(s.len(), |i: int| if s[i] == '\\' { '/' } else { s[i] })
}

/// `s` without any number of leading `./` pairs.
pub open spec fn strip_dot_slashes(s: Seq<char>) -> Seq<char>
    decreases s.len(),
{
    if s.len() >= 2 && s[0] == '.' && s[1] == '/' {
        strip_dot_slashes(s.skip(2))
    } else {
        s
    }
}

/// `s` without its leading slashes.
pub open spec fn strip_slashes(s: Seq<char>) -> Seq<char>
    decreases s.len(),
{
    if s.len() >= 1 && s[0] == '/' {
        strip_slashes(s.skip(1))
    } else {
        s
    }
}

/// A project-relative path in canonical form: forward slashes, no leading
/// `./` pairs, no leading slashes.
pub open spec fn normalize_spec(path: Seq<char>) -> Seq<char> {
    strip_slashes(strip_dot_slashes(slashes(path)))
}

fn backslashes_to_slashes(s: &[char]) -> (r: Vec<char>)
    ensures
        r@ == slashes(s@),
{
    let mut r: Vec<char> = Vec::new();
    let mut i: usize = 0;
    while i < s.len()
        invariant
            i <= s.len(),
            r@ == slashes(s@).take(i as int),
        decreases s.len() - i,
    {
        r.push(if s[i] == '\\' { '/' } else { s[i] });
        i += 1;
        assert(r@ =~= slashes(s@).take(i as int));
    }
    assert(slashes(s@).take(s@.len() as int) =~= slashes(s@));
    r
}

/// Canonical form of a project-relative path: backslashes become slashes,
/// then leading `./` pairs and leading slashes are dropped, so
/// `.\src\lib.rs`, `/src/lib.rs` and `src/lib.rs` all name the same file.
pub fn normalize_relative_path(path: &str) -> (r: Vec<char>)
    ensures
        r@ == normalize_spec(path@),
{
    let raw = chars_of(path);
    let s = backslashes_to_slashes(&raw);
    let mut i: usize = 0;
    assert(s@.skip(0) =~= s@);
    while i < s.len() && i + 1 < s.len() && s[i] == '.' && s[i + 1] == '/'
        invariant
            i <= s.len(),
            strip_dot_slashes(s@) == strip_dot_slashes(s@.skip(i as int)),
        decreases s.len() - i,
    {
        assert(s@.skip(i as int).skip(2) =~= s@.skip(i as int + 2));
        i += 2;
    }
    assert(strip_dot_slashes(s@.skip(i as int)) == s@.skip(i as int));
    while i < s.len() && s[i] == '/'
        invariant
            i <= s.len(),
            normalize_spec(path@) == strip_slashes(s@.skip(i as int)),
        decreases s.len() - i,
    {
        assert(s@.skip(i as int).skip(1) =~= s@.skip(i as int + 1));
        i += 1;
    }
    assert(strip_slashes(s@.skip(i as int)) == s@.skip(i as int));
    crate::text::slice_chars(&s, i, s.len())
}

/// Kind tag hashed into texture keys: `folder`, `file`, `chunk`, or
/// `item:` followed by the item label.
pub open spec fn kind_bytes_spec(kind: SymbolKind) -> Seq<char> {
    match kind {
        SymbolKind::Folder => "folder"@,
        SymbolKind::File => "file"@,
        SymbolKind::Chunk => "chunk"@,
        SymbolKind::Item { label } => "item:"@ + label@,
    }
}

fn symbol_kind_chars(kind: &SymbolKind) -> (r: Vec<char>)
    ensures
        r@ == kind_bytes_spec(*kind),
{
    let mut out: Vec<char> = Vec::new();
    match kind {
        SymbolKind::Folder => push_str_chars(&mut out, "folder"),
        SymbolKind::File => push_str_chars(&mut out, "file"),
        SymbolKind::Chunk => push_str_chars(&mut out, "chunk"),
        SymbolKind::Item { label } => {
            push_str_chars(&mut out, "item:");
            push_str_chars(&mut out, label.as_str());
        },
    }
    out
}

/// Identity of one cached texture: a hash of everything its pixels depend
/// on.
#[derive(Clone, Copy, Debug, PartialEq, Eq, Hash, Structural)]
pub struct TextureKey(u64);

impl View for TextureKey {
    type V = u64;

    closed spec fn view(&self) -> u64 {
        self.0
    }
}

/// The byte string hashed into a texture key.
pub open spec fn key_material(
    relative_path: Seq<char>,
    source_fingerprint: u64,
    symbol: SymbolId,
    render_schema: u64,
    theme_fingerprint: u64,
) -> Seq<u8> {
    field_bytes(utf8(normalize_spec(relative_path))) + field_bytes(le8(source_fingerprint))
        + field_bytes(utf8(kind_bytes_spec(symbol.kind))) + field_bytes(
        utf8(slashes(symbol.qualified_path@)),
    ) + field_bytes(le4(symbol.ordinal)) + field_bytes(le8(render_schema)) + field_bytes(
        le8(theme_fingerprint),
    )
}

impl TextureKey {
    /// The 64-bit hash value.
    pub fn value(self) -> (r: u64)
        ensures
            r == self@,
    {
        self.0
    }

    /// The key of a texture: FNV-1a over the normalized source path, the
    /// source file's fingerprint, the symbol's kind, qualified path (with
    /// forward slashes) and ordinal, the render schema version and the theme
    /// fingerprint, each as a length-prefixed field.
    pub fn new(
        relative_path: &str,
        source_fingerprint: u64,
        symbol: &SymbolId,
        render_schema: u64,
        theme_fingerprint: u64,
    ) -> (r: Self)
        ensures
            r@ == fnv_fold(
                FNV_OFFSET,
                key_material(
                    relative_path@,
                    source_fingerprint,
                    *symbol,
                    render_schema,
                    theme_fingerprint,
                ),
            ),
    {
        let mut bytes: Vec<u8> = Vec::new();
        let path = normalize_relative_path(relative_path);
        append_field_utf8(&mut bytes, &path);
        append_field(&mut bytes, &le_bytes_u64(source_fingerprint));
        let kind = symbol_kind_chars(&symbol.kind);
        append_field_utf8(&mut bytes, &kind);
        let qp = chars_of(symbol.qualified_path.as_str());
        let qp = backslashes_to_slashes(&qp);
        append_field_utf8(&mut bytes, &qp);
        append_field(&mut bytes, &le_bytes_u32(symbol.ordinal));
        append_field(&mut bytes, &le_bytes_u64(render_schema));
        append_field(&mut bytes, &le_bytes_u64(theme_fingerprint));
        TextureKey(fnv_update(FNV_OFFSET, &bytes))
    }
}

fn append_field(out: &mut Vec<u8>, b: &[u8])
    ensures
        final(out)@ == old(out)@ + field_bytes(b@),
{
    let len = le_bytes_u64(b.len() as u64);
    extend_bytes(out, &len);
    extend_bytes(out, b);
    assert(out@ =~= old(out)@ + field_bytes(b@));
}

fn append_field_utf8(out: &mut Vec<u8>, s: &[char])
    ensures
        final(out)@ == old(out)@ + field_bytes(utf8(s@)),
{
    let mut b: Vec<u8> = Vec::new();
    push_utf8(&mut b, s);
    assert(b@ =~= utf8(s@));
    append_field(out, &b);
}


// ----------------------------------------------------------------------
// Hexadecimal names
// ----------------------------------------------------------------------

/// Lowercase hexadecimal digit of `d` (0 through 15).
pub open spec fn hex_char(d: int) -> char {
    if d < 10 {
        crate::text::digit_char(d)
    } else if d == 10 {
        'a'
    } else if d == 11 {
        'b'
    } else if d == 12 {
        'c'
    } else if d == 13 {
        'd'
    } else if d == 14 {
        'e'
    } else {
        'f'
    }
}

/// The low `n` hexadecimal digits of `x`, most significant first.
pub open spec fn hex_digits(x: nat, n: nat) -> Seq<char>
    decreases n,
{
    if n == 0 {
        Seq::empty()
    } else {
        hex_digits(x / 16, (n - 1) as nat).push(hex_char((x % 16) as int))
    }
}

fn hex_digit(d: u64) -> (c: char)
    requires
        d < 16,
    ensures
        c == hex_char(d as int),
{
    if d < 10 {
        crate::text::digit(d as u128)
    } else if d == 10 {
        'a'
    } else if d == 11 {
        'b'
    } else if d == 12 {
        'c'
    } else if d == 13 {
        'd'
    } else if d == 14 {
        'e'
    } else {
        'f'
    }
}

fn push_hex_digits(out: &mut Vec<char>, x: u64, n: u32)
    ensures
        final(out)@ == old(out)@ + hex_digits(x as nat, n as nat),
    decreases n,
{
    if n > 0 {
        push_hex_digits(out, x / 16, n - 1);
        out.push(hex_digit(x % 16));
        assert(hex_digits(x as nat, n as nat) =~= hex_digits((x / 16) as nat, (n - 1) as nat).push(
            hex_char((x % 16) as int),
        ));
    }
}

/// Name of the texture file for a key: 16 lowercase hex digits and `.tex`.
pub open spec fn filename_spec(key: u64) -> Seq<char> {
    hex_digits(key as nat, 16) + ".tex"@
}

impl TextureKey {
    /// Name of this key's texture file: 16 lowercase hex digits and `.tex`.
    pub fn filename(self) -> (r: String)
        ensures
            r@ == filename_spec(self@),
    {
        let mut out: Vec<char> = Vec::new();
        push_hex_digits(&mut out, self.0, 16);
        push_str_chars(&mut out, ".tex");
        crate::text::string_from_chars(&out)
    }
}

/// Value of a hexadecimal digit character (either case), if it is one.
pub open spec fn hex_value_of(c: char) -> Option<int> {
    if '0' <= c && c <= '9' {
        Some(c as int - '0' as int)
    } else if 'a' <= c && c <= 'f' {
        Some(c as int - 'a' as int + 10)
    } else if 'A' <= c && c <= 'F' {
        Some(c as int - 'A' as int + 10)
    } else {
        None
    }
}

/// Whether every character of `s` is a hexadecimal digit.
pub open spec fn all_hex(s: Seq<char>) -> bool {
    forall|i: int| 0 <= i < s.len() ==> (#[trigger] hex_value_of(s[i])) is Some
}

/// Value of a string of hexadecimal digits.
pub open spec fn hex_value(s: Seq<char>) -> int
    decreases s.len(),
{
    if s.len() == 0 {
        0
    } else {
        16 * hex_value(s.drop_last()) + hex_value_of(s.last())->0
    }
}

/// The key named by a file name: `<stem>.tex` where the stem is 16
/// characters read as a hexadecimal number (an optional leading `+`
/// followed by at least one hex digit, either case).
pub open spec fn key_from_file_name_spec(name: Seq<char>) -> Option<u64> {
    let dot = crate::text::last_index_of(name, '.');
    if dot <= 0 {
        None
    } else {
        let stem = name.take(dot);
        let ext = name.skip(dot + 1);
        let digits = if stem.len() > 0 && stem[0] == '+' {
            stem.skip(1)
        } else {
            stem
        };
        if ext != "tex"@ || stem.len() != 16 || digits.len() == 0 || !all_hex(digits) {
            None
        } else {
            Some(hex_value(digits) as u64)
        }
    }
}

proof fn lemma_hex_value_bound(s: Seq<char>)
    requires
        all_hex(s),
    ensures
        0 <= hex_value(s) < crate::project_settings::pow2_of(4 * s.len()),
    decreases s.len(),
{
    if s.len() > 0 {
        assert(all_hex(s.drop_last())) by {
            assert forall|i: int| 0 <= i < s.drop_last().len() implies (#[trigger] hex_value_of(
                s.drop_last()[i],
            )) is Some by {
                assert(hex_value_of(s[i]) is Some);
            }
        }
        lemma_hex_value_bound(s.drop_last());
        assert(hex_value_of(s[s.len() - 1]) is Some);
        let k = (4 * s.len()) as nat;
        let p = crate::project_settings::pow2_of((4 * (s.len() - 1)) as nat);
        lemma_pow2_four_more((4 * (s.len() - 1)) as nat);
        assert(16 * hex_value(s.drop_last()) + hex_value_of(s.last())->0 < 16 * p)
            by (nonlinear_arith)
            requires
                0 <= hex_value(s.drop_last()) < p,
                0 <= hex_value_of(s.last())->0 < 16,
        ;
    }
}

proof fn lemma_pow2_four_more(k: nat)
    ensures
        crate::project_settings::pow2_of(k + 4) == 16 * crate::project_settings::pow2_of(k),
{
    reveal_with_fuel(crate::project_settings::pow2_of, 5);
}

fn hex_char_value(c: char) -> (r: Option<u64>)
    ensures
        match r {
            Some(v) => hex_value_of(c) == Some(v as int),
            None => hex_value_of(c) is None,
        },
{
    if '0' <= c && c <= '9' {
        Some((c as u32 - '0' as u32) as u64)
    } else if 'a' <= c && c <= 'f' {
        Some((c as u32 - 'a' as u32 + 10) as u64)
    } else if 'A' <= c && c <= 'F' {
        Some((c as u32 - 'A' as u32 + 10) as u64)
    } else {
        None
    }
}

/// The key named by a texture file's name, if it is one: `<16-char hex
/// stem>.tex`.
pub fn key_from_file_name(name: &str) -> (r: Option<TextureKey>)
    ensures
        match r {
            Some(k) => key_from_file_name_spec(name@) == Some(k@),
            None => key_from_file_name_spec(name@) is None,
        },
{
    let s = chars_of(name);
    let dot = match crate::text::rfind_char(&s, '.') {
        Some(d) => d,
        None => return None,
    };
    if dot == 0 {
        return None;
    }
    let ext = crate::text::slice_chars(&s, dot + 1, s.len());
    let tex = chars_of("tex");
    if !crate::text::chars_eq(&ext, &tex) || dot != 16 {
        return None;
    }
    let start: usize = if s[0] == '+' { 1 } else { 0 };
    let stem = crate::text::slice_chars(&s, 0, dot);
    let digits = crate::text::slice_chars(&s, start, dot);
    assert(digits@ =~= (if stem@.len() > 0 && stem@[0] == '+' { stem@.skip(1) } else { stem@ }));
    if digits.len() == 0 {
        return None;
    }
    assert(key_from_file_name_spec(name@) == if all_hex(digits@) {
        Some(hex_value(digits@) as u64)
    } else {
        None::<u64>
    });
    let mut value: u64 = 0;
    let mut i: usize = 0;
    while i < digits.len()
        invariant
            key_from_file_name_spec(name@) == if all_hex(digits@) {
                Some(hex_value(digits@) as u64)
            } else {
                None::<u64>
            },
            i <= digits.len() <= 16,
            all_hex(digits@.take(i as int)),
            value as int == hex_value(digits@.take(i as int)),
        decreases digits.len() - i,
    {
        let d = match hex_char_value(digits[i]) {
            Some(d) => d,
            None => {
                assert(!all_hex(digits@));
                return None;
            },
        };
        proof {
            assert(digits@.take(i as int + 1).drop_last() =~= digits@.take(i as int));
            lemma_hex_value_bound(digits@.take(i as int));
            assert(all_hex(digits@.take(i as int + 1))) by {
                assert forall|j: int| 0 <= j < i + 1 implies (#[trigger] hex_value_of(
                    digits@.take(i as int + 1)[j],
                )) is Some by {
                    if j < i {
                        assert(digits@.take(i as int + 1)[j] == digits@.take(i as int)[j]);
                    }
                }
            }
            lemma_pow2_mono_15(i as nat);
        }
        value = value * 16 + d;
        i += 1;
    }
    assert(digits@.take(digits@.len() as int) =~= digits@);
    Some(TextureKey(value))
}

proof fn lemma_pow2_mono_15(i: nat)
    requires
        i < 16,
    ensures
        crate::project_settings::pow2_of(4 * i) <= 0x1000000000000000,
{
    reveal_with_fuel(crate::project_settings::pow2_of, 61);
    assert(crate::project_settings::pow2_of(60) == 0x1000000000000000);
    lemma_pow2_le(4 * i, 60);
}

proof fn lemma_pow2_le(a: nat, b: nat)
    requires
        a <= b,
    ensures
        crate::project_settings::pow2_of(a) <= crate::project_settings::pow2_of(b),
    decreases b - a,
{
    if a < b {
        lemma_pow2_le(a, (b - 1) as nat);
        reveal_with_fuel(crate::project_settings::pow2_of, 2);
    }
}

/// Directory name of a project's texture namespace: 16 lowercase hex
/// digits of FNV-1a over the project identity (backslashes as slashes).
pub open spec fn namespace_dir_spec(project_identity: Seq<char>) -> Seq<char> {
    hex_digits(fnv_fold(FNV_OFFSET, field_bytes(utf8(slashes(project_identity)))) as nat, 16)
}

/// Directory name of a project's texture namespace inside the cache root.
pub fn namespace_dir_name(project_identity: &str) -> (r: String)
    ensures
        r@ == namespace_dir_spec(project_identity@),
{
    let id = chars_of(project_identity);
    let id = backslashes_to_slashes(&id);
    let mut bytes: Vec<u8> = Vec::new();
    append_field_utf8(&mut bytes, &id);
    assert(bytes@ =~= field_bytes(utf8(slashes(project_identity@))));
    let mut hash = Fnv1a::new();
    hash.update(&bytes);
    let h = hash.finish();
    let mut out: Vec<char> = Vec::new();
    push_hex_digits(&mut out, h, 16);
    crate::text::string_from_chars(&out)
}


// ----------------------------------------------------------------------
// File format
// ----------------------------------------------------------------------

/// Decoded pixels of one texture: `width * height` BGRA pixels.
#[derive(Clone, Debug, PartialEq, Eq)]
pub struct TexturePayload {
    pub width: u32,
    pub height: u32,
    pub bytes: Vec<u8>,
}

/// The fields of a valid texture-file header.
#[derive(Clone, Copy, Debug, PartialEq, Eq, Structural)]
pub struct Header {
    pub width: u32,
    pub height: u32,
    pub payload_len: u64,
    pub last_access: u64,
    pub file_bytes: u64,
}

/// Rejection of a texture whose dimensions or byte count are invalid.
#[derive(Clone, Copy, Debug, PartialEq, Eq, Structural)]
pub struct InvalidTexture;

/// Whether `width x height` BGRA pixels in `len` bytes are storable.
pub open spec fn dimensions_ok(width: u32, height: u32, len: int) -> bool {
    width != 0 && height != 0 && width <= MAX_TEX_W && height <= MAX_TEX_H && len == width as int
        * height as int * 4
}

/// The 32-byte header of a texture file: magic, width, height, payload
/// length and last-access stamp, little endian.
pub open spec fn header_spec(width: u32, height: u32, payload_len: u64, last_access: u64) -> Seq<u8> {
    MAGIC@ + le4(width) + le4(height) + le8(payload_len) + le8(last_access)
}

/// Encodes a texture-file header.
pub fn write_header(width: u32, height: u32, payload_len: u64, last_access: u64) -> (r: Vec<u8>)
    ensures
        r@ == header_spec(width, height, payload_len, last_access),
        r@.len() == HEADER_LEN,
{
    let mut out: Vec<u8> = Vec::new();
    let magic = MAGIC;
    extend_bytes(&mut out, &magic);
    extend_bytes(&mut out, &le_bytes_u32(width));
    extend_bytes(&mut out, &le_bytes_u32(height));
    extend_bytes(&mut out, &le_bytes_u64(payload_len));
    extend_bytes(&mut out, &le_bytes_u64(last_access));
    out
}

/// Header fields read from the first 32 bytes of a file of `file_bytes`
/// bytes, if the file is a valid texture within the allowance: long enough,
/// not larger than `max_bytes`, opening with the magic bytes, with sane
/// dimensions and a payload filling the rest of the file exactly.
pub open spec fn validate_file_spec(raw: Seq<u8>, file_bytes: u64, max_bytes: u64) -> Option<Header> {
    if file_bytes < HEADER_LEN || file_bytes > max_bytes || raw.len() < HEADER_LEN || raw.take(8)
        != MAGIC@ {
        None
    } else {
        let width = from_le4(raw.subrange(8, 12)) as u32;
        let height = from_le4(raw.subrange(12, 16)) as u32;
        let payload_len = from_le8(raw.subrange(16, 24)) as u64;
        let last_access = from_le8(raw.subrange(24, 32)) as u64;
        if !dimensions_ok(width, height, payload_len as int) || HEADER_LEN + payload_len
            != file_bytes {
            None
        } else {
            Some(Header { width, height, payload_len, last_access, file_bytes })
        }
    }
}

/// Law: a texture file as a save writes it (a header for a valid payload,
/// then the payload) validates back to exactly that header, as long as it
/// fits the allowance.
pub proof fn lemma_written_file_validates(
    width: u32,
    height: u32,
    last_access: u64,
    payload: Seq<u8>,
    max_bytes: u64,
)
    requires
        dimensions_ok(width, height, payload.len() as int),
        HEADER_LEN + payload.len() <= max_bytes,
    ensures
        validate_file_spec(
            header_spec(width, height, payload.len() as u64, last_access) + payload,
            (HEADER_LEN + payload.len()) as u64,
            max_bytes,
        ) == Some(
            (Header {
                width,
                height,
                payload_len: payload.len() as u64,
                last_access,
                file_bytes: (HEADER_LEN + payload.len()) as u64,
            }),
        ),
{
    let len = payload.len() as u64;
    let raw = header_spec(width, height, len, last_access) + payload;
    assert(raw.take(8) =~= MAGIC@);
    assert(raw.subrange(8, 12) =~= crate::hash::le4(width));
    assert(raw.subrange(12, 16) =~= crate::hash::le4(height));
    assert(raw.subrange(16, 24) =~= crate::hash::le8(len));
    assert(raw.subrange(24, 32) =~= crate::hash::le8(last_access));
    crate::hash::lemma_le4_round_trip(width);
    crate::hash::lemma_le4_round_trip(height);
    crate::hash::lemma_le8_round_trip(len);
    crate::hash::lemma_le8_round_trip(last_access);
}

fn read_u32(raw: &[u8], at: usize) -> (r: u32)
    requires
        at + 4 <= raw.len(),
    ensures
        r as int == from_le4(raw@.subrange(at as int, at + 4)),
{
    let v = raw[at] as u32 + 256 * (raw[at + 1] as u32) + 65536 * (raw[at + 2] as u32) + 16777216
        * (raw[at + 3] as u32);
    v
}

fn read_u64(raw: &[u8], at: usize) -> (r: u64)
    requires
        at + 8 <= raw.len(),
    ensures
        r as int == from_le8(raw@.subrange(at as int, at + 8)),
{
    let lo = read_u32(raw, at);
    let hi = read_u32(raw, at + 4);
    assert(raw@.subrange(at as int, at + 8).take(4) =~= raw@.subrange(at as int, at + 4));
    assert(raw@.subrange(at as int, at + 8).skip(4) =~= raw@.subrange(at + 4, at + 8));
    lo as u64 + 4294967296 * (hi as u64)
}

/// Decodes and checks a texture file's header (see `validate_file_spec`).
/// `raw` holds the bytes that could be read from the start of the file.
pub fn validate_file(raw: &[u8], file_bytes: u64, max_bytes: u64) -> (r: Option<Header>)
    ensures
        r == validate_file_spec(raw@, file_bytes, max_bytes),
{
    if file_bytes < HEADER_LEN as u64 || file_bytes > max_bytes || raw.len() < HEADER_LEN {
        return None;
    }
    let mut i: usize = 0;
    while i < 8
        invariant
            i <= 8,
            raw@.len() >= HEADER_LEN,
            raw@.take(i as int) == MAGIC@.take(i as int),
        decreases 8 - i,
    {
        if raw[i] != MAGIC[i] {
            assert(raw@.take(8)[i as int] != MAGIC@[i as int]);
            return None;
        }
        assert(raw@.take(i as int + 1) =~= MAGIC@.take(i as int + 1));
        i += 1;
    }
    assert(raw@.take(8) =~= MAGIC@);
    let width = read_u32(raw, 8);
    let height = read_u32(raw, 12);
    let payload_len = read_u64(raw, 16);
    let last_access = read_u64(raw, 24);
    if width == 0 || height == 0 || width > MAX_TEX_W || height > MAX_TEX_H {
        return None;
    }
    assert((width as u64) * (height as u64) <= 1024 * 1024) by (nonlinear_arith)
        requires
            width <= 1024,
            height <= 1024,
    ;
    let expected = (width as u64) * (height as u64) * 4;
    if expected != payload_len || payload_len != file_bytes - HEADER_LEN as u64 {
        return None;
    }
    Some(Header { width, height, payload_len, last_access, file_bytes })
}

/// Checks a texture before it is written: positive dimensions within the
/// limits and exactly `width * height * 4` bytes. Returns the byte count.
pub fn validate_payload(payload: &TexturePayload) -> (r: Result<u64, InvalidTexture>)
    ensures
        r is Ok <==> dimensions_ok(payload.width, payload.height, payload.bytes@.len() as int),
        r is Ok ==> r->Ok_0 == payload.bytes@.len(),
{
    let len = payload.bytes.len() as u64;
    if payload.width == 0 || payload.height == 0 || payload.width > MAX_TEX_W || payload.height
        > MAX_TEX_H {
        return Err(InvalidTexture);
    }
    assert((payload.width as u64) * (payload.height as u64) <= 1024 * 1024) by (nonlinear_arith)
        requires
            payload.width <= 1024,
            payload.height <= 1024,
    ;
    let expected = (payload.width as u64) * (payload.height as u64) * 4;
    if expected != len {
        return Err(InvalidTexture);
    }
    Ok(len)
}


// ----------------------------------------------------------------------
// Index
// ----------------------------------------------------------------------

/// What the index knows of one texture file.
#[derive(Clone, Copy, Debug, PartialEq, Eq, Structural)]
pub struct Metadata {
    pub file_bytes: u64,
    pub last_access: u64,
}

/// One directory entry seen while rescanning: its file name, the first
/// bytes of the file (at least a header's worth when the file is that
/// long) and its size.
pub struct ScannedFile {
    pub name: String,
    pub head: Vec<u8>,
    pub file_bytes: u64,
}

/// Whether a file name has extension `ext` (the part after the last `.`,
/// when that `.` is not the first character).
pub open spec fn has_extension_spec(name: Seq<char>, ext: Seq<char>) -> bool {
    let dot = crate::text::last_index_of(name, '.');
    dot > 0 && name.skip(dot + 1) == ext
}

/// Whether a file name has extension `ext`.
pub fn has_extension(name: &str, ext: &str) -> (r: bool)
    ensures
        r == has_extension_spec(name@, ext@),
{
    let s = chars_of(name);
    match crate::text::rfind_char(&s, '.') {
        None => false,
        Some(dot) => {
            if dot == 0 {
                return false;
            }
            let tail = crate::text::slice_chars(&s, dot + 1, s.len());
            assert(tail@ =~= s@.skip(dot + 1));
            let e = chars_of(ext);
            crate::text::chars_eq(&tail, &e)
        },
    }
}

/// The key and header a rescanned file contributes to the index: texture
/// files (not temporaries) whose header is valid.
pub open spec fn scanned_entry(f: ScannedFile, max: u64) -> Option<(u64, Header)> {
    if has_extension_spec(f.name@, "tmp"@) {
        None
    } else {
        match key_from_file_name_spec(f.name@) {
            None => None,
            Some(k) => match validate_file_spec(f.head@, f.file_bytes, max) {
                Some(h) => Some((k, h)),
                None => None,
            },
        }
    }
}

/// No two files of a listing contribute the same key to the index (as
/// files of one directory, whose names differ, do not).
pub open spec fn scanned_keys_distinct(files: Seq<ScannedFile>, max: u64) -> bool {
    forall|i: int, j: int|
        0 <= i < j < files.len() && (#[trigger] scanned_entry(files[i], max)) is Some && (#[trigger] scanned_entry(
            files[j],
            max,
        )) is Some ==> scanned_entry(files[i], max).unwrap().0 != scanned_entry(files[j], max).unwrap().0
}

/// Whether a rescan deletes a file: temporaries, and texture files whose
/// header is invalid.
pub open spec fn doomed(f: ScannedFile, max: u64) -> bool {
    has_extension_spec(f.name@, "tmp"@) || (key_from_file_name_spec(f.name@) is Some
        && validate_file_spec(f.head@, f.file_bytes, max) is None)
}

/// Names of the files a rescan deletes, in listing order.
pub open spec fn doomed_names(files: Seq<ScannedFile>, max: u64) -> Seq<Seq<char>>
    decreases files.len(),
{
    if files.len() == 0 {
        Seq::empty()
    } else {
        let rest = doomed_names(files.drop_last(), max);
        if doomed(files.last(), max) { rest.push(files.last().name@) } else { rest }
    }
}

/// What deleting one texture file came to.
#[derive(Clone, Debug, PartialEq, Eq)]
pub enum Removal {
    /// The file was deleted.
    Removed,
    /// There was no such file.
    Missing,
    /// Deleting failed, with the reason.
    Failed(String),
}

/// Path of key `k`'s texture file in the namespace directory `dir`.
pub open spec fn path_spec(dir: Seq<char>, k: u64) -> Seq<char> {
    crate::project_settings::join_path(dir, filename_spec(k))
}

/// Whether `remove` can answer `o` when asked to delete the file of `k`
/// in `dir`.
pub open spec fn removal_answer<F: Fn(&String) -> Removal>(remove: &F, dir: Seq<char>, k: u64, o: Removal) -> bool {
    exists|p: &String| p@ == path_spec(dir, k) && #[trigger] remove.ensures((p,), o)
}

/// Whether `remove` deleted the file of `k` in `dir`, or found it gone.
pub open spec fn deleted_by<F: Fn(&String) -> Removal>(remove: &F, dir: Seq<char>, k: u64) -> bool {
    removal_answer(remove, dir, k, Removal::Removed) || removal_answer(remove, dir, k, Removal::Missing)
}

/// Message when room cannot be made for a new texture.
pub open spec fn no_room_msg() -> Seq<char> {
    "unable to reserve texture cache space"@
}

/// No room can be made: the store is empty and still over its allowance.
#[derive(Clone, Copy, Debug, PartialEq, Eq, Structural)]
pub struct NoSpace;

/// The index of one project's on-disk texture cache: where its files live,
/// its byte allowance, the bytes it accounts for, a monotone access clock,
/// and per-key file size and last-access stamp.
pub struct TextureStore {
    dir: String,
    max_bytes: u64,
    used_bytes: u64,
    clock: u64,
    entries: Vec<(u64, Metadata)>,
}

/// The standard library's wall-clock instant.
#[verifier::external_type_specification]
#[verifier::external_body]
pub struct ExSystemTime(std::time::SystemTime);

/// The current wall-clock time (`SystemTime::now`). It depends on the time
/// of the call, so nothing is promised about it.
#[verifier::external_body]
fn system_now() -> std::time::SystemTime {
    std::time::SystemTime::now()
}

/// How long after the Unix epoch `t` lies (`SystemTime::duration_since`),
/// or `None` when it lies before it. The answer depends on the clock
/// reading, so nothing is promised about it.
#[verifier::external_body]
fn since_epoch(t: &std::time::SystemTime) -> Option<std::time::Duration> {
    match t.duration_since(std::time::UNIX_EPOCH) {
        Ok(d) => Some(d),
        Err(_) => None,
    }
}

/// Whole microseconds of a duration (`Duration::as_micros`). A duration is
/// opaque here, so nothing is promised about the count.
#[verifier::external_body]
fn duration_micros(d: &std::time::Duration) -> u128 {
    d.as_micros()
}

/// Microseconds since the Unix epoch, or 0 when the clock reads before
/// the epoch. Depends on the time of the call, so nothing is promised
/// about the value.
fn now_micros() -> u128 {
    match since_epoch(&system_now()) {
        Some(d) => duration_micros(&d),
        None => 0,
    }
}

proof fn lemma_index_len(s: Seq<(u64, Metadata)>)
    requires
        crate::keyed::unique_keys(s),
    ensures
        crate::keyed::pairs_map(s).len() == s.len(),
        crate::keyed::pairs_map(s).dom().finite(),
    decreases s.len(),
{
    if s.len() > 0 {
        let t = s.drop_last();
        assert(crate::keyed::unique_keys(t));
        lemma_index_len(t);
        crate::keyed::lemma_pairs_map_dom(t, s.last().0);
        if crate::keyed::pairs_map(t).dom().contains(s.last().0) {
            let i = choose|i: int| 0 <= i < t.len() && t[i].0 == s.last().0;
            assert(s[i].0 == s[s.len() - 1].0);
        }
    }
}

/// Total size of the files listed in `s`.
pub open spec fn total_bytes(s: Seq<(u64, Metadata)>) -> int
    decreases s.len(),
{
    if s.len() == 0 {
        0
    } else {
        total_bytes(s.drop_last()) + s.last().1.file_bytes
    }
}

proof fn lemma_total_push(s: Seq<(u64, Metadata)>, x: (u64, Metadata))
    ensures
        total_bytes(s.push(x)) == total_bytes(s) + x.1.file_bytes,
{
    assert(s.push(x).drop_last() =~= s);
}

proof fn lemma_total_remove(s: Seq<(u64, Metadata)>, i: int)
    requires
        0 <= i < s.len(),
    ensures
        total_bytes(s.remove(i)) == total_bytes(s) - s[i].1.file_bytes,
        total_bytes(s.remove(i)) >= 0,
    decreases s.len(),
{
    lemma_total_nonneg(s.remove(i));
    if i == s.len() - 1 {
        assert(s.remove(i) =~= s.drop_last());
    } else {
        let t = s.drop_last();
        lemma_total_remove(t, i);
        assert(s.remove(i) =~= t.remove(i).push(s.last()));
        lemma_total_push(t.remove(i), s.last());
    }
}

proof fn lemma_total_nonneg(s: Seq<(u64, Metadata)>)
    ensures
        total_bytes(s) >= 0,
    decreases s.len(),
{
    if s.len() > 0 {
        lemma_total_nonneg(s.drop_last());
    }
}

proof fn lemma_total_update(s: Seq<(u64, Metadata)>, i: int, x: (u64, Metadata))
    requires
        0 <= i < s.len(),
    ensures
        total_bytes(s.update(i, x)) == total_bytes(s) - s[i].1.file_bytes + x.1.file_bytes,
{
    lemma_total_remove(s, i);
    lemma_total_remove(s.update(i, x), i);
    assert(s.update(i, x).remove(i) =~= s.remove(i));
}

/// Whether pair `a` was used before pair `b` (by stamp, then by key).
pub open spec fn older(a: (u64, Metadata), b: (u64, Metadata)) -> bool {
    a.1.last_access < b.1.last_access || (a.1.last_access == b.1.last_access && a.0 <= b.0)
}

impl TextureStore {
    /// Well-formedness: no key is indexed twice.
    pub closed spec fn wf(&self) -> bool {
        crate::keyed::unique_keys(self.entries@)
    }

    /// The indexed textures: key to file size and last-access stamp.
    pub closed spec fn index(&self) -> Map<u64, Metadata> {
        crate::keyed::pairs_map(self.entries@)
    }

    pub closed spec fn spec_used(&self) -> u64 {
        self.used_bytes
    }

    /// The accounted bytes do not exceed the total size of the indexed
    /// files.
    pub closed spec fn accounted(&self) -> bool {
        self.used_bytes as int <= total_bytes(self.entries@)
    }

    pub closed spec fn spec_max(&self) -> u64 {
        self.max_bytes
    }

    pub closed spec fn spec_clock(&self) -> u64 {
        self.clock
    }

    pub closed spec fn spec_dir(&self) -> Seq<char> {
        self.dir@
    }

    /// Whether `k` is the least recently used indexed key (ties broken by
    /// the smaller key).
    pub closed spec fn is_lru(&self, k: u64) -> bool {
        exists|i: int|
            0 <= i < self.entries@.len() && self.entries@[i].0 == k && forall|j: int|
                0 <= j < self.entries@.len() ==> older(self.entries@[i], #[trigger] self.entries@[j])
    }

    /// An empty index for the namespace directory `dir`.
    pub fn new(dir: String, max_bytes: u64) -> (r: Self)
        ensures
            r.wf(),
            r.index() == Map::<u64, Metadata>::empty(),
            r.spec_used() == 0,
            r.spec_clock() == 0,
            r.spec_max() == max_bytes,
            r.spec_dir() == dir@,
            r.accounted(),
    {
        TextureStore { dir, max_bytes, used_bytes: 0, clock: 0, entries: Vec::new() }
    }

    /// Bytes the index accounts for.
    pub fn used_bytes(&self) -> (r: u64)
        ensures
            r == self.spec_used(),
    {
        self.used_bytes
    }

    /// The byte allowance.
    pub fn max_bytes(&self) -> (r: u64)
        ensures
            r == self.spec_max(),
    {
        self.max_bytes
    }

    /// Number of indexed textures.
    pub fn len(&self) -> (r: usize)
        requires
            self.wf(),
        ensures
            r == self.index().len(),
    {
        proof {
            lemma_index_len(self.entries@);
        }
        self.entries.len()
    }

    /// What the index holds for `key`.
    pub fn metadata(&self, key: &TextureKey) -> (r: Option<Metadata>)
        requires
            self.wf(),
        ensures
            match r {
                Some(m) => self.index().dom().contains(key@) && self.index()[key@] == m,
                None => !self.index().dom().contains(key@),
            },
    {
        match crate::keyed::find_key(&self.entries, key.0) {
            Some(i) => {
                proof {
                    crate::keyed::lemma_pairs_map_at(self.entries@, i as int);
                }
                Some(self.entries[i].1)
            },
            None => None,
        }
    }

    /// Path of a key's texture file: the namespace directory joined with
    /// the key's file name.
    pub fn path(&self, key: TextureKey) -> (r: String)
        ensures
            r@ == crate::project_settings::join_path(self.spec_dir(), filename_spec(key@)),
    {
        let mut p = chars_of(self.dir.as_str());
        let name = key.filename();
        if p.len() > 0 && p[p.len() - 1] != '/' {
            p.push('/');
        }
        push_str_chars(&mut p, name.as_str());
        crate::text::string_from_chars(&p)
    }

    /// Advances the access clock to `now`, or one past its previous value
    /// when `now` is not later, and returns the new stamp.
    pub fn next_access_at(&mut self, now: u64) -> (r: u64)
        ensures
            r == if now > old(self).spec_clock().saturating_add(1) {
                now
            } else {
                old(self).spec_clock().saturating_add(1)
            },
            final(self).spec_clock() == r,
            final(self).index() == old(self).index(),
            final(self).spec_used() == old(self).spec_used(),
            final(self).spec_max() == old(self).spec_max(),
            final(self).spec_dir() == old(self).spec_dir(),
            final(self).wf() == old(self).wf(),
            final(self).accounted() == old(self).accounted(),
    {
        let next = self.clock.saturating_add(1);
        self.clock = if now > next { now } else { next };
        self.clock
    }

    /// Advances the access clock using the current time; stamps handed out
    /// by one store strictly increase (until the clock saturates).
    pub fn next_access(&mut self) -> (r: u64)
        ensures
            r >= old(self).spec_clock().saturating_add(1),
            final(self).spec_clock() == r,
            final(self).index() == old(self).index(),
            final(self).spec_used() == old(self).spec_used(),
            final(self).spec_max() == old(self).spec_max(),
            final(self).spec_dir() == old(self).spec_dir(),
            final(self).wf() == old(self).wf(),
            final(self).accounted() == old(self).accounted(),
    {
        let micros = now_micros();
        let now: u64 = if micros > u64::MAX as u128 { u64::MAX } else { micros as u64 };
        self.next_access_at(now)
    }

    /// Raises the clock to at least `stamp` (a stamp read from disk).
    pub fn observe_access(&mut self, stamp: u64)
        ensures
            final(self).spec_clock() == if stamp > old(self).spec_clock() {
                stamp
            } else {
                old(self).spec_clock()
            },
            final(self).index() == old(self).index(),
            final(self).spec_used() == old(self).spec_used(),
            final(self).spec_max() == old(self).spec_max(),
            final(self).spec_dir() == old(self).spec_dir(),
            final(self).wf() == old(self).wf(),
            final(self).accounted() == old(self).accounted(),
    {
        if stamp > self.clock {
            self.clock = stamp;
        }
    }

    /// Forgets every entry and restarts accounting and the clock (before a
    /// directory rescan).
    pub fn reset_index(&mut self)
        ensures
            final(self).wf(),
            final(self).index() == Map::<u64, Metadata>::empty(),
            final(self).spec_used() == 0,
            final(self).spec_clock() == 0,
            final(self).spec_max() == old(self).spec_max(),
            final(self).spec_dir() == old(self).spec_dir(),
            final(self).accounted(),
    {
        self.entries = Vec::new();
        self.used_bytes = 0;
        self.clock = 0;
    }

    /// Forgets every entry and zeroes the accounting (after the files were
    /// deleted); the clock keeps running.
    pub fn clear_index(&mut self)
        ensures
            final(self).wf(),
            final(self).index() == Map::<u64, Metadata>::empty(),
            final(self).spec_used() == 0,
            final(self).spec_clock() == old(self).spec_clock(),
            final(self).spec_max() == old(self).spec_max(),
            final(self).spec_dir() == old(self).spec_dir(),
            final(self).accounted(),
    {
        self.entries = Vec::new();
        self.used_bytes = 0;
    }

    /// Records that `key`'s file holds `file_bytes` bytes and was last used
    /// at `last_access`, replacing what was known of it; the accounted bytes
    /// drop by the previous size and grow by the new one (saturating).
    pub fn record(&mut self, key: TextureKey, file_bytes: u64, last_access: u64)
        requires
            old(self).wf(),
        ensures
            final(self).wf(),
            final(self).index() == old(self).index().insert(
                key@,
                Metadata { file_bytes, last_access },
            ),
            final(self).spec_used() == (if old(self).index().dom().contains(key@) {
                old(self).spec_used().saturating_sub(old(self).index()[key@].file_bytes)
            } else {
                old(self).spec_used()
            }).saturating_add(file_bytes),
            final(self).spec_clock() == old(self).spec_clock(),
            final(self).spec_max() == old(self).spec_max(),
            final(self).spec_dir() == old(self).spec_dir(),
            old(self).accounted() ==> final(self).accounted(),
    {
        let meta = Metadata { file_bytes, last_access };
        match crate::keyed::find_key(&self.entries, key.0) {
            Some(i) => {
                proof {
                    crate::keyed::lemma_pairs_map_at(self.entries@, i as int);
                    crate::keyed::lemma_pairs_map_update(self.entries@, i as int, meta);
                    lemma_total_update(self.entries@, i as int, (key.0, meta));
                    lemma_total_remove(self.entries@, i as int);
                }
                let previous = self.entries[i].1;
                self.used_bytes = self.used_bytes.saturating_sub(previous.file_bytes);
                self.entries.set(i, (key.0, meta));
            },
            None => {
                proof {
                    crate::keyed::lemma_pairs_map_push(self.entries@, key.0, meta);
                    lemma_total_push(self.entries@, (key.0, meta));
                }
                self.entries.push((key.0, meta));
            },
        }
        self.used_bytes = self.used_bytes.saturating_add(file_bytes);
    }

    /// Records an entry found while rescanning the directory: the clock
    /// catches up with its stamp and its bytes are added to the accounting
    /// (saturating; a rescan starts from an empty index).
    pub fn record_scanned(&mut self, key: TextureKey, header: Header)
        requires
            old(self).wf(),
        ensures
            final(self).wf(),
            final(self).index() == old(self).index().insert(
                key@,
                Metadata { file_bytes: header.file_bytes, last_access: header.last_access },
            ),
            final(self).spec_used() == old(self).spec_used().saturating_add(header.file_bytes),
            final(self).spec_clock() == if header.last_access > old(self).spec_clock() {
                header.last_access
            } else {
                old(self).spec_clock()
            },
            final(self).spec_max() == old(self).spec_max(),
            final(self).spec_dir() == old(self).spec_dir(),
            old(self).accounted() && !old(self).index().dom().contains(key@) ==> final(self).accounted(),
    {
        self.observe_access(header.last_access);
        let used = self.used_bytes;
        self.record(key, header.file_bytes, header.last_access);
        self.used_bytes = used.saturating_add(header.file_bytes);
    }

    /// Forgets `key`, releasing its bytes from the accounting (saturating).
    pub fn remove_metadata(&mut self, key: TextureKey)
        requires
            old(self).wf(),
        ensures
            final(self).wf(),
            final(self).index() == old(self).index().remove(key@),
            final(self).spec_used() == if old(self).index().dom().contains(key@) {
                old(self).spec_used().saturating_sub(old(self).index()[key@].file_bytes)
            } else {
                old(self).spec_used()
            },
            final(self).spec_clock() == old(self).spec_clock(),
            final(self).spec_max() == old(self).spec_max(),
            final(self).spec_dir() == old(self).spec_dir(),
            old(self).accounted() ==> final(self).accounted(),
    {
        match crate::keyed::find_key(&self.entries, key.0) {
            Some(i) => {
                proof {
                    crate::keyed::lemma_pairs_map_at(self.entries@, i as int);
                    crate::keyed::lemma_pairs_map_remove(self.entries@, i as int);
                    lemma_total_remove(self.entries@, i as int);
                }
                let previous = self.entries[i].1;
                self.used_bytes = self.used_bytes.saturating_sub(previous.file_bytes);
                self.entries.remove(i);
            },
            None => {
                assert(old(self).index().remove(key@) =~= old(self).index());
            },
        }
    }

    /// The least recently used key (oldest stamp, then smallest key), if
    /// any entry is indexed.
    pub fn eviction_victim(&self) -> (r: Option<TextureKey>)
        requires
            self.wf(),
        ensures
            match r {
                Some(k) => self.index().dom().contains(k@) && self.is_lru(k@),
                None => self.index() == Map::<u64, Metadata>::empty(),
            },
    {
        if self.entries.len() == 0 {
            assert(self.index() =~= Map::<u64, Metadata>::empty());
            return None;
        }
        let mut best: usize = 0;
        let mut i: usize = 1;
        while i < self.entries.len()
            invariant
                1 <= i <= self.entries@.len(),
                best < i,
                forall|j: int| 0 <= j < i ==> older(self.entries@[best as int], #[trigger] self.entries@[j]),
            decreases self.entries.len() - i,
        {
            let (bk, bm) = self.entries[best];
            let (k, m) = self.entries[i];
            if m.last_access < bm.last_access || (m.last_access == bm.last_access && k < bk) {
                best = i;
            }
            i += 1;
        }
        proof {
            crate::keyed::lemma_pairs_map_at(self.entries@, best as int);
        }
        Some(TextureKey(self.entries[best].0))
    }

    /// The next file to delete while the store is over its allowance: the
    /// least recently used key when the accounted bytes exceed the
    /// allowance; `None` once within it (or when nothing is left to delete).
    pub fn over_budget_victim(&self) -> (r: Option<TextureKey>)
        requires
            self.wf(),
        ensures
            r is None <==> (self.spec_used() <= self.spec_max() || self.index() == Map::<
                u64,
                Metadata,
            >::empty()),
            r matches Some(k) ==> self.index().dom().contains(k@) && self.is_lru(k@),
    {
        if self.used_bytes > self.max_bytes {
            let v = self.eviction_victim();
            if v.is_some() {
                assert(self.index().dom().len() > 0 || self.index().dom().contains(v->0@));
            }
            v
        } else {
            None
        }
    }

    /// Making room for a new file of `file_bytes` bytes: `Ok(None)` when it
    /// already fits, `Ok(Some(k))` naming the least recently used file to
    /// delete first, `Err(NoSpace)` when it does not fit and nothing is left
    /// to delete.
    pub fn reservation_victim(&self, file_bytes: u64) -> (r: Result<Option<TextureKey>, NoSpace>)
        requires
            self.wf(),
        ensures
            self.spec_used().saturating_add(file_bytes) <= self.spec_max() ==> r == Ok::<
                Option<TextureKey>,
                NoSpace,
            >(None),
            self.spec_used().saturating_add(file_bytes) > self.spec_max() ==> match r {
                Ok(Some(k)) => self.index().dom().contains(k@) && self.is_lru(k@),
                Ok(None) => false,
                Err(_) => self.index() == Map::<u64, Metadata>::empty(),
            },
    {
        if self.used_bytes.saturating_add(file_bytes) > self.max_bytes {
            match self.eviction_victim() {
                Some(k) => Ok(Some(k)),
                None => Err(NoSpace),
            }
        } else {
            Ok(None)
        }
    }

    /// Every key that left the index between `self` and `after` was used
    /// no later than every key that stayed (least recently used first),
    /// and the keys that stayed kept their metadata.
    pub open spec fn evicted_lru_first(&self, after: &Self) -> bool {
        &&& after.index().dom().subset_of(self.index().dom())
        &&& forall|k: u64| #[trigger] after.index().dom().contains(k) ==> after.index()[k] == self.index()[k]
        &&& forall|a: u64, b: u64|
            self.index().dom().contains(a) && !after.index().dom().contains(a) && after.index().dom().contains(b)
                ==> older((a, #[trigger] self.index()[a]), (b, #[trigger] after.index()[b]))
    }

    proof fn lemma_remove_lru_step(&self, mid: &Self, after: &Self, v: u64)
        requires
            self.wf(),
            mid.wf(),
            self.evicted_lru_first(mid),
            mid.is_lru(v),
            mid.index().dom().contains(v),
            after.index() == mid.index().remove(v),
        ensures
            self.evicted_lru_first(after),
    {
        let (m0, m1, m2) = (self.index(), mid.index(), after.index());
        let i = choose|i: int|
            0 <= i < mid.entries@.len() && mid.entries@[i].0 == v && forall|j: int|
                0 <= j < mid.entries@.len() ==> older(mid.entries@[i], #[trigger] mid.entries@[j]);
        crate::keyed::lemma_pairs_map_at(mid.entries@, i);
        assert forall|a: u64, b: u64|
            m0.dom().contains(a) && !m2.dom().contains(a) && m2.dom().contains(b) implies older(
            (a, #[trigger] m0[a]),
            (b, #[trigger] m2[b]),
        ) by {
            crate::keyed::lemma_pairs_map_dom(mid.entries@, b);
            let j = choose|j: int| 0 <= j < mid.entries@.len() && mid.entries@[j].0 == b;
            crate::keyed::lemma_pairs_map_at(mid.entries@, j);
            assert(older(mid.entries@[i], mid.entries@[j]));
            if a == v {
                assert(m1[v] == m0[v]);
            } else {
                assert(!m1.dom().contains(a));
                assert(older((a, m0[a]), (v, m1[v])));
            }
        }
    }

    /// `v` was removed between `self` and `after`, and every removed key
    /// was used no later than `v` (it was the last one removed).
    pub open spec fn last_removed(&self, after: &Self, v: u64) -> bool {
        &&& self.index().dom().contains(v)
        &&& !after.index().dom().contains(v)
        &&& forall|a: u64|
            self.index().dom().contains(a) && !after.index().dom().contains(a) ==> older(
                (a, #[trigger] self.index()[a]),
                (v, self.index()[v]),
            )
    }

    /// Removal stopped as soon as it could: nothing was removed, or putting
    /// the last removed file back (with `extra` more bytes) would exceed the
    /// allowance again.
    pub open spec fn removed_only_while_over(&self, after: &Self, extra: int) -> bool {
        ||| after.index() == self.index()
        ||| exists|v: u64|
            #[trigger] self.last_removed(after, v) && after.spec_used() + self.index()[v].file_bytes
                + extra > after.spec_max()
    }

    proof fn lemma_removal_needed(&self, mid: &Self, after: &Self, v: u64, extra: int)
        requires
            mid.wf(),
            self.evicted_lru_first(mid),
            mid.is_lru(v),
            mid.index().dom().contains(v),
            after.index() == mid.index().remove(v),
            after.spec_used() + mid.index()[v].file_bytes + extra > after.spec_max(),
        ensures
            self.removed_only_while_over(after, extra),
    {
        let i = choose|i: int|
            0 <= i < mid.entries@.len() && mid.entries@[i].0 == v && forall|j: int|
                0 <= j < mid.entries@.len() ==> older(mid.entries@[i], #[trigger] mid.entries@[j]);
        crate::keyed::lemma_pairs_map_at(mid.entries@, i);
        assert(self.index()[v] == mid.index()[v]);
        assert forall|a: u64|
            self.index().dom().contains(a) && !after.index().dom().contains(a) implies older(
            (a, #[trigger] self.index()[a]),
            (v, self.index()[v]),
        ) by {
            if a != v {
                assert(!mid.index().dom().contains(a));
            }
        }
        assert(self.last_removed(after, v));
    }

    /// Deleting stopped on a failure: `remove` answered `e` for the file of
    /// the least recently used key, which is still indexed.
    pub open spec fn stopped_on_failure<F: Fn(&String) -> Removal>(&self, remove: &F, e: String) -> bool {
        exists|k: u64|
            self.index().dom().contains(k) && self.is_lru(k) && #[trigger] removal_answer(
                remove,
                self.spec_dir(),
                k,
                Removal::Failed(e),
            )
    }

    /// Books the answer to deleting `victim`'s file: a failed deletion
    /// gives its reason and changes nothing; a deleted or missing file is
    /// forgotten, its bytes released from the accounting.
    pub fn apply_removal(&mut self, victim: TextureKey, outcome: Removal) -> (r: Option<String>)
        requires
            old(self).wf(),
        ensures
            final(self).wf(),
            match outcome {
                Removal::Failed(e) => r == Some(e) && *final(self) == *old(self),
                _ => {
                    &&& r is None
                    &&& final(self).index() == old(self).index().remove(victim@)
                    &&& final(self).spec_used() == if old(self).index().dom().contains(victim@) {
                        old(self).spec_used().saturating_sub(old(self).index()[victim@].file_bytes)
                    } else {
                        old(self).spec_used()
                    }
                    &&& final(self).spec_clock() == old(self).spec_clock()
                    &&& final(self).spec_max() == old(self).spec_max()
                    &&& final(self).spec_dir() == old(self).spec_dir()
                    &&& old(self).accounted() ==> final(self).accounted()
                },
            },
    {
        match outcome {
            Removal::Failed(e) => Some(e),
            Removal::Removed | Removal::Missing => {
                self.remove_metadata(victim);
                None
            },
        }
    }

    /// Deletes least recently used files, through `remove`, until a file
    /// of `file_bytes` bytes fits the allowance, and no more: nothing is
    /// deleted when it already fits, and the last file deleted was needed.
    /// A file leaves the index only once it was deleted (or found gone). A
    /// failed deletion stops with its reason, that file still indexed; when
    /// nothing is left to delete and the file still does not fit, there is
    /// no room (with consistent accounting, only for a file larger than the
    /// allowance).
    pub fn reserve_physical_space<F: Fn(&String) -> Removal>(&mut self, file_bytes: u64, remove: &F) -> (r: Result<(), String>)
        requires
            old(self).wf(),
            forall|p: &String| #[trigger] remove.requires((p,)),
        ensures
            final(self).wf(),
            old(self).evicted_lru_first(final(self)),
            final(self).spec_max() == old(self).spec_max(),
            final(self).spec_clock() == old(self).spec_clock(),
            final(self).spec_dir() == old(self).spec_dir(),
            forall|k: u64|
                old(self).index().dom().contains(k) && !final(self).index().dom().contains(k) ==> #[trigger] deleted_by(
                    remove,
                    old(self).spec_dir(),
                    k,
                ),
            r is Ok <==> final(self).spec_used().saturating_add(file_bytes) <= final(self).spec_max(),
            r matches Err(e) ==> (e@ == no_room_msg() && final(self).index() == Map::<u64, Metadata>::empty()) || final(self).stopped_on_failure(remove, e),
            old(self).accounted() && file_bytes <= old(self).spec_max() && r is Err ==> final(self).index()
                != Map::<u64, Metadata>::empty(),
            old(self).spec_used().saturating_add(file_bytes) <= old(self).spec_max() ==> r is Ok
                && final(self).index() == old(self).index() && final(self).spec_used() == old(self).spec_used(),
            old(self).removed_only_while_over(final(self), file_bytes as int),
            old(self).accounted() ==> final(self).accounted(),
    {
        let ghost start = *self;
        while self.used_bytes.saturating_add(file_bytes) > self.max_bytes
            invariant
                self.wf(),
                start.wf(),
                start == *old(self),
                forall|p: &String| #[trigger] remove.requires((p,)),
                start.evicted_lru_first(self),
                forall|k: u64|
                    start.index().dom().contains(k) && !self.index().dom().contains(k) ==> #[trigger] deleted_by(
                        remove,
                        start.spec_dir(),
                        k,
                    ),
                start.spec_used().saturating_add(file_bytes) <= start.spec_max() ==> self.index()
                    == start.index() && self.spec_used() == start.spec_used(),
                start.removed_only_while_over(self, file_bytes as int),
                start.accounted() ==> self.accounted(),
                self.spec_max() == start.spec_max(),
                self.spec_clock() == start.spec_clock(),
                self.spec_dir() == start.spec_dir(),
            decreases self.entries@.len(),
        {
            let victim = match self.eviction_victim() {
                Some(v) => v,
                None => {
                    proof {
                        lemma_index_len(self.entries@);
                    }
                    return Err("unable to reserve texture cache space".to_owned());
                },
            };
            let path = self.path(victim);
            let outcome = remove(&path);
            let ghost seen = outcome;
            let ghost mid = *self;
            proof {
                assert(remove.ensures((&path,), seen));
            }
            match self.apply_removal(victim, outcome) {
                Some(e) => {
                    proof {
                        assert(seen == Removal::Failed(e));
                        assert(removal_answer(remove, self.spec_dir(), victim@, Removal::Failed(e)));
                        assert(*self == mid);
                        assert(self.index().dom().contains(victim@) && self.is_lru(victim@));
                        assert(self.stopped_on_failure(remove, e));
                    }
                    return Err(e);
                },
                None => {},
            }
            proof {
                assert(removal_answer(remove, start.spec_dir(), victim@, seen));
                assert forall|k: u64| start.index().dom().contains(k) && !self.index().dom().contains(k) implies #[trigger] deleted_by(
                    remove,
                    start.spec_dir(),
                    k,
                ) by {
                    if k != victim@ {
                        assert(!mid.index().dom().contains(k));
                    }
                }
                start.lemma_remove_lru_step(&mid, self, victim@);
                assert(self.spec_used() + mid.index()[victim@].file_bytes + file_bytes > self.spec_max());
                start.lemma_removal_needed(&mid, self, victim@, file_bytes as int);
                lemma_index_len(mid.entries@);
                lemma_index_len(self.entries@);
            }
        }
        Ok(())
    }

    /// Deletes least recently used files, through `remove`, while the
    /// accounted bytes exceed the allowance (stopping when nothing is left),
    /// and no more: within the allowance it deletes nothing and succeeds.
    /// A file leaves the index only once it was deleted (or found gone); a
    /// failed deletion stops with its reason, that file still indexed.
    pub fn evict<F: Fn(&String) -> Removal>(&mut self, remove: &F) -> (r: Result<(), String>)
        requires
            old(self).wf(),
            forall|p: &String| #[trigger] remove.requires((p,)),
        ensures
            final(self).wf(),
            old(self).evicted_lru_first(final(self)),
            final(self).spec_max() == old(self).spec_max(),
            final(self).spec_clock() == old(self).spec_clock(),
            final(self).spec_dir() == old(self).spec_dir(),
            forall|k: u64|
                old(self).index().dom().contains(k) && !final(self).index().dom().contains(k) ==> #[trigger] deleted_by(
                    remove,
                    old(self).spec_dir(),
                    k,
                ),
            r is Ok ==> final(self).spec_used() <= final(self).spec_max() || final(self).index() == Map::<u64, Metadata>::empty(),
            r is Err ==> final(self).spec_used() > final(self).spec_max(),
            r matches Err(e) ==> final(self).stopped_on_failure(remove, e),
            old(self).spec_used() <= old(self).spec_max() ==> r is Ok && final(self).index() == old(self).index()
                && final(self).spec_used() == old(self).spec_used(),
            old(self).removed_only_while_over(final(self), 0),
            old(self).accounted() ==> final(self).accounted(),
            old(self).accounted() && r is Ok ==> final(self).spec_used() <= final(self).spec_max(),
    {
        let ghost start = *self;
        while self.used_bytes > self.max_bytes
            invariant
                self.wf(),
                start.wf(),
                start == *old(self),
                forall|p: &String| #[trigger] remove.requires((p,)),
                start.evicted_lru_first(self),
                forall|k: u64|
                    start.index().dom().contains(k) && !self.index().dom().contains(k) ==> #[trigger] deleted_by(
                        remove,
                        start.spec_dir(),
                        k,
                    ),
                start.spec_used() <= start.spec_max() ==> self.index() == start.index() && self.spec_used()
                    == start.spec_used(),
                start.removed_only_while_over(self, 0),
                start.accounted() ==> self.accounted(),
                self.spec_max() == start.spec_max(),
                self.spec_clock() == start.spec_clock(),
                self.spec_dir() == start.spec_dir(),
            decreases self.entries@.len(),
        {
            let victim = match self.eviction_victim() {
                Some(v) => v,
                None => {
                    proof {
                        lemma_index_len(self.entries@);
                    }
                    return Ok(());
                },
            };
            let path = self.path(victim);
            let outcome = remove(&path);
            let ghost seen = outcome;
            let ghost mid = *self;
            proof {
                assert(remove.ensures((&path,), seen));
            }
            match self.apply_removal(victim, outcome) {
                Some(e) => {
                    proof {
                        assert(seen == Removal::Failed(e));
                        assert(removal_answer(remove, self.spec_dir(), victim@, Removal::Failed(e)));
                        assert(*self == mid);
                        assert(self.spec_used() > self.spec_max());
                        assert(self.index().dom().contains(victim@) && self.is_lru(victim@));
                        assert(self.stopped_on_failure(remove, e));
                    }
                    return Err(e);
                },
                None => {},
            }
            proof {
                assert(removal_answer(remove, start.spec_dir(), victim@, seen));
                assert forall|k: u64| start.index().dom().contains(k) && !self.index().dom().contains(k) implies #[trigger] deleted_by(
                    remove,
                    start.spec_dir(),
                    k,
                ) by {
                    if k != victim@ {
                        assert(!mid.index().dom().contains(k));
                    }
                }
                start.lemma_remove_lru_step(&mid, self, victim@);
                assert(self.spec_used() + mid.index()[victim@].file_bytes + 0 > self.spec_max());
                start.lemma_removal_needed(&mid, self, victim@, 0);
                lemma_index_len(mid.entries@);
                lemma_index_len(self.entries@);
            }
        }
        Ok(())
    }

    /// A save keeps what it stored: once room was reserved for a file of
    /// `file_bytes` bytes (the reservation succeeded) and the file was
    /// recorded under `key`, the eviction that follows removes nothing, so
    /// the new file stays indexed with its size and stamp.
    pub proof fn lemma_saved_file_is_kept(
        reserved: &Self,
        recorded: &Self,
        after: &Self,
        key: u64,
        file_bytes: u64,
        stamp: u64,
    )
        requires
            reserved.spec_used().saturating_add(file_bytes) <= reserved.spec_max(),
            recorded.index() == reserved.index().insert(key, (Metadata { file_bytes, last_access: stamp })),
            recorded.spec_used() == (if reserved.index().dom().contains(key) {
                reserved.spec_used().saturating_sub(reserved.index()[key].file_bytes)
            } else {
                reserved.spec_used()
            }).saturating_add(file_bytes),
            recorded.spec_max() == reserved.spec_max(),
            recorded.spec_used() <= recorded.spec_max() ==> after.index() == recorded.index(),
        ensures
            after.index().dom().contains(key),
            after.index()[key] == (Metadata { file_bytes, last_access: stamp }),
    {
    }

    /// The index rebuilt from a directory listing, file by file: valid
    /// texture files are recorded (see `scan_step`), everything else is
    /// left out.
    pub open spec fn scan_fold(files: Seq<ScannedFile>, max: u64) -> (Map<u64, Metadata>, u64, u64)
        decreases files.len(),
    {
        if files.len() == 0 {
            (Map::empty(), 0, 0)
        } else {
            let (index, used, clock) = Self::scan_fold(files.drop_last(), max);
            let f = files.last();
            match scanned_entry(f, max) {
                Some((k, h)) => (
                    index.insert(k, Metadata { file_bytes: h.file_bytes, last_access: h.last_access }),
                    used.saturating_add(h.file_bytes),
                    if h.last_access > clock { h.last_access } else { clock },
                ),
                None => (index, used, clock),
            }
        }
    }

    /// Every key of a rebuilt index comes from some file of the listing.
    proof fn lemma_scan_fold_key(files: Seq<ScannedFile>, max: u64, k: u64)
        requires
            Self::scan_fold(files, max).0.dom().contains(k),
        ensures
            exists|j: int|
                0 <= j < files.len() && (#[trigger] scanned_entry(files[j], max)) is Some && scanned_entry(files[j], max).unwrap().0 == k,
        decreases files.len(),
    {
        if files.len() > 0 {
            let rest = files.drop_last();
            let last = files.len() - 1;
            match scanned_entry(files.last(), max) {
                Some((k2, h)) => {
                    if k2 == k {
                        assert(scanned_entry(files[last], max) is Some);
                    } else {
                        Self::lemma_scan_fold_key(rest, max, k);
                        let j = choose|j: int|
                            0 <= j < rest.len() && (#[trigger] scanned_entry(rest[j], max)) is Some && scanned_entry(rest[j], max).unwrap().0 == k;
                        assert(rest[j] == files[j]);
                    }
                },
                None => {
                    Self::lemma_scan_fold_key(rest, max, k);
                    let j = choose|j: int|
                        0 <= j < rest.len() && (#[trigger] scanned_entry(rest[j], max)) is Some && scanned_entry(rest[j], max).unwrap().0 == k;
                    assert(rest[j] == files[j]);
                },
            }
        }
    }

    /// Rebuilds the index from a listing of the namespace directory:
    /// accounting and clock restart, every texture file with a valid header
    /// is recorded, and the names of leftover temporary files and of
    /// invalid texture files are returned for deletion (other files are
    /// ignored).
    pub fn rebuild_index(&mut self, files: &Vec<ScannedFile>) -> (r: Vec<String>)
        requires
            old(self).wf(),
        ensures
            final(self).wf(),
            (final(self).index(), final(self).spec_used(), final(self).spec_clock())
                == Self::scan_fold(files@, old(self).spec_max()),
            r@.map_values(|n: String| n@) == doomed_names(files@, old(self).spec_max()),
            scanned_keys_distinct(files@, old(self).spec_max()) ==> final(self).accounted(),
            final(self).spec_max() == old(self).spec_max(),
            final(self).spec_dir() == old(self).spec_dir(),
    {
        self.reset_index();
        let mut doomed: Vec<String> = Vec::new();
        let mut i: usize = 0;
        assert(files@.take(0) =~= Seq::<ScannedFile>::empty());
        assert(self.index() =~= Map::<u64, Metadata>::empty());
        assert(doomed@.map_values(|n: String| n@) =~= Seq::<Seq<char>>::empty());
        while i < files.len()
            invariant
                i <= files.len(),
                self.wf(),
                self.spec_max() == old(self).spec_max(),
                self.spec_dir() == old(self).spec_dir(),
                (self.index(), self.spec_used(), self.spec_clock()) == Self::scan_fold(
                    files@.take(i as int),
                    self.spec_max(),
                ),
                doomed@.map_values(|n: String| n@) == doomed_names(
                    files@.take(i as int),
                    self.spec_max(),
                ),
                scanned_keys_distinct(files@, self.spec_max()) ==> self.accounted(),
            decreases files.len() - i,
        {
            let ghost pre = files@.take(i as int);
            assert(files@.take(i + 1).drop_last() =~= pre);
            assert(files@.take(i + 1).last() == files@[i as int]);
            let f = &files[i];
            let ghost before = doomed@;
            if has_extension(f.name.as_str(), "tmp") {
                doomed.push(f.name.clone());
                assert(doomed@.map_values(|n: String| n@) =~= before.map_values(|n: String| n@).push(f.name@));
            } else {
                match key_from_file_name(f.name.as_str()) {
                    None => {},
                    Some(key) => {
                        match validate_file(f.head.as_slice(), f.file_bytes, self.max_bytes) {
                            Some(header) => {
                                proof {
                                    if scanned_keys_distinct(files@, self.spec_max()) && self.index().dom().contains(key@) {
                                        Self::lemma_scan_fold_key(pre, self.spec_max(), key@);
                                        let j = choose|j: int|
                                            0 <= j < pre.len() && (#[trigger] scanned_entry(pre[j], self.spec_max())) is Some
                                                && scanned_entry(pre[j], self.spec_max()).unwrap().0 == key@;
                                        assert(pre[j] == files@[j]);
                                        assert(scanned_entry(files@[i as int], self.spec_max()) == Some((key@, header)));
                                        assert(false);
                                    }
                                }
                                self.record_scanned(key, header);
                            },
                            None => {
                                doomed.push(f.name.clone());
                                assert(doomed@.map_values(|n: String| n@) =~= before.map_values(|n: String| n@).push(f.name@));
                            },
                        }
                    },
                }
            }
            i += 1;
        }
        assert(files@.take(files.len() as int) =~= files@);
        doomed
    }

    /// Bookkeeping of a successful load of `key` whose file has `header`:
    /// the clock catches up with the stored stamp, a fresh access stamp is
    /// taken and returned (to be written back into the file), and the
    /// entry is recorded with it.
    pub fn record_load(&mut self, key: TextureKey, header: Header) -> (r: u64)
        requires
            old(self).wf(),
        ensures
            final(self).wf(),
            r >= header.last_access,
            r >= old(self).spec_clock(),
            r > old(self).spec_clock() || r == u64::MAX,
            final(self).spec_clock() == r,
            final(self).index() == old(self).index().insert(
                key@,
                Metadata { file_bytes: header.file_bytes, last_access: r },
            ),
            final(self).spec_used() == (if old(self).index().dom().contains(key@) {
                old(self).spec_used().saturating_sub(old(self).index()[key@].file_bytes)
            } else {
                old(self).spec_used()
            }).saturating_add(header.file_bytes),
            final(self).spec_max() == old(self).spec_max(),
            final(self).spec_dir() == old(self).spec_dir(),
            old(self).accounted() ==> final(self).accounted(),
    {
        self.observe_access(header.last_access);
        let access = self.next_access();
        self.record(key, header.file_bytes, access);
        access
    }

    /// Checks the file found for `key` on a load, from its first bytes and
    /// its size: a valid texture file gives its header (the payload to read
    /// follows it) and changes nothing; any other file is forgotten, its
    /// bytes released from the accounting, and is to be deleted, the load
    /// answering that there is no texture.
    pub fn check_loaded_file(&mut self, key: TextureKey, head: &[u8], file_bytes: u64) -> (r: Option<Header>)
        requires
            old(self).wf(),
        ensures
            final(self).wf(),
            r == validate_file_spec(head@, file_bytes, old(self).spec_max()),
            r is Some ==> final(self).index() == old(self).index() && final(self).spec_used() == old(self).spec_used(),
            r is None ==> final(self).index() == old(self).index().remove(key@) && final(self).spec_used() == if old(
                self,
            ).index().dom().contains(key@) {
                old(self).spec_used().saturating_sub(old(self).index()[key@].file_bytes)
            } else {
                old(self).spec_used()
            },
            final(self).spec_clock() == old(self).spec_clock(),
            final(self).spec_max() == old(self).spec_max(),
            final(self).spec_dir() == old(self).spec_dir(),
            old(self).accounted() ==> final(self).accounted(),
    {
        let checked = validate_file(head, file_bytes, self.max_bytes);
        if checked.is_none() {
            self.remove_metadata(key);
        }
        checked
    }

    /// Size of the file a save of `payload` writes, or `None` when it can
    /// never fit the allowance and is skipped; invalid textures are
    /// rejected.
    pub fn plan_save(&self, payload: &TexturePayload) -> (r: Result<Option<u64>, InvalidTexture>)
        ensures
            r is Err <==> !dimensions_ok(payload.width, payload.height, payload.bytes@.len() as int),
            r matches Ok(plan) ==> (plan == if HEADER_LEN + payload.bytes@.len() > self.spec_max() {
                None::<u64>
            } else {
                Some((HEADER_LEN + payload.bytes@.len()) as u64)
            }),
    {
        let len = validate_payload(payload)?;
        assert(len <= 4194304) by (nonlinear_arith)
            requires
                len == payload.width as int * payload.height as int * 4,
                payload.width <= 1024,
                payload.height <= 1024,
        ;
        let file_bytes = HEADER_LEN as u64 + len;
        if file_bytes > self.max_bytes {
            Ok(None)
        } else {
            Ok(Some(file_bytes))
        }
    }
}

} // verus!
