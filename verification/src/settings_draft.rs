//! The text fields of the settings window and how an edit is validated
//! and applied to the settings.

use vstd::prelude::*;

use crate::gibibytes::{
    all_digits, all_digits_in, dec_value, digits_value_u64, format_gib_spec, format_gibibytes,
    parse_gib_spec, parse_gibibytes, trim_white_space, trim_ws,
};
use crate::settings::{allowance, limit_of, Settings, MAX_CACHE_MB};
use crate::text::{chars_of, decimal, push_decimal, split_chars, split_on, string_from_chars};

verus! {

/// Which field of the settings window has the keyboard.
#[derive(Clone, Copy, Debug, PartialEq, Eq, Structural)]
pub enum SettingsField {
    Extensions,
    Folders,
    CacheMb,
    DiskCacheGb,
    NodePadding,
}

/// The settings window's text fields while they are being edited.
pub struct SettingsDraft {
    pub filter_extensions: String,
    pub filter_folders: String,
    pub cache_mb: String,
    pub disk_cache_gb: String,
    pub node_padding: String,
    pub notification: Option<String>,
    pub active: SettingsField,
}

/// `items` joined with `", "`.
pub open spec fn join_comma(items: Seq<Seq<char>>) -> Seq<char>
    decreases items.len(),
{
    if items.len() == 0 {
        Seq::empty()
    } else if items.len() == 1 {
        items[0]
    } else {
        join_comma(items.drop_last()) + ", "@ + items.last()
    }
}

/// The entries of a comma-separated list: each piece trimmed of white
/// space, empty pieces dropped.
pub open spec fn list_entries(pieces: Seq<Seq<char>>) -> Seq<Seq<char>>
    decreases pieces.len(),
{
    if pieces.len() == 0 {
        Seq::empty()
    } else {
        let rest = list_entries(pieces.drop_last());
        let t = trim_ws(pieces.last());
        if t.len() > 0 { rest.push(t) } else { rest }
    }
}

/// The entries typed into a list field.
pub open spec fn parse_list_spec(text: Seq<char>) -> Seq<Seq<char>> {
    list_entries(split_on(text, ','))
}

/// A `u32` as `str::parse` reads it from trimmed text: an optional `+`,
/// then at least one digit, with a value that fits.
pub open spec fn parse_u32_spec(t: Seq<char>) -> Option<u32> {
    let digits = if t.len() > 0 && t[0] == '+' { t.skip(1) } else { t };
    if digits.len() > 0 && all_digits(digits) && dec_value(digits) <= u32::MAX {
        Some(dec_value(digits) as u32)
    } else {
        None
    }
}

/// Error for a memory cache size that is not a `u32`.
pub open spec fn cache_not_number_msg() -> Seq<char> {
    "Texture cache must be a whole number of MB within range"@
}

/// Error for a memory cache size outside `1..=MAX_CACHE_MB`.
pub open spec fn cache_range_msg() -> Seq<char> {
    "Texture cache must be between 1 and 4095 MB"@
}

fn join_comma_exec(items: &Vec<String>) -> (r: String)
    ensures
        r@ == join_comma(items@.map_values(|s: String| s@)),
{
    let mut out: Vec<char> = Vec::new();
    let mut i: usize = 0;
    while i < items.len()
        invariant
            i <= items.len(),
            out@ == join_comma(items@.map_values(|s: String| s@).take(i as int)),
        decreases items.len() - i,
    {
        let ghost ms = items@.map_values(|s: String| s@);
        assert(ms.take(i + 1).drop_last() =~= ms.take(i as int));
        assert(ms.take(i + 1).last() == items@[i as int]@);
        if i > 0 {
            crate::text::push_str_chars(&mut out, ", ");
        } else {
            assert(ms.take(1)[0] == items@[0]@);
        }
        crate::text::push_str_chars(&mut out, items[i].as_str());
        i += 1;
    }
    assert(items@.map_values(|s: String| s@).take(items.len() as int) =~= items@.map_values(
        |s: String| s@,
    ));
    string_from_chars(&out)
}

fn parse_list(text: &str) -> (r: Vec<String>)
    ensures
        r@.map_values(|s: String| s@) == parse_list_spec(text@),
{
    let chars = chars_of(text);
    let pieces = split_chars(&chars, ',');
    let ghost ps = pieces@.map_values(|w: Vec<char>| w@);
    let mut out: Vec<String> = Vec::new();
    let mut i: usize = 0;
    assert(ps.take(0) =~= Seq::<Seq<char>>::empty());
    assert(out@.map_values(|s: String| s@) =~= Seq::<Seq<char>>::empty());
    while i < pieces.len()
        invariant
            i <= pieces.len(),
            ps == pieces@.map_values(|w: Vec<char>| w@),
            out@.map_values(|s: String| s@) == list_entries(ps.take(i as int)),
        decreases pieces.len() - i,
    {
        assert(ps.take(i + 1).drop_last() =~= ps.take(i as int));
        assert(ps.take(i + 1).last() == pieces@[i as int]@);
        let t = trim_white_space(&pieces[i]);
        if t.len() > 0 {
            let ghost before = out@;
            let s = string_from_chars(&t);
            out.push(s);
            assert(out@.map_values(|s: String| s@) =~= before.map_values(|s: String| s@).push(t@));
        }
        i += 1;
    }
    assert(ps.take(pieces.len() as int) =~= ps);
    out
}

fn parse_u32(text: &str) -> (r: Option<u32>)
    ensures
        r == parse_u32_spec(trim_ws(text@)),
{
    let raw = chars_of(text);
    let t = trim_white_space(&raw);
    let start: usize = if t.len() > 0 && t[0] == '+' { 1 } else { 0 };
    let ghost digits = if t@.len() > 0 && t@[0] == '+' { t@.skip(1) } else { t@ };
    assert(digits =~= t@.subrange(start as int, t@.len() as int));
    if start == t.len() || !all_digits_in(&t, start, t.len()) {
        return None;
    }
    match digits_value_u64(&t, start, t.len()) {
        Some(v) => {
            if v > u32::MAX as u64 {
                None
            } else {
                Some(v as u32)
            }
        },
        None => None,
    }
}

impl SettingsDraft {
    /// The fields for editing `s` as it applies to the project filed under
    /// `project_key`: lists joined by `", "`, sizes as whole MB and exact
    /// GiB, the node padding as given, the extension list active.
    pub fn from_settings(s: &Settings, project_key: &str, node_padding: String) -> (r: Self)
        ensures
            r.filter_extensions@ == join_comma(s.filter_extensions@.map_values(|x: String| x@)),
            r.filter_folders@ == join_comma(s.filter_folders@.map_values(|x: String| x@)),
            r.cache_mb@ == decimal(s.cache_mb as nat),
            r.disk_cache_gb@ == format_gib_spec(allowance(s.disk_cache_bytes@, project_key@)),
            r.node_padding == node_padding,
            r.notification is None,
            r.active == SettingsField::Extensions,
    {
        let mut mb: Vec<char> = Vec::new();
        push_decimal(&mut mb, s.cache_mb as u128);
        SettingsDraft {
            filter_extensions: join_comma_exec(&s.filter_extensions),
            filter_folders: join_comma_exec(&s.filter_folders),
            cache_mb: string_from_chars(&mb),
            disk_cache_gb: format_gibibytes(s.disk_cache_bytes_for_key(project_key)),
            node_padding,
            notification: None,
            active: SettingsField::Extensions,
        }
    }

    /// The text of the active field.
    pub fn active_text(&self) -> (r: &String)
        ensures
            r == match self.active {
                SettingsField::Extensions => &self.filter_extensions,
                SettingsField::Folders => &self.filter_folders,
                SettingsField::CacheMb => &self.cache_mb,
                SettingsField::DiskCacheGb => &self.disk_cache_gb,
                SettingsField::NodePadding => &self.node_padding,
            },
    {
        match self.active {
            SettingsField::Extensions => &self.filter_extensions,
            SettingsField::Folders => &self.filter_folders,
            SettingsField::CacheMb => &self.cache_mb,
            SettingsField::DiskCacheGb => &self.disk_cache_gb,
            SettingsField::NodePadding => &self.node_padding,
        }
    }

    /// Applies the draft to `settings` for the project filed under
    /// `project_key`. The memory cache size must be a whole number in
    /// `1..=MAX_CACHE_MB`, the disk size valid GiB text, and the node
    /// padding (checked by the caller, whose verdict is `node_padding`)
    /// acceptable; the first failure is returned and `settings` is left
    /// untouched. Otherwise the lists are replaced by their entries, the
    /// welcome screen is turned off, and the sizes are stored.
    pub fn apply_to(
        &self,
        settings: &mut Settings,
        project_key: String,
        node_padding: Result<(), String>,
    ) -> (r: Result<(), String>)
        requires
            old(settings).wf(),
        ensures
            ({
                let mb = parse_u32_spec(trim_ws(self.cache_mb@));
                let disk = parse_gib_spec(self.disk_cache_gb@);
                match r {
                    Err(e) => {
                        &&& *final(settings) == *old(settings)
                        &&& if mb is None {
                            e@ == cache_not_number_msg()
                        } else if mb->0 == 0 || mb->0 > MAX_CACHE_MB {
                            e@ == cache_range_msg()
                        } else if disk is Err {
                            e@ == disk->Err_0
                        } else {
                            node_padding == Err::<(), String>(e)
                        }
                    },
                    Ok(_) => {
                        &&& mb is Some && 0 < mb->0 <= MAX_CACHE_MB
                        &&& disk is Ok
                        &&& node_padding is Ok
                        &&& final(settings).wf()
                        &&& final(settings).filter_extensions@.map_values(|x: String| x@)
                            == parse_list_spec(self.filter_extensions@)
                        &&& final(settings).filter_folders@.map_values(|x: String| x@)
                            == parse_list_spec(self.filter_folders@)
                        &&& !final(settings).show_welcome
                        &&& final(settings).cache_mb == mb->0
                        &&& limit_of(final(settings).disk_cache_bytes@, project_key@) == Some(disk->Ok_0)
                        &&& forall|k: Seq<char>| k != project_key@ ==> #[trigger] limit_of(
                            final(settings).disk_cache_bytes@,
                            k,
                        ) == limit_of(old(settings).disk_cache_bytes@, k)
                        &&& final(settings).filter_files == old(settings).filter_files
                        &&& final(settings).show_churn == old(settings).show_churn
                        &&& final(settings).max_display_lines == old(settings).max_display_lines
                    },
                }
            }),
    {
        let cache_mb = match parse_u32(self.cache_mb.as_str()) {
            Some(m) => m,
            None => {
                return Err("Texture cache must be a whole number of MB within range".to_owned());
            },
        };
        if cache_mb == 0 || cache_mb > MAX_CACHE_MB {
            return Err("Texture cache must be between 1 and 4095 MB".to_owned());
        }
        let disk_cache_bytes = match parse_gibibytes(self.disk_cache_gb.as_str()) {
            Ok(b) => b,
            Err(e) => {
                return Err(e);
            },
        };
        match node_padding {
            Ok(()) => {},
            Err(e) => {
                return Err(e);
            },
        }
        settings.filter_extensions = parse_list(self.filter_extensions.as_str());
        settings.filter_folders = parse_list(self.filter_folders.as_str());
        settings.show_welcome = false;
        settings.cache_mb = cache_mb;
        settings.set_disk_cache_bytes_for_key(project_key, disk_cache_bytes);
        Ok(())
    }
}

/// Saving an unchanged draft keeps a project's stored allowance exactly:
/// the GiB text shown for any non-zero allowance parses back to it.
pub proof fn lemma_unchanged_disk_text_round_trips(bytes: u64)
    requires
        bytes > 0,
    ensures
        parse_gib_spec(format_gib_spec(bytes)) == Ok::<u64, Seq<char>>(bytes),
{
    crate::gibibytes::lemma_parse_format_round_trip(bytes);
}


/// The field after `f` in tab order (wrapping round to the first).
pub open spec fn next_field_spec(f: SettingsField) -> SettingsField {
    match f {
        SettingsField::Extensions => SettingsField::Folders,
        SettingsField::Folders => SettingsField::CacheMb,
        SettingsField::CacheMb => SettingsField::DiskCacheGb,
        SettingsField::DiskCacheGb => SettingsField::NodePadding,
        SettingsField::NodePadding => SettingsField::Extensions,
    }
}

impl SettingsField {
    /// The field after this one in tab order.
    pub fn next(self) -> (r: SettingsField)
        ensures
            r == next_field_spec(self),
    {
        match self {
            SettingsField::Extensions => SettingsField::Folders,
            SettingsField::Folders => SettingsField::CacheMb,
            SettingsField::CacheMb => SettingsField::DiskCacheGb,
            SettingsField::DiskCacheGb => SettingsField::NodePadding,
            SettingsField::NodePadding => SettingsField::Extensions,
        }
    }
}

/// Whether typing `c` into field `f` is kept: the list fields take any
/// character, the number fields only digits, and the fractional ones
/// (disk size, node padding) also a decimal point.
pub open spec fn accepts_char(f: SettingsField, c: char) -> bool {
    match f {
        SettingsField::Extensions | SettingsField::Folders => true,
        SettingsField::CacheMb => '0' <= c <= '9',
        SettingsField::DiskCacheGb | SettingsField::NodePadding => ('0' <= c <= '9') || c == '.',
    }
}

/// The text of field `f` of draft `d`.
pub open spec fn field_text(d: SettingsDraft, f: SettingsField) -> Seq<char> {
    match f {
        SettingsField::Extensions => d.filter_extensions@,
        SettingsField::Folders => d.filter_folders@,
        SettingsField::CacheMb => d.cache_mb@,
        SettingsField::DiskCacheGb => d.disk_cache_gb@,
        SettingsField::NodePadding => d.node_padding@,
    }
}

/// `after` is `before` with only the text of field `f` changed, to `t`.
pub open spec fn edited(before: SettingsDraft, after: SettingsDraft, f: SettingsField, t: Seq<char>) -> bool {
    &&& after.active == before.active
    &&& after.notification == before.notification
    &&& field_text(after, f) == t
    &&& forall|g: SettingsField| g != f ==> field_text(after, g) == field_text(before, g)
}

/// What a key does to the open settings window.
#[derive(Clone, Copy, Debug, PartialEq, Eq, Structural)]
pub enum DraftKey {
    /// Escape: close the window without applying.
    Close,
    /// Tab: move to the next field.
    NextField,
    /// Backspace: delete the last character of the active field.
    DeleteChar,
    /// A typed character, kept when the active field accepts it.
    Type(char),
    /// Anything else.
    Ignore,
}

fn without_last(s: &String) -> (r: String)
    ensures
        r@ == (if s@.len() > 0 { s@.drop_last() } else { s@ }),
{
    let mut v = chars_of(s.as_str());
    if v.len() > 0 {
        v.pop();
    }
    string_from_chars(&v)
}

impl SettingsDraft {
    /// Replaces the text of field `f`.
    fn set_field(&mut self, f: SettingsField, t: String)
        ensures
            edited(*old(self), *final(self), f, t@),
    {
        match f {
            SettingsField::Extensions => self.filter_extensions = t,
            SettingsField::Folders => self.filter_folders = t,
            SettingsField::CacheMb => self.cache_mb = t,
            SettingsField::DiskCacheGb => self.disk_cache_gb = t,
            SettingsField::NodePadding => self.node_padding = t,
        }
    }

    /// Types `ch` into the active field when it accepts it (see
    /// `accepts_char`); nothing else changes.
    pub fn type_char(&mut self, ch: char)
        ensures
            edited(
                *old(self),
                *final(self),
                old(self).active,
                if accepts_char(old(self).active, ch) {
                    field_text(*old(self), old(self).active).push(ch)
                } else {
                    field_text(*old(self), old(self).active)
                },
            ),
    {
        let f = self.active;
        let digit = '0' <= ch && ch <= '9';
        let ok = match f {
            SettingsField::Extensions | SettingsField::Folders => true,
            SettingsField::CacheMb => digit,
            SettingsField::DiskCacheGb | SettingsField::NodePadding => digit || ch == '.',
        };
        let mut t = self.active_text().clone();
        if ok {
            crate::text::push_char(&mut t, ch);
        }
        self.set_field(f, t);
    }

    /// Deletes the last character of the active field, if it has one.
    pub fn backspace(&mut self)
        ensures
            edited(
                *old(self),
                *final(self),
                old(self).active,
                if field_text(*old(self), old(self).active).len() > 0 {
                    field_text(*old(self), old(self).active).drop_last()
                } else {
                    field_text(*old(self), old(self).active)
                },
            ),
    {
        let f = self.active;
        let t = without_last(self.active_text());
        self.set_field(f, t);
    }

    /// Handles a key while the settings window is open; returns whether
    /// the window closes.
    pub fn on_key(&mut self, key: DraftKey) -> (close: bool)
        ensures
            close == (key == DraftKey::Close),
            key == DraftKey::Close || key == DraftKey::Ignore ==> *final(self) == *old(self),
            key == DraftKey::NextField ==> final(self).active == next_field_spec(old(self).active)
                && forall|g: SettingsField| field_text(*final(self), g) == field_text(*old(self), g),
            key matches DraftKey::Type(ch) ==> edited(
                *old(self),
                *final(self),
                old(self).active,
                if accepts_char(old(self).active, ch) {
                    field_text(*old(self), old(self).active).push(ch)
                } else {
                    field_text(*old(self), old(self).active)
                },
            ),
            key == DraftKey::DeleteChar ==> edited(
                *old(self),
                *final(self),
                old(self).active,
                if field_text(*old(self), old(self).active).len() > 0 {
                    field_text(*old(self), old(self).active).drop_last()
                } else {
                    field_text(*old(self), old(self).active)
                },
            ),
    {
        match key {
            DraftKey::Close => true,
            DraftKey::NextField => {
                self.active = self.active.next();
                false
            },
            DraftKey::DeleteChar => {
                self.backspace();
                false
            },
            DraftKey::Type(ch) => {
                self.type_char(ch);
                false
            },
            DraftKey::Ignore => false,
        }
    }
}

/// The field reached from `f` after `k` tabs.
pub open spec fn nth_field(f: SettingsField, k: nat) -> SettingsField
    decreases k,
{
    if k == 0 {
        f
    } else {
        next_field_spec(nth_field(f, (k - 1) as nat))
    }
}

/// Five tabs bring the keyboard back to the field it started on, and the
/// fields met on the way are all different (so each field is visited).
pub proof fn lemma_tab_cycles_through_every_field(f: SettingsField)
    ensures
        nth_field(f, 5) == f,
        forall|i: nat, j: nat| i < j < 5 ==> #[trigger] nth_field(f, i) != #[trigger] nth_field(f, j),
{
    assert(nth_field(f, 0) == f);
    assert(nth_field(f, 1) == next_field_spec(f));
    assert(nth_field(f, 2) == next_field_spec(nth_field(f, 1)));
    assert(nth_field(f, 3) == next_field_spec(nth_field(f, 2)));
    assert(nth_field(f, 4) == next_field_spec(nth_field(f, 3)));
    assert(nth_field(f, 5) == next_field_spec(nth_field(f, 4)));
    assert forall|i: nat, j: nat| i < j < 5 implies #[trigger] nth_field(f, i) != #[trigger] nth_field(f, j) by {
        assert(i == 0 || i == 1 || i == 2 || i == 3);
        assert(j == 1 || j == 2 || j == 3 || j == 4);
    }
}

/// A kept character is removed again by one backspace: after typing it
/// and deleting, every field holds what it held before, and the same field
/// is active.
pub proof fn lemma_type_then_backspace(d0: SettingsDraft, d1: SettingsDraft, d2: SettingsDraft, ch: char)
    requires
        accepts_char(d0.active, ch),
        edited(d0, d1, d0.active, field_text(d0, d0.active).push(ch)),
        edited(
            d1,
            d2,
            d1.active,
            if field_text(d1, d1.active).len() > 0 {
                field_text(d1, d1.active).drop_last()
            } else {
                field_text(d1, d1.active)
            },
        ),
    ensures
        d2.active == d0.active,
        forall|g: SettingsField| field_text(d2, g) == field_text(d0, g),
{
    assert(field_text(d0, d0.active).push(ch).drop_last() =~= field_text(d0, d0.active));
}

} // verus!
