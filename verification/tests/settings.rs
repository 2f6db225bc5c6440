use outrider::gibibytes::{format_gibibytes, parse_gibibytes};
use outrider::settings::{
    default_cache_mb, default_show_churn, project_key_from, Settings, SettingsLoad,
    DEFAULT_DISK_CACHE_BYTES, MAX_CACHE_MB,
};
use outrider::settings_draft::{DraftKey, SettingsDraft, SettingsField};

#[test]
fn new_project_defaults_to_one_gibibyte() {
    let settings = Settings::default();
    assert_eq!(settings.disk_cache_bytes_for_key("D:/repo"), 1_073_741_824);
}

#[test]
fn project_disk_limits_are_independent() {
    let mut settings = Settings::default();
    settings.set_disk_cache_bytes_for_key("D:/one".into(), 512 * 1024 * 1024);
    settings.set_disk_cache_bytes_for_key("D:/two".into(), 2 * 1024 * 1024 * 1024);
    assert_eq!(settings.disk_cache_bytes_for_key("D:/one"), 512 * 1024 * 1024);
    assert_eq!(settings.disk_cache_bytes_for_key("D:/two"), 2 * 1024 * 1024 * 1024);
}

#[test]
fn zero_allowance_restores_the_default() {
    let mut settings = Settings::default();
    settings.set_disk_cache_bytes_for_key("p".into(), 42);
    settings.set_disk_cache_bytes_for_key("p".into(), 84);
    assert_eq!(settings.disk_cache_bytes_for_key("p"), 84);
    assert_eq!(settings.disk_cache_bytes.len(), 1);
    settings.set_disk_cache_bytes_for_key("p".into(), 0);
    assert_eq!(settings.disk_cache_bytes_for_key("p"), DEFAULT_DISK_CACHE_BYTES);
    assert!(settings.disk_cache_bytes.is_empty());
}

#[test]
fn defaults() {
    let s = Settings::default();
    assert_eq!(default_cache_mb(), 256);
    assert!(default_show_churn());
    assert_eq!(MAX_CACHE_MB, u32::MAX / (1024 * 1024));
    assert_eq!(s.cache_mb, 256);
    assert!(s.show_welcome);
    assert!(s.show_churn);
    assert_eq!(s.max_display_lines, None);
    assert_eq!(s.filter_extensions.len(), 36);
    assert_eq!(s.filter_extensions[0], "exe");
    assert_eq!(s.filter_extensions[35], "woff2");
    assert_eq!(
        s.filter_folders,
        vec!["target", "node_modules", "dist", "build", "__pycache__", ".next", ".nuxt", "out", "pkg", "vendor"]
    );
    assert!(s.filter_files.is_empty());
}

#[test]
fn zero_memory_cache_recovers_to_safe_default() {
    let mut s = Settings::default();
    s.cache_mb = 0;
    let SettingsLoad::Recovered { settings, warning } = s.sanitize_loaded() else {
        panic!("zero cache must be recovered");
    };
    assert_eq!(settings.cache_mb, 256);
    assert!(warning.contains("cache_mb"));
}

#[test]
fn oversized_memory_cache_recovers_to_safe_default() {
    let mut s = Settings::default();
    s.cache_mb = 4294967295;
    let SettingsLoad::Recovered { settings, warning } = s.sanitize_loaded() else {
        panic!("unsafe cache size must be recovered");
    };
    assert_eq!(settings.cache_mb, 256);
    assert!(warning.contains("cache_mb"));
}

#[test]
fn zero_project_disk_cache_recovers_to_project_default() {
    let mut s = Settings::default();
    s.cache_mb = 128;
    s.disk_cache_bytes = vec![("repo".to_string(), 0), ("kept".to_string(), 7)];
    let SettingsLoad::Recovered { settings, warning } = s.sanitize_loaded() else {
        panic!("zero disk allowance must be recovered");
    };
    assert_eq!(settings.disk_cache_bytes_for_key("repo"), 1_073_741_824);
    assert_eq!(settings.disk_cache_bytes_for_key("kept"), 7);
    assert!(warning.contains("disk cache"));
    assert_eq!(settings.cache_mb, 128);
}

#[test]
fn both_repairs_join_their_warnings() {
    let mut s = Settings::default();
    s.cache_mb = 0;
    s.disk_cache_bytes = vec![("repo".to_string(), 0)];
    let (settings, warning) = s.sanitize_loaded().into_parts();
    assert_eq!(
        warning.unwrap(),
        "cache_mb was outside the safe range 1..=4095; restored the default; invalid zero-byte project disk cache values were restored to defaults"
    );
    assert_eq!(settings.cache_mb, 256);
}

#[test]
fn valid_settings_load_unchanged() {
    let mut s = Settings::default();
    s.cache_mb = 4095;
    let (settings, warning) = s.sanitize_loaded().into_parts();
    assert!(warning.is_none());
    assert_eq!(settings.cache_mb, 4095);
}

#[test]
fn project_keys_use_forward_slashes_without_trailing_ones() {
    assert_eq!(project_key_from("C:\\repo\\sub\\"), "C:/repo/sub");
    assert_eq!(project_key_from("/home/user/repo//"), "/home/user/repo");
    assert_eq!(project_key_from("/"), "/");
    assert_eq!(project_key_from(""), "");
}

#[test]
fn decimal_gibibytes_are_converted_without_overflow() {
    assert_eq!(parse_gibibytes("1").unwrap(), 1_073_741_824);
    assert_eq!(parse_gibibytes("1.5").unwrap(), 1_610_612_736);
    assert!(parse_gibibytes("0.999999999999999999").is_ok());
    assert!(parse_gibibytes("18446744073709551616").is_err());
    assert!(parse_gibibytes("0").is_err());
    assert!(parse_gibibytes("1.2.3").is_err());
}

#[test]
fn gibibyte_parse_errors_name_the_problem() {
    assert_eq!(parse_gibibytes("").unwrap_err(), "Disk cache must be a decimal number of GiB");
    assert_eq!(parse_gibibytes(".5").unwrap_err(), "Disk cache must be a decimal number of GiB");
    assert_eq!(parse_gibibytes("5.").unwrap_err(), "Disk cache must be a decimal number of GiB");
    assert_eq!(parse_gibibytes("+5").unwrap_err(), "Disk cache must be a decimal number of GiB");
    assert_eq!(parse_gibibytes("17179869184").unwrap_err(), "Disk cache size is too large");
    assert_eq!(
        parse_gibibytes("0.0000000000000000000000000000001").unwrap_err(),
        "Disk cache size is too precise"
    );
    assert_eq!(parse_gibibytes("0.000").unwrap_err(), "Disk cache must be greater than zero GiB");
    assert_eq!(parse_gibibytes("0.0000000001").unwrap_err(), "Disk cache must be greater than zero GiB");
    assert_eq!(parse_gibibytes("  2.25\n").unwrap(), 2_415_919_104);
}

#[test]
fn gibibyte_text_is_exact() {
    assert_eq!(format_gibibytes(1_073_741_824), "1");
    assert_eq!(format_gibibytes(1_610_612_736), "1.5");
    assert_eq!(format_gibibytes(1), "0.000000000931322574615478515625");
    assert_eq!(format_gibibytes(0), "0");
    assert_eq!(format_gibibytes(536_870_912), "0.5");
}

#[test]
fn gibibyte_text_round_trips() {
    for bytes in [1, 2, 3, 1023, 536_870_912, DEFAULT_DISK_CACHE_BYTES, 1_610_612_737, u64::MAX, u64::MAX - 1] {
        assert_eq!(parse_gibibytes(&format_gibibytes(bytes)).unwrap(), bytes);
    }
}

#[test]
fn settings_draft_rejects_overflow_without_mutating_settings() {
    let project = "D:/repo";
    let mut settings = Settings::default();
    let mut draft = SettingsDraft::from_settings(&settings, project, "8".to_string());
    draft.cache_mb = "4294967296".into();
    assert!(draft.apply_to(&mut settings, project.to_string(), Ok(())).is_err());
    assert_eq!(settings.cache_mb, 256);
    assert_eq!(settings.disk_cache_bytes_for_key(project), DEFAULT_DISK_CACHE_BYTES);
}

#[test]
fn settings_draft_updates_only_the_current_project_disk_limit() {
    let mut settings = Settings::default();
    settings.set_disk_cache_bytes_for_key("D:/two".into(), 2 * DEFAULT_DISK_CACHE_BYTES);
    let mut draft = SettingsDraft::from_settings(&settings, "D:/one", "8".to_string());
    draft.disk_cache_gb = "0.5".into();
    draft.apply_to(&mut settings, "D:/one".to_string(), Ok(())).unwrap();
    assert_eq!(settings.disk_cache_bytes_for_key("D:/one"), DEFAULT_DISK_CACHE_BYTES / 2);
    assert_eq!(settings.disk_cache_bytes_for_key("D:/two"), 2 * DEFAULT_DISK_CACHE_BYTES);
}

#[test]
fn unchanged_disk_text_round_trips_exact_stored_bytes() {
    let project = "D:/exact";
    for bytes in [1, DEFAULT_DISK_CACHE_BYTES, u64::MAX] {
        let mut settings = Settings::default();
        settings.set_disk_cache_bytes_for_key(project.to_string(), bytes);
        let draft = SettingsDraft::from_settings(&settings, project, "8".to_string());
        draft.apply_to(&mut settings, project.to_string(), Ok(())).unwrap();
        assert_eq!(settings.disk_cache_bytes_for_key(project), bytes);
    }
}

#[test]
fn saving_settings_still_disables_the_welcome_screen() {
    let mut settings = Settings::default();
    assert!(settings.show_welcome);
    let draft = SettingsDraft::from_settings(&settings, "D:/repo", "8".to_string());
    draft.apply_to(&mut settings, "D:/repo".to_string(), Ok(())).unwrap();
    assert!(!settings.show_welcome);
}

#[test]
fn draft_fields_and_list_parsing() {
    let mut settings = Settings::default();
    settings.filter_folders = vec!["a".into(), "b c".into()];
    let mut draft = SettingsDraft::from_settings(&settings, "p", "8".to_string());
    assert_eq!(draft.filter_folders, "a, b c");
    assert_eq!(draft.cache_mb, "256");
    assert_eq!(draft.disk_cache_gb, "1");
    assert_eq!(draft.active, SettingsField::Extensions);
    assert_eq!(draft.active_text(), &draft.filter_extensions);
    draft.active = SettingsField::CacheMb;
    assert_eq!(draft.active_text(), "256");
    draft.filter_folders = " x ,, y\t,  ".into();
    draft.cache_mb = " +12 ".into();
    draft.apply_to(&mut settings, "p".to_string(), Ok(())).unwrap();
    assert_eq!(settings.filter_folders, vec!["x", "y"]);
    assert_eq!(settings.cache_mb, 12);
}

#[test]
fn draft_reports_the_first_failure() {
    let mut settings = Settings::default();
    let mut draft = SettingsDraft::from_settings(&settings, "p", "8".to_string());
    draft.cache_mb = "0".into();
    assert_eq!(
        draft.apply_to(&mut settings, "p".to_string(), Err("pad".into())).unwrap_err(),
        "Texture cache must be between 1 and 4095 MB"
    );
    draft.cache_mb = "x".into();
    assert_eq!(
        draft.apply_to(&mut settings, "p".to_string(), Ok(())).unwrap_err(),
        "Texture cache must be a whole number of MB within range"
    );
    draft.cache_mb = "10".into();
    draft.disk_cache_gb = "abc".into();
    assert_eq!(
        draft.apply_to(&mut settings, "p".to_string(), Err("pad".into())).unwrap_err(),
        "Disk cache must be a decimal number of GiB"
    );
    draft.disk_cache_gb = "2".into();
    assert_eq!(draft.apply_to(&mut settings, "p".to_string(), Err("pad".into())).unwrap_err(), "pad");
    assert_eq!(settings.cache_mb, 256);
}

#[test]
fn draft_keys_edit_the_active_field() {
    let settings = Settings::default();
    let mut draft = SettingsDraft::from_settings(&settings, "p", "8".to_string());
    draft.filter_extensions = "rs".to_string();
    assert!(!draft.on_key(DraftKey::Type(',')));
    assert_eq!(draft.filter_extensions, "rs,");
    assert!(!draft.on_key(DraftKey::DeleteChar));
    assert_eq!(draft.filter_extensions, "rs");
    // tab order: extensions, folders, cache size, disk size, padding
    let mut seen = Vec::new();
    for _ in 0..5 {
        seen.push(draft.active);
        draft.on_key(DraftKey::NextField);
    }
    assert_eq!(
        seen,
        vec![
            SettingsField::Extensions,
            SettingsField::Folders,
            SettingsField::CacheMb,
            SettingsField::DiskCacheGb,
            SettingsField::NodePadding
        ]
    );
    assert_eq!(draft.active, SettingsField::Extensions);
    assert!(draft.on_key(DraftKey::Close));
}

#[test]
fn number_fields_keep_only_digits_and_points_where_fractional() {
    let settings = Settings::default();
    let mut draft = SettingsDraft::from_settings(&settings, "p", "8".to_string());
    draft.active = SettingsField::CacheMb;
    draft.cache_mb = "25".to_string();
    draft.on_key(DraftKey::Type('6'));
    draft.on_key(DraftKey::Type('.'));
    draft.on_key(DraftKey::Type('x'));
    assert_eq!(draft.cache_mb, "256");
    draft.active = SettingsField::DiskCacheGb;
    draft.disk_cache_gb = "1".to_string();
    draft.on_key(DraftKey::Type('.'));
    draft.on_key(DraftKey::Type('5'));
    draft.on_key(DraftKey::Type('g'));
    assert_eq!(draft.disk_cache_gb, "1.5");
    draft.active = SettingsField::NodePadding;
    draft.node_padding = String::new();
    draft.on_key(DraftKey::DeleteChar);
    assert_eq!(draft.node_padding, "");
    draft.on_key(DraftKey::Type('é'));
    assert_eq!(draft.node_padding, "");
    assert_eq!(draft.cache_mb, "256");
}
