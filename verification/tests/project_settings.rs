use outrider::project_settings::{
    categorize_extension, format_bytes, project_settings_path, ExtensionCategory,
};

#[test]
fn categorizes_known_extensions() {
    assert_eq!(categorize_extension("rs"), ExtensionCategory::Code);
    assert_eq!(categorize_extension("json"), ExtensionCategory::Config);
    assert_eq!(categorize_extension("md"), ExtensionCategory::Docs);
    assert_eq!(categorize_extension("css"), ExtensionCategory::Styles);
    assert_eq!(categorize_extension("html"), ExtensionCategory::Markup);
    assert_eq!(categorize_extension("exe"), ExtensionCategory::Binary);
    assert_eq!(categorize_extension("png"), ExtensionCategory::Media);
    assert_eq!(categorize_extension("zip"), ExtensionCategory::Archive);
    assert_eq!(categorize_extension("ttf"), ExtensionCategory::Font);
    assert_eq!(categorize_extension("pdf"), ExtensionCategory::Generated);
    assert_eq!(categorize_extension("xyz"), ExtensionCategory::Other);
}

#[test]
fn categorization_is_case_sensitive() {
    assert_eq!(categorize_extension("R"), ExtensionCategory::Code);
    assert_eq!(categorize_extension("S"), ExtensionCategory::Code);
    assert_eq!(categorize_extension("RS"), ExtensionCategory::Other);
    assert_eq!(categorize_extension(""), ExtensionCategory::Other);
}

#[test]
fn code_defaults_enabled_binary_disabled() {
    assert!(ExtensionCategory::Code.default_enabled());
    assert!(!ExtensionCategory::Binary.default_enabled());
    assert!(!ExtensionCategory::Media.default_enabled());
    assert!(ExtensionCategory::Config.default_enabled());
}

#[test]
fn labels_and_sort_order() {
    assert_eq!(ExtensionCategory::Generated.label(), "Generated");
    assert_eq!(ExtensionCategory::Other.label(), "Other");
    assert_eq!(ExtensionCategory::Code.sort_order(), 0);
    assert_eq!(ExtensionCategory::Other.sort_order(), 5);
    assert_eq!(ExtensionCategory::Generated.sort_order(), 10);
}

fn float_reference(bytes: u64) -> String {
    if bytes < 1024 {
        format!("{bytes} B")
    } else if bytes < 1024 * 1024 {
        format!("{:.1} KB", bytes as f64 / 1024.0)
    } else if bytes < 1024 * 1024 * 1024 {
        format!("{:.1} MB", bytes as f64 / (1024.0 * 1024.0))
    } else {
        format!("{:.1} GB", bytes as f64 / (1024.0 * 1024.0 * 1024.0))
    }
}

#[test]
fn format_bytes_exact_values() {
    assert_eq!(format_bytes(0), "0 B");
    assert_eq!(format_bytes(1023), "1023 B");
    assert_eq!(format_bytes(1024), "1.0 KB");
    assert_eq!(format_bytes(1536), "1.5 KB");
    assert_eq!(format_bytes(1048576), "1.0 MB");
    assert_eq!(format_bytes(1073741824), "1.0 GB");
}

#[test]
fn format_bytes_matches_floating_point_formatting() {
    let mut samples: Vec<u64> = vec![
        0, 1, 9, 10, 1023, 1024, 1075, 1076, 1280, 1331, 1332, 1434, 2304, 10239, 10240,
        1048575, 1048576, 1310720, 1363148, 1073741823, 1073741824, 1288490188, 1342177280,
        u64::MAX, u64::MAX - 1, 1 << 53, (1 << 53) + 1, (1 << 53) + 3, (1 << 60) + 12345,
        9_007_199_254_740_993, 18_000_000_000_000_000_000,
    ];
    let mut x: u64 = 0x9e3779b97f4a7c15;
    for _ in 0..20000 {
        x ^= x << 13;
        x ^= x >> 7;
        x ^= x << 17;
        samples.push(x >> (x % 64));
    }
    for b in 0..5000u64 {
        samples.push(b);
        samples.push(b * 512);
        samples.push(b * 524288);
    }
    for b in samples {
        assert_eq!(format_bytes(b), float_reference(b), "bytes = {b}");
    }
}

#[test]
fn settings_file_lives_under_dot_outrider() {
    assert_eq!(project_settings_path("/repo"), "/repo/.outrider/project.json");
    assert_eq!(project_settings_path("/repo/"), "/repo/.outrider/project.json");
    assert_eq!(project_settings_path(""), ".outrider/project.json");
}
