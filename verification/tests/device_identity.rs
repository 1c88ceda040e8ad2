use flight_tracker::device::FileDeviceProvider;
use flight_tracker::text::trim;
use flight_tracker::utils::rand_string;

fn looks_like_device_id(id: &str) -> bool {
    let rest = match id.strip_prefix("device_") {
        Some(r) => r,
        None => return false,
    };
    let parts: Vec<&str> = rest.split('_').collect();
    parts.len() == 2
        && !parts[0].is_empty()
        && parts[0].chars().all(|c| c.is_ascii_digit())
        && parts[1].len() == 8
        && parts[1].chars().all(|c| c.is_ascii_lowercase() || c.is_ascii_digit())
}

#[test]
fn test_device_id_generation() {
    let provider = FileDeviceProvider::new();
    let id = provider.generate_device_id();

    assert!(id.starts_with("device_"));
    assert!(id.len() > 20);
}

#[test]
fn generated_id_matches_pattern() {
    let provider = FileDeviceProvider::new();
    let id = provider.generate_device_id();
    assert!(looks_like_device_id(&id));
}

#[test]
fn compose_device_id_exact() {
    let id = FileDeviceProvider::compose_device_id(1700000000000, "abc123yz");
    assert_eq!(id, "device_1700000000000_abc123yz");
}

#[test]
fn get_twice_returns_same_id() {
    let provider = FileDeviceProvider::new();
    let (id1, fresh1) = provider.get_device_id_with(None);
    assert!(fresh1);
    // The first call wrote id1; the second call reads it back.
    let (id2, fresh2) = provider.get_device_id_with(Some(&id1));
    assert!(!fresh2);
    assert_eq!(id1, id2);
}

#[test]
fn reset_changes_value() {
    let provider = FileDeviceProvider::new();
    let old_id = provider.generate_device_id();
    let new_id = provider.generate_device_id();
    assert_ne!(old_id, new_id);
    // After the reset overwrote the file, a get returns the new value.
    let (got, fresh) = provider.get_device_id_with(Some(&new_id));
    assert!(!fresh);
    assert_eq!(got, new_id);
}

#[test]
fn persists_across_store_instances() {
    let first = FileDeviceProvider::new();
    let (id, _) = first.get_device_id_with(None);
    let second = FileDeviceProvider::new();
    let (again, fresh) = second.get_device_id_with(Some(&id));
    assert!(!fresh);
    assert_eq!(again, id);
}

#[test]
fn trailing_whitespace_is_trimmed() {
    let provider = FileDeviceProvider::new();
    let id = provider.generate_device_id();
    let padded = format!("{} \t\n", id);
    let (got, fresh) = provider.get_device_id_with(Some(&padded));
    assert!(!fresh);
    assert_eq!(got, id);
}

#[test]
fn trim_exact() {
    assert_eq!(trim("  abc  "), "abc");
    assert_eq!(trim("abc\r\n"), "abc");
    assert_eq!(trim("\t abc"), "abc");
    assert_eq!(trim("abc"), "abc");
    assert_eq!(trim("   "), "");
    assert_eq!(trim(""), "");
}

#[test]
fn trim_matches_std_on_unicode_whitespace() {
    let padded = "\u{000B}\u{00A0}abc\u{2028}\u{3000} ";
    assert_eq!(trim(padded), padded.trim());
    assert_eq!(trim(padded), "abc");
}

#[test]
fn unicode_whitespace_only_file_triggers_regeneration() {
    let provider = FileDeviceProvider::new();
    let (id, fresh) = provider.get_device_id_with(Some("\u{000C}\u{00A0}\u{2003}"));
    assert!(fresh);
    assert!(looks_like_device_id(&id));
}

#[test]
fn rooted_at_joins_the_base() {
    let p = FileDeviceProvider::rooted_at(Some(String::from("/home/u/.config")));
    assert_eq!(p.config_dir_path(), "/home/u/.config/flight-tracker");
    assert_eq!(p.device_file_path(), "/home/u/.config/flight-tracker/device_id");
    let q = FileDeviceProvider::rooted_at(None);
    assert_eq!(q.config_dir_path(), "./flight-tracker");
}

#[test]
fn empty_file_triggers_regeneration() {
    let provider = FileDeviceProvider::new();
    let (id, fresh) = provider.get_device_id_with(Some(""));
    assert!(fresh);
    assert!(looks_like_device_id(&id));
}

#[test]
fn whitespace_only_file_triggers_regeneration() {
    let provider = FileDeviceProvider::new();
    let (id, fresh) = provider.get_device_id_with(Some(" \t\r\n "));
    assert!(fresh);
    assert!(looks_like_device_id(&id));
}

#[test]
fn missing_file_triggers_regeneration() {
    let provider = FileDeviceProvider::new();
    let (id, fresh) = provider.get_device_id_with(None);
    assert!(fresh);
    assert!(looks_like_device_id(&id));
}

#[test]
fn device_file_path_layout() {
    let provider = FileDeviceProvider::new();
    let path = provider.device_file_path();
    assert!(path.ends_with("/flight-tracker/device_id"));
    assert_eq!(path, format!("{}/device_id", provider.config_dir_path()));
}

#[test]
fn rand_string_shape() {
    let s = rand_string(8);
    assert_eq!(s.len(), 8);
    assert!(s.chars().all(|c| c.is_ascii_lowercase() || c.is_ascii_digit()));
    let t = rand_string(0);
    assert!(t.is_empty());
}
