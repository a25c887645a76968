use plugin_lifecycle::compatibility::{
    check_compatibility, check_loader_version, Compatibility, StructVersion, PLUGIN_LOADER_VERSION,
};
use plugin_lifecycle::error::PluginError;
use plugin_lifecycle::text::{clone_strings, debug_list, push_decimal};

fn record(args: u64, instance: u64, features: &str) -> Compatibility {
    Compatibility::new(StructVersion::new(args, features), StructVersion::new(instance, features))
}

#[test]
fn message_of_not_found() {
    let e = PluginError::NotFound { name: "storage".to_string() };
    assert_eq!(e.message(), "Plugin `storage` not found");
}

#[test]
fn message_of_not_loaded() {
    let e = PluginError::NotLoaded { name: "storage".to_string() };
    assert_eq!(e.message(), "Plugin `storage` not loaded");
}

#[test]
fn message_of_not_running() {
    let e = PluginError::NotRunning { name: "storage".to_string() };
    assert_eq!(e.message(), "Plugin `storage` is not running");
}

#[test]
fn message_of_search_failure_is_the_cause() {
    let e = PluginError::SearchFailure {
        name: "zenoh_plugin_x".to_string(),
        cause: "Library file 'libzenoh_plugin_x.so' not found".to_string(),
    };
    assert_eq!(e.message(), "Library file 'libzenoh_plugin_x.so' not found");
}

#[test]
fn message_of_source_resolution_failure_names_every_path() {
    let e = PluginError::SourceResolutionFailure {
        paths: vec!["A".to_string(), "B".to_string(), "C".to_string()],
        causes: vec!["a".to_string(), "b".to_string(), "c".to_string()],
    };
    assert_eq!(e.message(), "Plugin not found in [\"A\", \"B\", \"C\"]");
}

#[test]
fn message_of_source_resolution_failure_without_paths() {
    let e = PluginError::SourceResolutionFailure { paths: vec![], causes: vec![] };
    assert_eq!(e.message(), "Plugin not found in []");
}

#[test]
fn message_of_entry_point_failure_is_the_cause() {
    let e = PluginError::EntryPointFailure { cause: "undefined symbol: load_plugin".to_string() };
    assert_eq!(e.message(), "undefined symbol: load_plugin");
}

#[test]
fn message_of_loader_version_mismatch() {
    let e = PluginError::LoaderVersionMismatch { host: 1, plugin: 2 };
    assert_eq!(e.message(), "Plugin loader version mismatch: host = 1, plugin = 2");
}

#[test]
fn message_of_compatibility_mismatch_holds_both_records() {
    let e = PluginError::CompatibilityMismatch {
        host: record(3, 4, "default"),
        plugin: record(3, 5, "default"),
    };
    assert_eq!(
        e.message(),
        "Plugin compatibility mismatch:\n\nHost:\n\
         loader version: 1, start args: 3 [default], instance: 4 [default]\n\
         Plugin:\n\
         loader version: 1, start args: 3 [default], instance: 5 [default]\n"
    );
}

#[test]
fn message_of_start_failure_is_what_the_plugin_reported() {
    let e = PluginError::StartFailure { message: "port in use".to_string() };
    assert_eq!(e.message(), "port in use");
}

#[test]
fn message_of_disabled_dynamic_loading() {
    assert_eq!(PluginError::DynamicLoadingDisabled.message(), "Dynamic plugin loading is disabled");
}

#[test]
fn message_of_unexpected_event() {
    assert_eq!(PluginError::UnexpectedEvent.message(), "Unexpected plugin load event");
}

#[test]
fn decimal_numerals() {
    for (n, text) in [
        (0u64, "0"),
        (7, "7"),
        (10, "10"),
        (109, "109"),
        (1_000_000, "1000000"),
        (u64::MAX, "18446744073709551615"),
    ] {
        let mut out = String::from("n=");
        push_decimal(&mut out, n);
        assert_eq!(out, format!("n={}", text));
    }
}

#[test]
fn decimal_numerals_agree_with_std() {
    let mut n: u64 = 1;
    for _ in 0..64 {
        let mut out = String::new();
        push_decimal(&mut out, n - 1);
        assert_eq!(out, (n - 1).to_string());
        n = n.wrapping_mul(3).wrapping_add(7);
        if n == 0 {
            n = 1;
        }
    }
}

#[test]
fn list_rendering_quotes_and_escapes() {
    let items = vec!["plain".to_string(), "with \"quote\"".to_string(), "back\\slash".to_string()];
    assert_eq!(debug_list(&items), "[\"plain\", \"with \\\"quote\\\"\", \"back\\\\slash\"]");
    assert_eq!(debug_list(&items), format!("{:?}", items));
    assert_eq!(debug_list(&vec!["one".to_string()]), "[\"one\"]");
}

#[test]
fn strings_are_copied() {
    let items = vec!["a".to_string(), "".to_string(), "c".to_string()];
    assert_eq!(clone_strings(&items), items);
    assert!(clone_strings(&[]).is_empty());
}

#[test]
fn host_loader_version_is_one() {
    assert_eq!(PLUGIN_LOADER_VERSION, 1);
    assert_eq!(record(1, 1, "").loader_version, PLUGIN_LOADER_VERSION);
}

#[test]
fn loader_version_must_be_equal() {
    assert_eq!(check_loader_version(PLUGIN_LOADER_VERSION), Ok(()));
    assert_eq!(
        check_loader_version(0),
        Err(PluginError::LoaderVersionMismatch { host: 1, plugin: 0 })
    );
    assert_eq!(
        check_loader_version(2),
        Err(PluginError::LoaderVersionMismatch { host: 1, plugin: 2 })
    );
}

#[test]
fn records_are_compatible_when_equal() {
    assert!(record(3, 4, "default").are_compatible(&record(3, 4, "default")));
    assert!(!record(3, 4, "default").are_compatible(&record(3, 5, "default")));
    assert!(!record(3, 4, "default").are_compatible(&record(2, 4, "default")));
    assert!(!record(3, 4, "default").are_compatible(&record(3, 4, "default,unstable")));
    let mut other_loader = record(3, 4, "default");
    other_loader.loader_version = 2;
    assert!(!record(3, 4, "default").are_compatible(&other_loader));
    assert!(!other_loader.are_compatible(&record(3, 4, "default")));
}

#[test]
fn compatibility_check_reports_both_records() {
    assert_eq!(check_compatibility(record(1, 1, "f"), record(1, 1, "f")), Ok(()));
    assert_eq!(
        check_compatibility(record(1, 1, "f"), record(1, 2, "f")),
        Err(PluginError::CompatibilityMismatch { host: record(1, 1, "f"), plugin: record(1, 2, "f") })
    );
}

#[test]
fn description_of_a_record() {
    assert_eq!(
        record(12, 0, "a b").describe(),
        "loader version: 1, start args: 12 [a b], instance: 0 [a b]"
    );
    assert_eq!(record(12, 0, "a b").clone(), record(12, 0, "a b"));
    assert!(StructVersion::new(1, "x").same_as(&StructVersion::new(1, "x")));
    assert!(!StructVersion::new(1, "x").same_as(&StructVersion::new(1, "y")));
}
