use libloading::Library;
use plugin_lifecycle::compatibility::{Compatibility, StructVersion};
use plugin_lifecycle::condition::PluginState;
use plugin_lifecycle::dynamic::{DynamicPlugin, LoadEvent, LoadProgress};
use plugin_lifecycle::error::PluginError;
use plugin_lifecycle::source::{DynamicPluginSource, LoadRequest};
use zenoh_util::LibLoader;

type Plugin = DynamicPlugin<u32, String>;

/// A handle of an opened module: the running program itself.
fn module() -> Library {
    libloading::os::unix::Library::this().into()
}

fn by_paths(paths: &[&str]) -> Plugin {
    let paths = paths.iter().map(|p| p.to_string()).collect();
    DynamicPlugin::new("plugin".to_string(), DynamicPluginSource::ByPaths(paths))
}

fn by_name(name: &str) -> Plugin {
    DynamicPlugin::new(
        "plugin".to_string(),
        DynamicPluginSource::ByName((LibLoader::empty(), name.to_string())),
    )
}

fn host() -> Compatibility {
    Compatibility::new(StructVersion::new(1, "default"), StructVersion::new(2, "default"))
}

fn open(path: &str) -> Result<LoadProgress, PluginError> {
    Ok(LoadProgress::Need(LoadRequest::Open { path: path.to_string() }))
}

fn need(request: LoadRequest) -> Result<LoadProgress, PluginError> {
    Ok(LoadProgress::Need(request))
}

fn opened(path: &str) -> LoadEvent<u32> {
    LoadEvent::Opened { lib: module(), path: path.to_string() }
}

fn open_failed(cause: &str) -> LoadEvent<u32> {
    LoadEvent::OpenFailed { cause: cause.to_string() }
}

fn compatible() -> LoadEvent<u32> {
    LoadEvent::Compatibility { host: host(), plugin: host() }
}

/// Brings a plugin declared by one path through a whole load.
fn load_from(plugin: &mut Plugin, path: &str, table: u32) {
    assert_eq!(plugin.load_resume(opened(path)), need(LoadRequest::ReadLoaderVersion));
    assert_eq!(plugin.load_resume(LoadEvent::LoaderVersion(1)), need(LoadRequest::ReadCompatibility));
    assert_eq!(plugin.load_resume(compatible()), need(LoadRequest::FetchEntryTable));
    assert_eq!(plugin.load_resume(LoadEvent::EntryTable(table)), Ok(LoadProgress::Loaded));
}

#[test]
fn declared_plugin_is_declared() {
    let plugin = by_paths(&["A"]);
    assert_eq!(plugin.name(), "plugin");
    assert_eq!(plugin.path(), "<not loaded>");
    assert_eq!(plugin.state(), PluginState::Declared);
    let status = plugin.status();
    assert_eq!(status.state, PluginState::Declared);
    assert!(status.condition.errors().is_empty());
    assert!(status.condition.warnings().is_empty());
    assert!(plugin.library().is_none());
    assert!(plugin.vtable().is_none());
    assert!(plugin.loaded().is_none());
    assert!(plugin.running().is_none());
    assert!(plugin.is_named(&"plugin".to_string()));
    assert!(!plugin.is_named(&"other".to_string()));
}

#[test]
fn load_walks_through_the_checks_in_order() {
    let mut plugin = by_paths(&["/lib/libplugin.so"]);
    assert_eq!(plugin.load(), open("/lib/libplugin.so"));
    assert_eq!(plugin.state(), PluginState::Declared);
    assert_eq!(
        plugin.load_resume(opened("/real/libplugin.so")),
        need(LoadRequest::ReadLoaderVersion)
    );
    assert!(plugin.library().is_some());
    assert_eq!(plugin.state(), PluginState::Declared);
    assert_eq!(plugin.path(), "<not loaded>");
    assert_eq!(plugin.load_resume(LoadEvent::LoaderVersion(1)), need(LoadRequest::ReadCompatibility));
    assert_eq!(plugin.state(), PluginState::Declared);
    assert_eq!(plugin.load_resume(compatible()), need(LoadRequest::FetchEntryTable));
    assert_eq!(plugin.state(), PluginState::Declared);
    assert!(plugin.vtable().is_none());
    assert_eq!(plugin.load_resume(LoadEvent::EntryTable(42)), Ok(LoadProgress::Loaded));
    assert_eq!(plugin.state(), PluginState::Loaded);
    assert_eq!(plugin.path(), "/real/libplugin.so");
    assert_eq!(plugin.vtable(), Some(&42));
    assert!(plugin.library().is_some());
    assert!(plugin.loaded().is_some());
    assert!(plugin.running().is_none());
    assert!(plugin.status().condition.errors().is_empty());
    assert!(plugin.status().condition.warnings().is_empty());
}

#[test]
fn only_the_second_of_three_paths_opens() {
    let mut plugin = by_paths(&["A", "B", "C"]);
    assert_eq!(plugin.load(), open("A"));
    assert_eq!(plugin.load_resume(open_failed("no such file")), open("B"));
    load_from(&mut plugin, "B", 1);
    assert_eq!(plugin.path(), "B");
    assert_eq!(plugin.state(), PluginState::Loaded);
    let status = plugin.status();
    assert_eq!(status.condition.warnings().to_vec(), vec!["Plugin A load fail: no such file".to_string()]);
    assert!(status.condition.errors().is_empty());
}

#[test]
fn none_of_three_paths_opens() {
    let mut plugin = by_paths(&["A", "B", "C"]);
    assert_eq!(plugin.load(), open("A"));
    assert_eq!(plugin.load_resume(open_failed("a")), open("B"));
    assert_eq!(plugin.load_resume(open_failed("b")), open("C"));
    let outcome = plugin.load_resume(open_failed("c"));
    assert_eq!(
        outcome,
        Err(PluginError::SourceResolutionFailure {
            paths: vec!["A".to_string(), "B".to_string(), "C".to_string()],
            causes: vec!["a".to_string(), "b".to_string(), "c".to_string()],
        })
    );
    let message = outcome.unwrap_err().message();
    assert_eq!(message, "Plugin not found in [\"A\", \"B\", \"C\"]");
    assert!(message.contains("A") && message.contains("B") && message.contains("C"));
    assert_eq!(plugin.state(), PluginState::Declared);
    assert_eq!(plugin.path(), "<not loaded>");
    let status = plugin.status();
    assert_eq!(status.condition.errors().to_vec(), vec![message]);
    assert_eq!(
        status.condition.warnings().to_vec(),
        vec![
            "Plugin A load fail: a".to_string(),
            "Plugin B load fail: b".to_string(),
            "Plugin C load fail: c".to_string(),
        ]
    );
}

#[test]
fn no_paths_at_all() {
    let mut plugin = by_paths(&[]);
    assert_eq!(
        plugin.load(),
        Err(PluginError::SourceResolutionFailure { paths: vec![], causes: vec![] })
    );
    assert_eq!(plugin.state(), PluginState::Declared);
    assert_eq!(plugin.status().condition.errors().to_vec(), vec!["Plugin not found in []".to_string()]);
    assert_eq!(plugin.load_resume(opened("A")), Err(PluginError::UnexpectedEvent));
    assert_eq!(plugin.state(), PluginState::Declared);
}

#[test]
fn search_by_name_tries_one_candidate() {
    let mut plugin = by_name("zenoh_plugin_rest");
    assert_eq!(plugin.load(), need(LoadRequest::Search { name: "zenoh_plugin_rest".to_string() }));
    assert_eq!(
        plugin.load_resume(open_failed("Library file 'libzenoh_plugin_rest.so' not found")),
        Err(PluginError::SearchFailure {
            name: "zenoh_plugin_rest".to_string(),
            cause: "Library file 'libzenoh_plugin_rest.so' not found".to_string(),
        })
    );
    assert_eq!(plugin.state(), PluginState::Declared);
    let status = plugin.status();
    assert_eq!(
        status.condition.errors().to_vec(),
        vec!["Library file 'libzenoh_plugin_rest.so' not found".to_string()]
    );
    assert!(status.condition.warnings().is_empty());
}

#[test]
fn search_by_name_loads_what_was_found() {
    let mut plugin = by_name("zenoh_plugin_rest");
    assert_eq!(plugin.load(), need(LoadRequest::Search { name: "zenoh_plugin_rest".to_string() }));
    load_from(&mut plugin, "/usr/lib/libzenoh_plugin_rest.so", 5);
    assert_eq!(plugin.path(), "/usr/lib/libzenoh_plugin_rest.so");
    assert_eq!(plugin.state(), PluginState::Loaded);
}

#[test]
fn other_loader_version_is_rejected_before_anything_else_is_read() {
    for reported in [0u64, 2, u64::MAX] {
        let mut plugin = by_paths(&["A"]);
        assert_eq!(plugin.load(), open("A"));
        assert_eq!(plugin.load_resume(opened("A")), need(LoadRequest::ReadLoaderVersion));
        let outcome = plugin.load_resume(LoadEvent::LoaderVersion(reported));
        assert_eq!(outcome, Err(PluginError::LoaderVersionMismatch { host: 1, plugin: reported }));
        assert_eq!(plugin.state(), PluginState::Declared);
        assert!(plugin.library().is_none());
        assert_eq!(
            plugin.status().condition.errors().to_vec(),
            vec![format!("Plugin loader version mismatch: host = 1, plugin = {}", reported)]
        );
        // The attempt is over: what the module would have answered next is refused.
        assert_eq!(plugin.load_resume(compatible()), Err(PluginError::UnexpectedEvent));
        assert_eq!(plugin.load_resume(LoadEvent::EntryTable(1)), Err(PluginError::UnexpectedEvent));
        assert_eq!(plugin.state(), PluginState::Declared);
        assert!(plugin.vtable().is_none());
    }
}

#[test]
fn incompatible_record_is_rejected_before_the_table_is_read() {
    let mut plugin = by_paths(&["A"]);
    assert_eq!(plugin.load(), open("A"));
    assert_eq!(plugin.load_resume(opened("A")), need(LoadRequest::ReadLoaderVersion));
    assert_eq!(plugin.load_resume(LoadEvent::LoaderVersion(1)), need(LoadRequest::ReadCompatibility));
    let other = Compatibility::new(StructVersion::new(1, "default"), StructVersion::new(3, "default"));
    let outcome = plugin.load_resume(LoadEvent::Compatibility { host: host(), plugin: other.clone() });
    assert_eq!(outcome, Err(PluginError::CompatibilityMismatch { host: host(), plugin: other }));
    assert_eq!(plugin.state(), PluginState::Declared);
    assert!(plugin.library().is_none());
    let errors = plugin.status().condition.errors().to_vec();
    assert_eq!(errors.len(), 1);
    assert!(errors[0].starts_with("Plugin compatibility mismatch:\n\nHost:\n"));
    assert_eq!(plugin.load_resume(LoadEvent::EntryTable(1)), Err(PluginError::UnexpectedEvent));
    assert_eq!(plugin.state(), PluginState::Declared);
    assert!(plugin.vtable().is_none());
}

#[test]
fn checks_cannot_be_skipped() {
    // The table before the version.
    let mut plugin = by_paths(&["A"]);
    assert_eq!(plugin.load(), open("A"));
    assert_eq!(plugin.load_resume(opened("A")), need(LoadRequest::ReadLoaderVersion));
    assert_eq!(plugin.load_resume(LoadEvent::EntryTable(1)), Err(PluginError::UnexpectedEvent));
    assert_eq!(plugin.state(), PluginState::Declared);
    assert!(plugin.library().is_none());
    assert_eq!(plugin.status().condition.errors().to_vec(), vec!["Unexpected plugin load event".to_string()]);

    // The table before the record.
    let mut plugin = by_paths(&["A"]);
    assert_eq!(plugin.load(), open("A"));
    assert_eq!(plugin.load_resume(opened("A")), need(LoadRequest::ReadLoaderVersion));
    assert_eq!(plugin.load_resume(LoadEvent::LoaderVersion(1)), need(LoadRequest::ReadCompatibility));
    assert_eq!(plugin.load_resume(LoadEvent::EntryTable(1)), Err(PluginError::UnexpectedEvent));
    assert_eq!(plugin.state(), PluginState::Declared);

    // The record before the version.
    let mut plugin = by_paths(&["A"]);
    assert_eq!(plugin.load(), open("A"));
    assert_eq!(plugin.load_resume(opened("A")), need(LoadRequest::ReadLoaderVersion));
    assert_eq!(plugin.load_resume(compatible()), Err(PluginError::UnexpectedEvent));
    assert_eq!(plugin.state(), PluginState::Declared);

    // The version twice.
    let mut plugin = by_paths(&["A"]);
    assert_eq!(plugin.load(), open("A"));
    assert_eq!(plugin.load_resume(opened("A")), need(LoadRequest::ReadLoaderVersion));
    assert_eq!(plugin.load_resume(LoadEvent::LoaderVersion(1)), need(LoadRequest::ReadCompatibility));
    assert_eq!(plugin.load_resume(LoadEvent::LoaderVersion(1)), Err(PluginError::UnexpectedEvent));
    assert_eq!(plugin.state(), PluginState::Declared);

    // A version while a candidate is being opened.
    let mut plugin = by_paths(&["A", "B"]);
    assert_eq!(plugin.load(), open("A"));
    assert_eq!(plugin.load_resume(LoadEvent::LoaderVersion(1)), Err(PluginError::UnexpectedEvent));
    assert_eq!(plugin.state(), PluginState::Declared);
    assert_eq!(plugin.load_resume(open_failed("late")), Err(PluginError::UnexpectedEvent));
}

#[test]
fn missing_entry_point_fails_the_load() {
    for answered in 0..3 {
        let mut plugin = by_paths(&["A"]);
        assert_eq!(plugin.load(), open("A"));
        assert_eq!(plugin.load_resume(opened("A")), need(LoadRequest::ReadLoaderVersion));
        if answered >= 1 {
            assert_eq!(
                plugin.load_resume(LoadEvent::LoaderVersion(1)),
                need(LoadRequest::ReadCompatibility)
            );
        }
        if answered >= 2 {
            assert_eq!(plugin.load_resume(compatible()), need(LoadRequest::FetchEntryTable));
        }
        assert_eq!(
            plugin.load_resume(LoadEvent::EntryPointFailure { cause: "undefined symbol".to_string() }),
            Err(PluginError::EntryPointFailure { cause: "undefined symbol".to_string() })
        );
        assert_eq!(plugin.state(), PluginState::Declared);
        assert!(plugin.library().is_none());
        assert_eq!(plugin.status().condition.errors().to_vec(), vec!["undefined symbol".to_string()]);
    }
}

#[test]
fn events_without_a_load_change_nothing() {
    let mut plugin = by_paths(&["A"]);
    plugin.load().unwrap();
    plugin.load_resume(opened("A")).unwrap();
    assert!(plugin.load_resume(LoadEvent::LoaderVersion(9)).is_err());
    let before = plugin.status();
    assert_eq!(plugin.load_resume(opened("A")), Err(PluginError::UnexpectedEvent));
    assert_eq!(plugin.load_resume(LoadEvent::LoaderVersion(1)), Err(PluginError::UnexpectedEvent));
    assert_eq!(plugin.status(), before);
}

#[test]
fn load_is_idempotent() {
    let mut plugin = by_paths(&["A", "B"]);
    assert_eq!(plugin.load(), open("A"));
    assert_eq!(plugin.load_resume(open_failed("gone")), open("B"));
    load_from(&mut plugin, "B", 3);
    let before = plugin.status();
    assert_eq!(plugin.load(), Ok(LoadProgress::Loaded));
    assert_eq!(plugin.load(), Ok(LoadProgress::Loaded));
    assert_eq!(plugin.path(), "B");
    assert_eq!(plugin.vtable(), Some(&3));
    assert_eq!(plugin.status(), before);
    // No request is pending, so an opened module is not taken.
    assert_eq!(plugin.load_resume(opened("C")), Err(PluginError::UnexpectedEvent));
    assert_eq!(plugin.path(), "B");
    assert_eq!(plugin.status(), before);
}

#[test]
fn a_new_load_forgets_the_failed_one() {
    let mut plugin = by_paths(&["A"]);
    assert_eq!(plugin.load(), open("A"));
    assert!(plugin.load_resume(open_failed("gone")).is_err());
    assert_eq!(plugin.status().condition.errors().len(), 1);
    assert_eq!(plugin.status().condition.warnings().len(), 1);
    assert_eq!(plugin.load(), open("A"));
    assert!(plugin.status().condition.errors().is_empty());
    assert!(plugin.status().condition.warnings().is_empty());
    load_from(&mut plugin, "A", 1);
    assert_eq!(plugin.state(), PluginState::Loaded);
}

#[test]
fn a_new_load_abandons_the_one_in_flight() {
    let mut plugin = by_paths(&["A", "B"]);
    assert_eq!(plugin.load(), open("A"));
    assert_eq!(plugin.load_resume(opened("A")), need(LoadRequest::ReadLoaderVersion));
    assert!(plugin.library().is_some());
    assert_eq!(plugin.load(), open("A"));
    assert!(plugin.library().is_none());
    assert_eq!(plugin.load_resume(LoadEvent::LoaderVersion(1)), Err(PluginError::UnexpectedEvent));
}

#[test]
fn source_is_kept() {
    let plugin = by_paths(&["A", "B"]);
    match plugin.source() {
        DynamicPluginSource::ByPaths(paths) => {
            assert_eq!(paths, &vec!["A".to_string(), "B".to_string()])
        }
        DynamicPluginSource::ByName(_) => panic!("declared by paths"),
    }
    assert_eq!(plugin.source().candidate_count(), 2);
    assert_eq!(plugin.source().first_request(), Ok(LoadRequest::Open { path: "A".to_string() }));
    let named = by_name("n");
    assert_eq!(named.source().candidate_count(), 1);
    assert_eq!(named.source().first_request(), Ok(LoadRequest::Search { name: "n".to_string() }));
    match named.source() {
        DynamicPluginSource::ByName((_, name)) => assert_eq!(name, "n"),
        DynamicPluginSource::ByPaths(_) => panic!("declared by name"),
    }
}

#[test]
fn requests_name_the_entry_points() {
    assert_eq!(LoadRequest::ReadLoaderVersion.symbol(), Some("get_plugin_loader_version"));
    assert_eq!(LoadRequest::ReadCompatibility.symbol(), Some("get_compatibility"));
    assert_eq!(LoadRequest::FetchEntryTable.symbol(), Some("load_plugin"));
    assert_eq!(LoadRequest::Open { path: "A".to_string() }.symbol(), None);
    assert_eq!(LoadRequest::Search { name: "n".to_string() }.symbol(), None);
}
