use libloading::Library;
use plugin_lifecycle::compatibility::{Compatibility, StructVersion};
use plugin_lifecycle::condition::PluginState;
use plugin_lifecycle::dynamic::{DynamicPlugin, LoadEvent, LoadProgress, RunProgress};
use plugin_lifecycle::error::PluginError;
use plugin_lifecycle::source::DynamicPluginSource;
use plugin_lifecycle::static_plugin::StaticPlugin;

type Plugin = DynamicPlugin<u32, String>;

fn module() -> Library {
    libloading::os::unix::Library::this().into()
}

fn declared() -> Plugin {
    DynamicPlugin::new("plugin".to_string(), DynamicPluginSource::ByPaths(vec!["A".to_string()]))
}

fn loaded() -> Plugin {
    let mut plugin = declared();
    let record =
        Compatibility::new(StructVersion::new(1, "default"), StructVersion::new(2, "default"));
    plugin.load().unwrap();
    plugin.load_resume(LoadEvent::Opened { lib: module(), path: "/real/A".to_string() }).unwrap();
    plugin.load_resume(LoadEvent::LoaderVersion(1)).unwrap();
    plugin.load_resume(LoadEvent::Compatibility { host: record.clone(), plugin: record }).unwrap();
    assert_eq!(plugin.load_resume(LoadEvent::EntryTable(9)), Ok(LoadProgress::Loaded));
    plugin
}

#[test]
fn run_of_a_plugin_that_is_not_loaded_fails() {
    let mut plugin = declared();
    assert_eq!(plugin.run(), Err(PluginError::NotLoaded { name: "plugin".to_string() }));
    assert_eq!(plugin.state(), PluginState::Declared);
    assert_eq!(plugin.status().condition.errors().to_vec(), vec!["Plugin `plugin` not loaded".to_string()]);
    assert_eq!(
        plugin.run_resume(Ok("instance".to_string())),
        Err(PluginError::NotLoaded { name: "plugin".to_string() })
    );
    assert_eq!(plugin.state(), PluginState::Declared);
    assert!(plugin.running().is_none());
}

#[test]
fn run_starts_a_loaded_plugin() {
    let mut plugin = loaded();
    assert_eq!(plugin.run(), Ok(RunProgress::Start));
    assert_eq!(plugin.state(), PluginState::Loaded);
    assert_eq!(plugin.run_resume(Ok("instance".to_string())), Ok(RunProgress::Running));
    assert_eq!(plugin.state(), PluginState::Running);
    assert_eq!(plugin.status().state, PluginState::Running);
    assert!(plugin.running().is_some());
    assert!(plugin.loaded().is_some());
    assert_eq!(plugin.instance(), "instance");
    assert_eq!(plugin.path(), "/real/A");
    assert_eq!(plugin.vtable(), Some(&9));
}

#[test]
fn run_is_idempotent_while_running() {
    let mut plugin = loaded();
    assert_eq!(plugin.run(), Ok(RunProgress::Start));
    assert_eq!(plugin.run_resume(Ok("first".to_string())), Ok(RunProgress::Running));
    assert_eq!(plugin.run(), Ok(RunProgress::Running));
    assert_eq!(plugin.instance(), "first");
    assert_eq!(plugin.run(), Ok(RunProgress::Running));
    assert_eq!(plugin.instance(), "first");
    // A second instance is not taken.
    assert_eq!(plugin.run_resume(Ok("second".to_string())), Err(PluginError::UnexpectedEvent));
    assert_eq!(plugin.instance(), "first");
    assert_eq!(plugin.state(), PluginState::Running);
}

#[test]
fn failed_start_leaves_the_plugin_loaded() {
    let mut plugin = loaded();
    assert_eq!(plugin.run(), Ok(RunProgress::Start));
    assert_eq!(
        plugin.run_resume(Err("port in use".to_string())),
        Err(PluginError::StartFailure { message: "port in use".to_string() })
    );
    assert_eq!(plugin.state(), PluginState::Loaded);
    assert_eq!(plugin.path(), "/real/A");
    assert!(plugin.library().is_some());
    assert_eq!(plugin.status().condition.errors().to_vec(), vec!["port in use".to_string()]);
    // The next run clears what the failed one recorded.
    assert_eq!(plugin.run(), Ok(RunProgress::Start));
    assert!(plugin.status().condition.errors().is_empty());
    assert_eq!(plugin.run_resume(Ok("instance".to_string())), Ok(RunProgress::Running));
    assert_eq!(plugin.instance(), "instance");
}

#[test]
fn stop_then_run_restarts_on_the_same_module() {
    let mut plugin = loaded();
    plugin.run().unwrap();
    plugin.run_resume(Ok("first".to_string())).unwrap();
    let path = plugin.path().to_string();
    plugin.stop();
    assert_eq!(plugin.state(), PluginState::Loaded);
    assert_eq!(plugin.path(), path);
    assert!(plugin.running().is_none());
    assert!(plugin.library().is_some());
    assert_eq!(plugin.vtable(), Some(&9));
    assert_eq!(plugin.run(), Ok(RunProgress::Start));
    assert_eq!(plugin.run_resume(Ok("second".to_string())), Ok(RunProgress::Running));
    assert_eq!(plugin.path(), path);
    assert_eq!(plugin.instance(), "second");
}

#[test]
fn stop_is_idempotent() {
    let mut plugin = loaded();
    plugin.stop();
    assert_eq!(plugin.state(), PluginState::Loaded);
    plugin.run().unwrap();
    plugin.run_resume(Ok("i".to_string())).unwrap();
    plugin.stop();
    plugin.stop();
    assert_eq!(plugin.state(), PluginState::Loaded);
    let mut fresh = declared();
    fresh.stop();
    assert_eq!(fresh.state(), PluginState::Declared);
}

#[test]
fn instance_can_be_changed() {
    let mut plugin = loaded();
    plugin.run().unwrap();
    plugin.run_resume(Ok("i".to_string())).unwrap();
    plugin.instance_mut().push_str("!");
    assert_eq!(plugin.instance(), "i!");
    match plugin.running_mut() {
        Some(running) => running.instance_mut().push_str("?"),
        None => panic!("the plugin runs"),
    }
    assert_eq!(plugin.instance(), "i!?");
    match plugin.loaded_mut() {
        Some(loaded) => loaded.stop(),
        None => panic!("the plugin is loaded"),
    }
    assert!(plugin.running_mut().is_none());
    assert!(plugin.loaded_mut().is_some());
    assert!(declared().loaded_mut().is_none());
}

#[test]
fn static_plugin_is_loaded_from_the_start() {
    let mut plugin: StaticPlugin<u32, String> = StaticPlugin::new("builtin".to_string(), 4);
    assert_eq!(plugin.name(), "builtin");
    assert_eq!(plugin.path(), "<static>");
    assert_eq!(plugin.state(), PluginState::Loaded);
    assert_eq!(plugin.vtable(), &4);
    assert!(plugin.loaded().is_some());
    assert!(plugin.loaded_mut().is_some());
    assert!(plugin.running().is_none());
    assert!(plugin.running_mut().is_none());
    assert!(plugin.is_named(&"builtin".to_string()));
    assert_eq!(plugin.load(), Ok(LoadProgress::Loaded));
    assert_eq!(plugin.state(), PluginState::Loaded);
    assert_eq!(plugin.load_resume(LoadEvent::LoaderVersion(1)), Err(PluginError::UnexpectedEvent));
    let status = plugin.status();
    assert_eq!(status.state, PluginState::Loaded);
    assert!(status.condition.errors().is_empty());
}

#[test]
fn static_plugin_runs_and_stops() {
    let mut plugin: StaticPlugin<u32, String> = StaticPlugin::new("builtin".to_string(), 4);
    assert_eq!(plugin.run(), Ok(RunProgress::Start));
    assert_eq!(
        plugin.run_resume(Err("no".to_string())),
        Err(PluginError::StartFailure { message: "no".to_string() })
    );
    assert_eq!(plugin.state(), PluginState::Loaded);
    assert!(plugin.status().condition.errors().is_empty());
    assert_eq!(plugin.run_resume(Ok("i".to_string())), Ok(RunProgress::Running));
    assert_eq!(plugin.state(), PluginState::Running);
    assert_eq!(plugin.status().state, PluginState::Running);
    assert_eq!(plugin.run(), Ok(RunProgress::Running));
    assert_eq!(plugin.run_resume(Ok("j".to_string())), Err(PluginError::UnexpectedEvent));
    assert_eq!(plugin.instance(), "i");
    plugin.instance_mut().push_str("!");
    assert_eq!(plugin.instance(), "i!");
    assert!(plugin.running().is_some());
    assert!(plugin.running_mut().is_some());
    plugin.stop();
    assert_eq!(plugin.state(), PluginState::Loaded);
    plugin.stop();
    assert_eq!(plugin.state(), PluginState::Loaded);
    assert_eq!(plugin.run(), Ok(RunProgress::Start));
}
