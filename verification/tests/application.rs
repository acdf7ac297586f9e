use std::any::TypeId;

use atomcad::{run_once, App, AppExit, AppRunner, ErrorStatus, Plugin};

/// A runner that records what it saw of the application and exits with a
/// chosen status.
struct Recorder {
    status: u8,
}

impl AppRunner for Recorder {
    fn run_app(self, app: &mut App<Recorder>) -> AppExit {
        // The runner has been reset: running again from inside gives the
        // default runner's answer.
        assert_eq!(app.run(), AppExit::Success);
        app.set_name(format!("{} (ran)", app.name()));
        match ErrorStatus::new(self.status) {
            Some(s) => AppExit::Error(s),
            None => AppExit::Success,
        }
    }
}

struct Settings;

impl Plugin<Recorder> for Settings {
    fn build(&self, app: &mut App<Recorder>) {
        app.set_name(format!("{} + settings", app.name()));
    }
}

struct ConfigFile(&'static str);

impl Plugin<Recorder> for ConfigFile {
    fn build(&self, app: &mut App<Recorder>) {
        app.set_name(format!("{} + {}", app.name(), self.0));
    }

    fn is_unique(&self) -> bool {
        false
    }
}

struct Tag;
struct PluginA;
struct PluginB;

impl Plugin<Recorder> for PluginA {
    fn build(&self, _app: &mut App<Recorder>) {}

    fn id(&self) -> TypeId {
        TypeId::of::<Tag>()
    }
}

impl Plugin<Recorder> for PluginB {
    fn build(&self, _app: &mut App<Recorder>) {}

    fn id(&self) -> TypeId {
        TypeId::of::<Tag>()
    }
}

#[test]
fn new_app_keeps_its_name() {
    let app: App<Recorder> = App::new("My App".to_string());
    assert_eq!(app.name(), "My App");
}

#[test]
fn set_name_replaces_the_name() {
    let mut app: App<Recorder> = App::new("first".to_string());
    app.set_name("second".to_string()).set_name("third".to_string());
    assert_eq!(app.name(), "third");
}

#[test]
fn run_once_succeeds_and_changes_nothing() {
    let mut app: App<Recorder> = App::new("headless".to_string());
    assert_eq!(run_once(&mut app), AppExit::Success);
    assert_eq!(app.name(), "headless");
}

#[test]
fn default_runner_succeeds_every_time() {
    let mut app: App<Recorder> = App::new("headless".to_string());
    assert_eq!(app.run(), AppExit::Success);
    assert_eq!(app.run(), AppExit::Success);
    assert_eq!(app.name(), "headless");
}

#[test]
fn custom_runner_is_called_once_and_consumed() {
    let mut app: App<Recorder> = App::new("tool".to_string());
    app.set_runner(Recorder { status: 3 });
    let exit = app.run();
    assert_eq!(exit, AppExit::Error(ErrorStatus::new(3).unwrap()));
    assert_eq!(app.name(), "tool (ran)");
    // The runner was consumed; the default one is back.
    assert_eq!(app.run(), AppExit::Success);
    assert_eq!(app.name(), "tool (ran)");
}

#[test]
fn custom_runner_may_succeed() {
    let mut app: App<Recorder> = App::new("tool".to_string());
    let exit = app.set_runner(Recorder { status: 0 }).run();
    assert_eq!(exit, AppExit::Success);
}

#[test]
fn error_status_is_never_zero() {
    assert!(ErrorStatus::new(0).is_none());
    assert_eq!(ErrorStatus::new(1).unwrap().get(), 1);
    assert_eq!(ErrorStatus::new(255).unwrap().get(), 255);
}

#[test]
fn plugin_build_configures_the_app() {
    let mut app: App<Recorder> = App::new("app".to_string());
    app.add_plugin(Settings);
    assert_eq!(app.name(), "app + settings");
    assert!(app.has_plugin(&TypeId::of::<Settings>()));
}

#[test]
fn unique_plugin_is_refused_the_second_time() {
    let mut app: App<Recorder> = App::new("app".to_string());
    let id = Settings.id();
    assert!(!app.has_plugin(&id));
    app.add_plugin(Settings);
    // A second unique plugin with this identifier is not accepted.
    assert!(app.has_plugin(&id) && Settings.is_unique());
    assert!(!app.register_plugin(id, Settings.is_unique()));
    assert_eq!(app.name(), "app + settings");
}

#[test]
fn non_unique_plugin_may_be_added_twice() {
    let mut app: App<Recorder> = App::new("Duplicate Plugins".to_string());
    app.add_plugin(ConfigFile("a.toml")).add_plugin(ConfigFile("b.toml"));
    assert_eq!(app.name(), "Duplicate Plugins + a.toml + b.toml");
    assert_eq!(app.run(), AppExit::Success);
}

#[test]
fn non_unique_id_blocks_a_later_unique_one() {
    let mut app: App<Recorder> = App::new("app".to_string());
    app.add_plugin(ConfigFile("a.toml"));
    assert!(app.has_plugin(&TypeId::of::<ConfigFile>()));
    assert!(!app.register_plugin(TypeId::of::<ConfigFile>(), true));
    assert!(app.register_plugin(TypeId::of::<ConfigFile>(), false));
}

#[test]
fn plugins_sharing_an_id_conflict() {
    let mut app: App<Recorder> = App::new("Conflicting Plugins".to_string());
    app.add_plugin(PluginA);
    assert_eq!(PluginB.id(), PluginA.id());
    assert!(app.has_plugin(&PluginB.id()));
    assert!(!app.register_plugin(PluginB.id(), PluginB.is_unique()));
}

#[test]
fn distinct_plugins_coexist() {
    let mut app: App<Recorder> = App::new("app".to_string());
    app.add_plugin(Settings).add_plugin(PluginA).add_plugin(ConfigFile("c"));
    assert!(app.has_plugin(&TypeId::of::<Settings>()));
    assert!(app.has_plugin(&TypeId::of::<Tag>()));
    assert!(app.has_plugin(&TypeId::of::<ConfigFile>()));
    assert!(!app.has_plugin(&TypeId::of::<PluginA>()));
}

#[test]
fn default_plugin_id_is_the_type_id() {
    assert_eq!(Settings.id(), TypeId::of::<Settings>());
    assert!(Settings.is_unique());
    assert!(!ConfigFile("x").is_unique());
}

#[test]
fn closures_are_plugins() {
    let mut app: App<Recorder> = App::new("closure".to_string());
    let rename = |app: &mut App<Recorder>| {
        app.set_name("renamed".to_string());
    };
    app.add_plugin(rename);
    assert_eq!(app.name(), "renamed");
}

#[test]
fn register_plugin_refuses_only_unique_duplicates() {
    let mut app: App<Recorder> = App::new("reg".to_string());
    let id = TypeId::of::<u8>();
    assert!(app.register_plugin(id, true));
    assert!(!app.register_plugin(id, true));
    assert!(app.register_plugin(id, false));
    assert!(app.register_plugin(TypeId::of::<u16>(), true));
    assert!(!app.register_plugin(TypeId::of::<u16>(), true));
}

#[test]
fn refused_registration_leaves_the_name() {
    let mut app: App<Recorder> = App::new("keep".to_string());
    app.register_plugin(TypeId::of::<u32>(), false);
    assert!(!app.register_plugin(TypeId::of::<u32>(), true));
    assert_eq!(app.name(), "keep");
}
