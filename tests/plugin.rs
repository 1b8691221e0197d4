use libloading::Library;
use lunatic::envelope::Envelope;
use lunatic::error::{LunaticError, NResult};
use lunatic::host_api::{HostApi, HostCApiVUnstable, UnstableApi};
use lunatic::manifests::{Manifest, UnstableManifestPre};
use lunatic::plugin::{CallbackPlugin, CallbackPluginUnstable, PluginContent, PluginKind, PluginState};
use lunatic::queue::Queue;
use lunatic::registrar::register_plugin;
use serde_json::Value;

type Init = fn() -> NResult;
type Recv = fn(Envelope) -> NResult;
type Import = fn(Value) -> NResult;
type Export = fn() -> Value;
type Hooks = CallbackPluginUnstable<Init, Recv, Import, Export>;
type Callbacks = CallbackPlugin<Init, Recv, Import, Export>;
type Content = PluginContent<Init, Recv, Import, Export>;

fn this_library() -> Library {
    Library::from(libloading::os::unix::Library::this())
}

fn no_hooks() -> Hooks {
    CallbackPluginUnstable { init: None, receive: None, import: None, export: None }
}

fn manifest(kind: &str, native: bool) -> Manifest {
    let pre = UnstableManifestPre {
        name: Some("echo".to_string()),
        kind: Some(kind.to_string()),
        rust_ver: if native { Some(semver::Version::new(0, 1, 0)) } else { None },
        display_name: None,
        src: Some("/lib/libecho.so".to_string()),
        requirements: None,
        features: None,
    };
    Manifest::from_unstable(pre, true).unwrap()
}

fn envelope() -> Envelope {
    Envelope { destination: 9, payload: vec![1, 2, 3] }
}

fn echo_receive(e: Envelope) -> NResult {
    if e.destination == 9 { Ok(()) } else { Err(LunaticError::PluginFailedMessage { envelope: e }) }
}

fn export_value() -> Value {
    Value::from(vec![Value::from(1), Value::from("state")])
}

fn import_value(v: Value) -> NResult {
    if v == export_value() {
        Ok(())
    } else {
        Err(LunaticError::InvalidManifest { reason: "unexpected config".to_string() })
    }
}

fn init_ok() -> NResult {
    Ok(())
}

#[test]
fn echo_manifest_registers_with_c_api_uninit() {
    let m = manifest("callbacks", false);
    let plugin = Callbacks::load(&m, Ok((this_library(), no_hooks()))).ok().unwrap();
    let p = register_plugin(m.clone(), PluginContent::Callbacks(plugin));
    assert_eq!(p.host_api(), HostApi::Unstable(UnstableApi::C(HostCApiVUnstable { version: 0 })));
    assert_eq!(p.state(), PluginState::Uninit);
    assert_eq!(p.manifest(), &m);
    assert_eq!(p.content().kind(), PluginKind::Callbacks);
}

#[test]
fn native_version_selects_native_api() {
    let m = manifest("none", true);
    let p = register_plugin(m, Content::Empty);
    assert!(p.host_api().is_native());
    assert_eq!(p.state(), PluginState::Uninit);
}

#[test]
fn missing_receive_hands_envelope_back() {
    let m = manifest("callbacks", false);
    let plugin = Callbacks::load(&m, Ok((this_library(), no_hooks()))).ok().unwrap();
    assert_eq!(plugin.send(envelope()), Err(LunaticError::PluginFailedMessage { envelope: envelope() }));
    let mut p = register_plugin(m, PluginContent::Callbacks(plugin));
    assert_eq!(p.receive(envelope()), Err(LunaticError::PluginFailedMessage { envelope: envelope() }));
}

#[test]
fn receive_hook_gets_the_envelope() {
    let m = manifest("callbacks", false);
    let mut hooks = no_hooks();
    hooks.receive = Some(echo_receive as Recv);
    let plugin = Callbacks::load(&m, Ok((this_library(), hooks))).ok().unwrap();
    assert_eq!(plugin.send(envelope()), Ok(()));
    let other = Envelope { destination: 4, payload: vec![] };
    assert_eq!(plugin.send(other.clone()), Err(LunaticError::PluginFailedMessage { envelope: other }));
}

#[test]
fn exported_config_imports_cleanly() {
    let m = manifest("callbacks", false);
    let mut hooks = no_hooks();
    hooks.import = Some(import_value as Import);
    hooks.export = Some(export_value as Export);
    hooks.init = Some(init_ok as Init);
    let plugin = Callbacks::load(&m, Ok((this_library(), hooks))).ok().unwrap();
    let v = plugin.export_config().unwrap();
    assert_eq!(plugin.import_config(v), Some(Ok(())));
    assert_eq!(plugin.init(), Some(Ok(())));
}

#[test]
fn absent_hooks_are_reported_absent() {
    let m = manifest("callbacks", false);
    let plugin = Callbacks::load(&m, Ok((this_library(), no_hooks()))).ok().unwrap();
    assert!(plugin.export_config().is_none());
    assert!(plugin.import_config(Value::Null).is_none());
    assert!(plugin.init().is_none());
}

#[test]
fn unopened_library_is_load_failure() {
    let m = manifest("callbacks", false);
    match Callbacks::load(&m, Err("no such file".to_string())) {
        Err(e) => assert_eq!(
            e,
            LunaticError::PluginLoadFailed {
                path: "/lib/libecho.so".to_string(),
                reason: "Failed to load the plugin library: no such file".to_string(),
            }
        ),
        Ok(_) => panic!("expected a load failure"),
    }
}

#[test]
fn empty_plugin_takes_everything() {
    let mut p = register_plugin(manifest("none", false), Content::Empty);
    assert_eq!(p.receive(envelope()), Ok(()));
}

#[test]
fn queue_plugin_forwards_and_reports_closed() {
    let (tx, rx) = crossbeam::channel::unbounded::<Envelope>();
    let mut p = register_plugin(manifest("mpsc", false), Content::Sender(Queue::new(tx)));
    assert_eq!(p.receive(envelope()), Ok(()));
    assert_eq!(rx.recv().unwrap(), envelope());
    assert_eq!(p.state(), PluginState::Uninit);
    drop(rx);
    assert_eq!(p.receive(envelope()), Err(LunaticError::ChannelClosed { envelope: envelope() }));
}
