use rscript::manager::{takes_entry, Discovery, ScriptManager};
use rscript::protocol::ScriptType;
use rscript::script::{Hook, ScriptInfo, Transport};
use rscript::{Error, Version, VersionReq};

struct Eval;

impl Hook for Eval {
    const NAME: &'static str = "Eval";
    type Output = String;
}

struct RandomNumber;

impl Hook for RandomNumber {
    const NAME: &'static str = "RandomNumber";
    type Output = usize;
}

fn info(name: &str, hooks: &[&str], requirement: &str) -> ScriptInfo {
    ScriptInfo {
        name: name.to_string(),
        script_type: ScriptType::OneShot,
        hooks: hooks.iter().map(|h| h.to_string()).collect(),
        version_requirement: VersionReq::parse(requirement).unwrap(),
    }
}

fn host() -> Version {
    Version::parse("0.1.0").unwrap()
}

fn manager_of(scripts: &[(&str, &[&str])]) -> ScriptManager<u32> {
    let mut manager = ScriptManager::new();
    for (k, (name, hooks)) in scripts.iter().enumerate() {
        manager.register(info(name, hooks, ">=0.1.0"), k as u32, &host()).unwrap();
    }
    manager
}

#[test]
fn version_parse_keeps_text() {
    assert_eq!(Version::parse("1.2.3-alpha+build").unwrap().as_str(), "1.2.3-alpha+build");
    assert_eq!(VersionReq::parse(">=0.1.0, <0.2").unwrap().as_str(), ">=0.1.0, <0.2");
}

#[test]
fn version_parse_rejects_garbage() {
    assert!(Version::parse("one.two").is_err());
    assert!(Version::parse("1.2").is_err());
    assert!(VersionReq::parse(">>1").is_err());
}

#[test]
fn requirement_matches_by_semver_rules() {
    let req = VersionReq::parse(">=0.2.0").unwrap();
    assert!(!req.matches(&Version::parse("0.1.0").unwrap()));
    assert!(req.matches(&Version::parse("0.2.0").unwrap()));
    assert!(req.matches(&Version::parse("1.0.0").unwrap()));
    let caret = VersionReq::parse("^0.1").unwrap();
    assert!(caret.matches(&Version::parse("0.1.9").unwrap()));
    assert!(!caret.matches(&Version::parse("0.2.0").unwrap()));
}

#[test]
fn version_mismatch_is_reported() {
    let mut manager: ScriptManager<u32> = ScriptManager::new();
    let err = manager.register(info("s", &["Eval"], ">=0.2.0"), 0, &host()).unwrap_err();
    match err {
        Error::ScriptVersionMismatch { program_actual_version, program_required_version } => {
            assert_eq!(program_actual_version.as_str(), "0.1.0");
            assert_eq!(program_required_version.as_str(), ">=0.2.0");
        }
        other => panic!("unexpected error: {}", other.to_string()),
    }
}

#[test]
fn mismatched_script_is_never_registered() {
    let mut manager = manager_of(&[("first", &["Eval"])]);
    assert!(manager.register(info("late", &["Eval"], ">=0.2.0"), 9, &host()).is_err());
    assert_eq!(manager.scripts().len(), 1);
    assert_eq!(manager.scripts()[0].metadata().name, "first");
}

#[test]
fn matching_script_is_appended_active() {
    let mut manager = manager_of(&[("first", &["Eval"])]);
    manager.register(info("second", &["RandomNumber"], "^0.1"), 7, &host()).unwrap();
    assert_eq!(manager.scripts().len(), 2);
    let last = &manager.scripts()[1];
    assert_eq!(last.metadata().name, "second");
    assert!(last.is_active());
    assert_eq!(*last.transport(), 7);
}

#[test]
fn empty_registry_reaches_nobody() {
    let manager: ScriptManager<u32> = ScriptManager::default();
    assert!(manager.scripts().is_empty());
    assert!(manager.listeners("Eval").is_empty());
    assert_eq!(manager.next_listener("Eval", 0), None);
}

#[test]
fn unheard_hook_reaches_nobody() {
    let manager = manager_of(&[("a", &["Eval"]), ("b", &["Eval", "Other"])]);
    assert!(manager.listeners(RandomNumber::NAME).is_empty());
    assert_eq!(manager.next_listener(RandomNumber::NAME, 0), None);
}

#[test]
fn fanout_follows_registry_order() {
    let manager = manager_of(&[("a", &["Eval"]), ("b", &["RandomNumber"]), ("c", &["Eval"])]);
    assert_eq!(manager.listeners("Eval"), vec![0, 2]);
    assert_eq!(manager.next_listener("Eval", 0), Some(0));
    assert_eq!(manager.next_listener("Eval", 1), Some(2));
    assert_eq!(manager.next_listener("Eval", 3), None);
}

#[test]
fn fanout_needs_active_and_listening() {
    let mut manager = manager_of(&[("a", &["Eval"]), ("b", &["Eval"]), ("c", &["Other"])]);
    manager.scripts_mut()[1].deactivate();
    assert_eq!(manager.listeners("Eval"), vec![0]);
    assert_eq!(manager.listeners("Other"), vec![2]);
}

#[test]
fn inactive_script_is_skipped_but_direct_call_goes_ahead() {
    let mut manager = manager_of(&[("a", &["Eval"])]);
    manager.scripts_mut()[0].deactivate();
    assert!(!manager.scripts()[0].is_active());
    assert!(manager.listeners(Eval::NAME).is_empty());
    assert!(manager.scripts()[0].check_listening::<Eval>().is_ok());
    manager.scripts_mut()[0].activate();
    assert_eq!(manager.listeners(Eval::NAME), vec![0]);
}

#[test]
fn two_listeners_each_get_the_call() {
    let manager = manager_of(&[("broken", &["Eval"]), ("echo", &["Eval"])]);
    let mut reached = Vec::new();
    let mut from = 0;
    while let Some(i) = manager.next_listener(Eval::NAME, from) {
        reached.push(i);
        from = i + 1;
    }
    assert_eq!(reached, vec![0, 1]);
}

#[test]
fn direct_call_on_non_listener_is_refused() {
    let manager = manager_of(&[("a", &["Eval"])]);
    let script = &manager.scripts()[0];
    assert!(script.is_listening_for::<Eval>());
    assert!(!script.is_listening_for::<RandomNumber>());
    assert!(matches!(
        script.check_listening::<RandomNumber>(),
        Err(Error::ScriptIsNotListeningForHook)
    ));
    assert!(manager.listeners(RandomNumber::NAME).is_empty());
}

#[test]
fn transport_calls_keep_the_fanout() {
    let mut manager = manager_of(&[("a", &["Eval"]), ("b", &["Eval"])]);
    let before = manager.listeners("Eval");
    *manager.script_mut(0).transport_mut() += 10;
    *manager.scripts_mut()[1].transport_mut() += 20;
    assert_eq!(manager.listeners("Eval"), before);
    assert_eq!(*manager.scripts()[0].transport(), 10);
    assert_eq!(*manager.scripts()[1].transport(), 21);
}

#[test]
fn duplicate_hooks_are_harmless() {
    let manager = manager_of(&[("a", &["Eval", "Eval"])]);
    assert_eq!(manager.listeners("Eval"), vec![0]);
}

#[test]
fn script_info_new_copies_static_description() {
    let info = ScriptInfo::new(
        "echo",
        ScriptType::Daemon,
        &["Eval", "RandomNumber"],
        VersionReq::parse(">=0.1.0").unwrap(),
    );
    assert_eq!(info.name, "echo");
    assert_eq!(info.script_type, ScriptType::Daemon);
    assert_eq!(info.hooks, vec!["Eval".to_string(), "RandomNumber".to_string()]);
    assert_eq!(info.version_requirement.as_str(), ">=0.1.0");
    assert!(info.listens_for_name("RandomNumber"));
    assert!(!info.listens_for_name("Random"));
}

#[test]
fn daemon_keeps_its_child() {
    let t: Transport<&str, &str, ()> = Transport::for_executable(ScriptType::Daemon, "child", "path");
    assert!(matches!(t, Transport::Daemon("child")));
}

#[test]
fn one_shot_keeps_only_its_path() {
    let t: Transport<&str, &str, ()> = Transport::for_executable(ScriptType::OneShot, "child", "path");
    assert!(matches!(t, Transport::OneShot("path")));
}

#[test]
fn executable_discovery_skips_libraries_and_directories() {
    assert!(takes_entry(Discovery::Executables, true, None, "so"));
    assert!(takes_entry(Discovery::Executables, true, Some("sh"), "so"));
    assert!(!takes_entry(Discovery::Executables, true, Some("so"), "so"));
    assert!(!takes_entry(Discovery::Executables, false, None, "so"));
}

#[test]
fn library_discovery_takes_only_libraries() {
    assert!(takes_entry(Discovery::Libraries, true, Some("so"), "so"));
    assert!(!takes_entry(Discovery::Libraries, true, Some("sox"), "so"));
    assert!(!takes_entry(Discovery::Libraries, true, None, "so"));
    assert!(!takes_entry(Discovery::Libraries, false, Some("so"), "so"));
}

#[test]
fn error_texts() {
    assert_eq!(
        Error::ScriptIsNotListeningForHook.to_string(),
        "Could not trigger the hook, because the script is not listening for it"
    );
    let mismatch = Error::ScriptVersionMismatch {
        program_actual_version: Version::parse("0.1.0").unwrap(),
        program_required_version: VersionReq::parse(">=0.2.0").unwrap(),
    };
    assert_eq!(
        mismatch.to_string(),
        "The scripts requires version: 0.1.0, but the program have version: >=0.2.0"
    );
    let io = Error::Io(std::io::Error::new(std::io::ErrorKind::Other, "pipe closed"));
    assert_eq!(io.to_string(), "pipe closed");
}
