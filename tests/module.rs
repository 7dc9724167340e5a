use modman::actions::{verify_module_creation, Action, Ancestor, Event, Presence};
use modman::error::ModuleError;
use modman::install::Installer;
use modman::module::{Entry, LoadError, Module, ModuleDef};
use modman::permissions::check_permissions;
use modman::uninstall::Uninstaller;

fn def(init: bool, cleanup: bool, resources: &[(&str, &str)]) -> ModuleDef {
    ModuleDef {
        description: None,
        init,
        cleanup,
        resources: resources
            .iter()
            .map(|(s, t)| (s.to_string(), t.to_string()))
            .collect(),
    }
}

fn module(path: &str, d: ModuleDef) -> Module {
    let probes = vec![Some(0o755); d.required_files(&path.to_string()).len()];
    match Module::new(path.to_string(), Ok(d), &probes) {
        Ok(m) => m,
        Err(_) => panic!("module should load"),
    }
}

fn io_error() -> std::io::Error {
    std::io::Error::new(std::io::ErrorKind::Other, "refused")
}

#[test]
fn test_check_permissions() {
    let rwx_mode = 0x1C0;
    let rw_mode = 0x180;

    let rwx = 0b111;
    let rw = 0b110;
    let wx = 0b011;
    assert!(check_permissions(rwx_mode, rwx)); // Test equal permissions
    assert!(!check_permissions(rw_mode, wx)); // Test incorrect permissions
    assert!(check_permissions(rwx_mode, rw)); // Test strictly less permissions
    assert!(!check_permissions(rw_mode, rwx)); // Test strictly greater permissions
}

#[test]
fn test_new() {
    let empty = def(false, false, &[]);
    assert!(
        !Module::new("tests/empty".to_string(), Ok(empty), &vec![]).is_err(),
        "empty is a valid module"
    );
    let full = def(true, true, &[("bashrc", ".bashrc"), ("vim", ".config/vim")]);
    let probes = vec![Some(0o755), Some(0o700), Some(0o644), Some(0o755)];
    assert!(
        !Module::new("tests/full".to_string(), Ok(full), &probes).is_err(),
        "full is a valid module"
    );
}

#[test]
fn permissions_ignore_group_and_other_bits() {
    assert!(!check_permissions(0o077, 0b100));
    assert!(check_permissions(0o400, 0b100));
    assert!(!check_permissions(0o400, 0b101));
    assert!(check_permissions(0o500, 0b101));
    assert!(check_permissions(0, 0));
}

#[test]
fn required_files_join_the_module_path() {
    let d = def(true, true, &[("bashrc", ".bashrc")]);
    let files = d.required_files(&"/mods/shell".to_string());
    assert_eq!(
        files,
        vec![
            "/mods/shell/init.sh".to_string(),
            "/mods/shell/cleanup.sh".to_string(),
            "/mods/shell/bashrc".to_string()
        ]
    );
}

#[test]
fn missing_init_script_is_a_script_error() {
    let r = Module::new("/mods/shell".to_string(), Ok(def(true, false, &[])), &vec![None]);
    assert!(matches!(r, Err(ModuleError::Script(ref n, ref l)) if n == "shell" && l == "init"));
}

#[test]
fn init_script_without_execute_is_a_script_error() {
    let r = Module::new("/mods/shell".to_string(), Ok(def(true, false, &[])), &vec![Some(0o644)]);
    assert!(matches!(r, Err(ModuleError::Script(ref n, ref l)) if n == "shell" && l == "init"));
}

#[test]
fn unreadable_cleanup_script_is_a_script_error() {
    let r = Module::new(
        "/mods/shell".to_string(),
        Ok(def(true, true, &[])),
        &vec![Some(0o755), Some(0o600)],
    );
    assert!(matches!(r, Err(ModuleError::Script(_, ref l)) if l == "cleanup"));
}

#[test]
fn unreadable_resource_is_a_resource_error() {
    let d = def(false, false, &[("bashrc", ".bashrc"), ("vimrc", ".vimrc")]);
    let r = Module::new("/mods/shell".to_string(), Ok(d), &vec![Some(0o644), Some(0o044)]);
    assert!(matches!(r, Err(ModuleError::Resource(ref n, ref k)) if n == "shell" && k == "vimrc"));
}

#[test]
fn verification_stops_at_the_first_failure() {
    let d = def(true, false, &[("bashrc", ".bashrc")]);
    let r = Module::new("/mods/shell".to_string(), Ok(d), &vec![None, None]);
    assert!(matches!(r, Err(ModuleError::Script(_, ref l)) if l == "init"));
}

#[test]
fn minimal_module_loads() {
    let m = module("/mods/minimal", def(false, false, &[]));
    assert_eq!(m.name(), "minimal");
    assert_eq!(m.path(), "/mods/minimal");
}

#[test]
fn read_and_decode_failures_name_the_module() {
    let r = Module::new("/mods/broken".to_string(), Err(LoadError::Read(io_error())), &vec![]);
    assert!(matches!(r, Err(ModuleError::IO(ref n, _)) if n == "broken"));
    let bad: Result<toml::Value, toml::de::Error> = toml::from_str("resources = [");
    let e = bad.err().unwrap();
    let r = Module::new("/mods/broken".to_string(), Err(LoadError::Decode(e)), &vec![]);
    assert!(matches!(r, Err(ModuleError::Parse(ref n, _)) if n == "broken"));
}

#[test]
fn path_without_final_component_is_refused() {
    let r = Module::new("/".to_string(), Ok(def(false, false, &[])), &vec![]);
    assert!(matches!(r, Err(ModuleError::Directory)));
}

#[test]
fn list_keeps_one_outcome_per_directory() {
    let bad: Result<toml::Value, toml::de::Error> = toml::from_str("init = ");
    let entries = vec![
        Entry::Dir("/mods/good".to_string(), Ok(def(false, false, &[])), vec![]),
        Entry::Other,
        Entry::Dir("/mods/bad".to_string(), Err(LoadError::Decode(bad.err().unwrap())), vec![]),
    ];
    let listed = match Module::list(Ok(entries)) {
        Ok(v) => v,
        Err(_) => panic!("scan succeeded"),
    };
    assert_eq!(listed.len(), 2);
    assert_eq!(listed.iter().filter(|r| r.is_ok()).count(), 1);
    assert!(matches!(listed[0], Ok(ref m) if m.name() == "good"));
    assert!(matches!(listed[1], Err(ModuleError::Parse(ref n, _)) if n == "bad"));
}

#[test]
fn list_of_unreadable_directory_is_one_error() {
    assert!(matches!(Module::list(Err(io_error())), Err(ModuleError::Directory)));
}

#[test]
fn first_blocking_ancestor_is_reported() {
    let ancestors = vec![
        Ancestor { path: "/home/u/a/b".to_string(), blocked: false },
        Ancestor { path: "/home/u/a".to_string(), blocked: true },
        Ancestor { path: "/home/u".to_string(), blocked: true },
    ];
    assert_eq!(verify_module_creation(&ancestors), Err("/home/u/a".to_string()));
    assert_eq!(verify_module_creation(&vec![]), Ok(()));
}

fn expect_path(a: &Action, f: fn(&Action) -> Option<&String>, p: &str) {
    assert_eq!(f(a).map(|s| s.as_str()), Some(p));
}

fn inspected(a: &Action) -> Option<&String> {
    match a {
        Action::Inspect(p) => Some(p),
        _ => None,
    }
}

#[test]
fn install_then_uninstall_on_a_clean_home() {
    let m = module("/mods/shell", def(false, false, &[("bashrc", ".bashrc")]));
    let home = "/home/u".to_string();
    let (mut inst, a) = Installer::new(&m, home.clone(), false);
    expect_path(&a, inspected, "/home/u/.bashrc");
    let a = inst.step(&m, Event::Seen(Presence::Missing));
    assert!(matches!(a, Action::InspectAncestors(ref p) if p == "/home/u/.bashrc"));
    let a = inst.step(&m, Event::Ancestors(vec![]));
    assert!(
        matches!(a, Action::Link(ref s, ref t) if s == "/mods/shell/bashrc" && t == "/home/u/.bashrc")
    );
    let a = inst.step(&m, Event::Completed);
    assert!(matches!(a, Action::Done(Ok(()))));

    let (mut un, a) = Uninstaller::new(&m, home, false);
    expect_path(&a, inspected, "/home/u/.bashrc");
    let a = un.step(&m, Event::Seen(Presence::File));
    assert!(matches!(a, Action::ReadLink(ref p) if p == "/home/u/.bashrc"));
    let a = un.step(&m, Event::LinkRead(Ok("/mods/shell/bashrc".to_string())));
    expect_path(&a, inspected, "/home/u/.bashrc");
    let a = un.step(&m, Event::Seen(Presence::File));
    assert!(matches!(a, Action::RemoveFile(ref p) if p == "/home/u/.bashrc"));
    let a = un.step(&m, Event::Completed);
    assert!(matches!(a, Action::Done(Ok(()))));
}

#[test]
fn occupied_target_conflicts_unless_forced() {
    let m = module("/mods/shell", def(false, false, &[("bashrc", ".bashrc")]));
    let (mut inst, _) = Installer::new(&m, "/home/u".to_string(), false);
    let a = inst.step(&m, Event::Seen(Presence::File));
    assert!(
        matches!(a, Action::Done(Err(ModuleError::Install(ref n, ref t))) if n == "shell" && t == "/home/u/.bashrc")
    );

    let (mut inst, _) = Installer::new(&m, "/home/u".to_string(), true);
    let a = inst.step(&m, Event::Seen(Presence::File));
    assert!(matches!(a, Action::RemoveFile(ref p) if p == "/home/u/.bashrc"));
    let a = inst.step(&m, Event::Completed);
    assert!(
        matches!(a, Action::Link(ref s, ref t) if s == "/mods/shell/bashrc" && t == "/home/u/.bashrc")
    );
    let a = inst.step(&m, Event::Completed);
    assert!(matches!(a, Action::Done(Ok(()))));
}

#[test]
fn occupied_directory_target_is_removed_as_a_directory() {
    let m = module("/mods/vim", def(false, false, &[("vim", ".vim")]));
    let (mut inst, _) = Installer::new(&m, "/home/u".to_string(), true);
    let a = inst.step(&m, Event::Seen(Presence::Other));
    assert!(matches!(a, Action::RemoveDir(ref p) if p == "/home/u/.vim"));
}

#[test]
fn blocked_ancestor_conflicts_unless_forced() {
    let m = module("/mods/vim", def(false, false, &[("vimrc", ".config/vim/vimrc")]));
    let ancestors = vec![
        Ancestor { path: "/home/u/.config/vim/vimrc".to_string(), blocked: false },
        Ancestor { path: "/home/u/.config/vim".to_string(), blocked: false },
        Ancestor { path: "/home/u/.config".to_string(), blocked: true },
    ];
    let (mut inst, _) = Installer::new(&m, "/home/u".to_string(), false);
    inst.step(&m, Event::Seen(Presence::Missing));
    let a = inst.step(&m, Event::Ancestors(ancestors));
    assert!(
        matches!(a, Action::Done(Err(ModuleError::InstallPath(_, ref p))) if p == "/home/u/.config")
    );

    let ancestors = vec![Ancestor { path: "/home/u/.config".to_string(), blocked: true }];
    let (mut inst, _) = Installer::new(&m, "/home/u".to_string(), true);
    inst.step(&m, Event::Seen(Presence::Missing));
    let a = inst.step(&m, Event::Ancestors(ancestors));
    assert!(matches!(a, Action::RemoveFile(ref p) if p == "/home/u/.config"));
}

#[test]
fn failed_removal_ends_install_with_io_error() {
    let m = module("/mods/shell", def(false, false, &[("bashrc", ".bashrc")]));
    let (mut inst, _) = Installer::new(&m, "/home/u".to_string(), true);
    inst.step(&m, Event::Seen(Presence::File));
    let a = inst.step(&m, Event::Failed(io_error()));
    assert!(matches!(a, Action::Done(Err(ModuleError::IO(ref n, _))) if n == "shell"));
}

#[test]
fn init_script_runs_after_links_and_its_failure_is_reported() {
    let m = module("/mods/shell", def(true, false, &[]));
    let (mut inst, a) = Installer::new(&m, "/home/u".to_string(), false);
    assert!(matches!(a, Action::Run(ref p) if p == "/mods/shell/init.sh"));
    let a = inst.step(&m, Event::Exited(false));
    assert!(
        matches!(a, Action::Done(Err(ModuleError::Exec(ref n, ref s))) if n == "shell" && s == "init")
    );
}

#[test]
fn foreign_link_is_not_removed() {
    let m = module("/mods/shell", def(false, false, &[("bashrc", ".bashrc")]));
    let (mut un, _) = Uninstaller::new(&m, "/home/u".to_string(), false);
    un.step(&m, Event::Seen(Presence::File));
    let a = un.step(&m, Event::LinkRead(Ok("/elsewhere/bashrc".to_string())));
    assert!(
        matches!(a, Action::Done(Err(ModuleError::Uninstall(ref n, ref p))) if n == "shell" && p == "/elsewhere/bashrc")
    );
}

#[test]
fn unreadable_link_is_an_io_error() {
    let m = module("/mods/shell", def(false, false, &[("bashrc", ".bashrc")]));
    let (mut un, _) = Uninstaller::new(&m, "/home/u".to_string(), false);
    un.step(&m, Event::Seen(Presence::File));
    let a = un.step(&m, Event::LinkRead(Err(io_error())));
    assert!(matches!(a, Action::Done(Err(ModuleError::IO(_, _)))));
}

#[test]
fn forced_uninstall_skips_checks_and_missing_targets() {
    let m = module("/mods/shell", def(false, true, &[("bashrc", ".bashrc"), ("vim", ".vim")]));
    let (mut un, a) = Uninstaller::new(&m, "/home/u".to_string(), true);
    expect_path(&a, inspected, "/home/u/.bashrc");
    let a = un.step(&m, Event::Seen(Presence::Missing));
    expect_path(&a, inspected, "/home/u/.vim");
    let a = un.step(&m, Event::Seen(Presence::Other));
    assert!(matches!(a, Action::RemoveDir(ref p) if p == "/home/u/.vim"));
    let a = un.step(&m, Event::Completed);
    assert!(matches!(a, Action::Run(ref p) if p == "/mods/shell/cleanup.sh"));
    let a = un.step(&m, Event::Exited(false));
    assert!(matches!(a, Action::Done(Err(ModuleError::Exec(_, ref s))) if s == "cleanup"));
}

#[test]
fn awaits_matches_the_pending_action() {
    let m = module("/mods/shell", def(false, false, &[("bashrc", ".bashrc")]));
    let (inst, _) = Installer::new(&m, "/home/u".to_string(), false);
    assert!(inst.awaits(&Event::Seen(Presence::Missing)));
    assert!(!inst.awaits(&Event::Completed));
    let (un, _) = Uninstaller::new(&m, "/home/u".to_string(), false);
    assert!(un.awaits(&Event::Seen(Presence::File)));
    assert!(!un.awaits(&Event::Exited(true)));
}

#[test]
fn module_methods_start_install_and_uninstall() {
    let m = module("/mods/shell", def(false, false, &[("bashrc", ".bashrc")]));
    let (_, a) = m.install("/home/u".to_string(), false);
    expect_path(&a, inspected, "/home/u/.bashrc");
    let (_, a) = m.uninstall("/home/u".to_string(), false);
    expect_path(&a, inspected, "/home/u/.bashrc");
}

#[test]
fn link_equal_as_a_path_is_accepted() {
    let m = module("/mods/shell", def(false, false, &[("bashrc", ".bashrc")]));
    let (mut un, _) = m.uninstall("/home/u".to_string(), false);
    un.step(&m, Event::Seen(Presence::File));
    let a = un.step(&m, Event::LinkRead(Ok("/mods//shell/bashrc".to_string())));
    expect_path(&a, inspected, "/home/u/.bashrc");
}
