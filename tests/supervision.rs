use aegis_desktop::dir_path::DirPath;
use aegis_desktop::lifecycle::{actions_for, Action, AppEvent, MenuCommand};
use aegis_desktop::supervisor::{companion_dir, launch_plan, Platform, ServerSupervisor, StartStep};

fn path(anchor: &str, parts: &[&str]) -> DirPath {
    DirPath::new(anchor.to_string(), parts.iter().map(|p| p.to_string()).collect())
}

fn strings(v: &[String]) -> Vec<&str> {
    v.iter().map(|s| s.as_str()).collect()
}

/// Stands in for the host's process spawning and termination.
struct SpawnStub {
    next_handle: u32,
    spawned: Vec<u32>,
    killed: Vec<u32>,
    fail: bool,
}

impl SpawnStub {
    fn new() -> Self {
        SpawnStub { next_handle: 1, spawned: Vec::new(), killed: Vec::new(), fail: false }
    }

    fn start(&mut self, sup: &mut ServerSupervisor<u32>, cwd: Option<&DirPath>) -> bool {
        let step = sup.plan_start(cwd, Platform::Unix);
        let handle = match &step {
            StartStep::Spawn(_) if !self.fail => {
                let h = self.next_handle;
                self.next_handle += 1;
                self.spawned.push(h);
                Some(h)
            }
            _ => None,
        };
        sup.complete_start(&step, handle)
    }

    fn stop(&mut self, sup: &mut ServerSupervisor<u32>) {
        if let Some(h) = sup.stop() {
            self.killed.push(h);
        }
    }
}

fn deep_cwd() -> DirPath {
    path("/", &["home", "dev", "aegis", "packages", "desktop"])
}

#[test]
fn parent_of_anchor_is_none() {
    assert!(path("/", &[]).parent().is_none());
    let p = path("/", &["a", "b"]).parent().unwrap();
    assert_eq!(p.anchor, "/");
    assert_eq!(strings(&p.parts), vec!["a"]);
    assert_eq!(p.depth(), 1);
}

#[test]
fn join_appends_component() {
    let p = path("C:\\", &["work"]).join("packages");
    assert_eq!(p.anchor, "C:\\");
    assert_eq!(strings(&p.parts), vec!["work", "packages"]);
}

#[test]
fn companion_dir_ascends_two_levels() {
    let d = companion_dir(&deep_cwd()).unwrap();
    assert_eq!(d.anchor, "/");
    assert_eq!(strings(&d.parts), vec!["home", "dev", "aegis", "packages", "dashboard"]);
    let d2 = companion_dir(&path("/", &["a", "b"])).unwrap();
    assert_eq!(strings(&d2.parts), vec!["packages", "dashboard"]);
}

#[test]
fn companion_dir_needs_two_ancestors() {
    assert!(companion_dir(&path("/", &["a"])).is_none());
    assert!(companion_dir(&path("/", &[])).is_none());
}

#[test]
fn launch_plan_per_platform() {
    let w = launch_plan(path("/", &["x"]), Platform::Windows);
    assert_eq!(w.program, "cmd");
    assert_eq!(strings(&w.args), vec!["/C", "npm", "run", "dev:server"]);
    assert_eq!(strings(&w.dir.parts), vec!["x"]);
    let u = launch_plan(path("/", &["x"]), Platform::Unix);
    assert_eq!(u.program, "npm");
    assert_eq!(strings(&u.args), vec!["run", "dev:server"]);
}

#[test]
fn plan_start_spawns_in_companion_dir() {
    let sup: ServerSupervisor<u32> = ServerSupervisor::new();
    match sup.plan_start(Some(&deep_cwd()), Platform::Windows) {
        StartStep::Spawn(plan) => {
            assert_eq!(plan.program, "cmd");
            assert_eq!(strings(&plan.dir.parts), vec!["home", "dev", "aegis", "packages", "dashboard"]);
        }
        _ => panic!("expected a spawn"),
    }
}

#[test]
fn start_twice_spawns_once() {
    let mut sup = ServerSupervisor::new();
    let mut stub = SpawnStub::new();
    assert!(stub.start(&mut sup, Some(&deep_cwd())));
    assert!(stub.start(&mut sup, Some(&deep_cwd())));
    assert_eq!(stub.spawned, vec![1]);
    assert!(sup.is_running());
}

#[test]
fn stop_without_start_is_noop() {
    let mut sup: ServerSupervisor<u32> = ServerSupervisor::new();
    assert!(sup.stop().is_none());
    assert!(!sup.is_running());
    assert!(sup.stop().is_none());
}

#[test]
fn stop_after_start_empties() {
    let mut sup = ServerSupervisor::new();
    let mut stub = SpawnStub::new();
    assert!(stub.start(&mut sup, Some(&deep_cwd())));
    stub.stop(&mut sup);
    assert!(!sup.is_running());
    assert_eq!(stub.killed, vec![1]);
    stub.stop(&mut sup);
    assert_eq!(stub.killed, vec![1]);
}

#[test]
fn many_serialized_starts_spawn_once() {
    let lock = std::sync::Mutex::new(ServerSupervisor::new());
    let mut stub = SpawnStub::new();
    for _ in 0..16 {
        let mut guard = lock.lock().unwrap();
        assert!(stub.start(&mut guard, Some(&deep_cwd())));
    }
    assert_eq!(stub.spawned.len(), 1);
}

#[test]
fn failed_spawn_reports_false_and_can_retry() {
    let mut sup = ServerSupervisor::new();
    let mut stub = SpawnStub::new();
    stub.fail = true;
    assert!(!stub.start(&mut sup, Some(&deep_cwd())));
    assert!(!sup.is_running());
    stub.fail = false;
    assert!(stub.start(&mut sup, Some(&deep_cwd())));
    assert_eq!(stub.spawned, vec![1]);
}

#[test]
fn already_running_skips_path_resolution() {
    let mut sup = ServerSupervisor::new();
    let mut stub = SpawnStub::new();
    assert!(stub.start(&mut sup, Some(&deep_cwd())));
    assert!(matches!(sup.plan_start(None, Platform::Unix), StartStep::AlreadyRunning));
    assert!(stub.start(&mut sup, None));
    assert_eq!(stub.spawned, vec![1]);
}

#[test]
fn launch_then_quit_scenario() {
    let mut sup = ServerSupervisor::new();
    let mut stub = SpawnStub::new();
    assert_eq!(actions_for(AppEvent::Launch), vec![Action::StartServer]);
    assert!(stub.start(&mut sup, Some(&deep_cwd())));
    assert!(sup.is_running());
    let quit = actions_for(AppEvent::Menu(MenuCommand::Quit));
    assert_eq!(quit, vec![Action::StopServer, Action::ExitApp]);
    stub.stop(&mut sup);
    assert_eq!(stub.killed, vec![1]);
    assert!(!sup.is_running());
}

#[test]
fn unresolvable_root_scenario() {
    let mut sup = ServerSupervisor::new();
    let mut stub = SpawnStub::new();
    let shallow = path("/", &["opt"]);
    assert!(matches!(sup.plan_start(Some(&shallow), Platform::Unix), StartStep::Unresolved));
    assert!(!stub.start(&mut sup, Some(&shallow)));
    assert!(!sup.is_running());
    assert!(stub.spawned.is_empty());
    assert!(!stub.start(&mut sup, None));
    assert!(stub.spawned.is_empty());
}
