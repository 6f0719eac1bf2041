use backend_supervisor::command::{reveal_command, Platform};
use backend_supervisor::supervisor::{
    launch_plan, parent_pid_args, tree_kill_command, BackendHandle, LaunchMode, LaunchPlan,
    RunningBackend, Supervisor,
};
use backend_supervisor::text::{decimal_string, joined};

fn strings(v: &[&str]) -> Vec<String> {
    v.iter().map(|s| s.to_string()).collect()
}

#[test]
fn decimal_of_small_and_large_numbers() {
    assert_eq!(decimal_string(0), "0");
    assert_eq!(decimal_string(7), "7");
    assert_eq!(decimal_string(10), "10");
    assert_eq!(decimal_string(4711), "4711");
    assert_eq!(decimal_string(u32::MAX), "4294967295");
}

#[test]
fn joined_concatenates() {
    assert_eq!(joined("ab", "cd"), "abcd");
    assert_eq!(joined("", ""), "");
}

#[test]
fn parent_pid_argument_pair() {
    assert_eq!(parent_pid_args(1234), strings(&["--parent-pid", "1234"]));
}

#[test]
fn development_plan_prefers_virtual_environment() {
    match launch_plan(LaunchMode::Development, true, 99) {
        LaunchPlan::Interpreter(c) => {
            assert_eq!(c.program, "../.venv312/Scripts/python.exe");
            assert_eq!(c.args, strings(&["../backend/main.py", "--parent-pid", "99"]));
        }
        LaunchPlan::Sidecar { .. } => panic!("development must spawn an interpreter"),
    }
}

#[test]
fn development_plan_falls_back_to_python_on_path() {
    match launch_plan(LaunchMode::Development, false, 5) {
        LaunchPlan::Interpreter(c) => {
            assert_eq!(c.program, "python");
            assert_eq!(c.args, strings(&["../backend/main.py", "--parent-pid", "5"]));
        }
        LaunchPlan::Sidecar { .. } => panic!("development must spawn an interpreter"),
    }
}

#[test]
fn production_plan_uses_sidecar() {
    match launch_plan(LaunchMode::Production, true, 321) {
        LaunchPlan::Sidecar { name, args } => {
            assert_eq!(name, "backend");
            assert_eq!(args, strings(&["--parent-pid", "321"]));
        }
        LaunchPlan::Interpreter(_) => panic!("production must spawn the sidecar"),
    }
}

#[test]
fn new_supervisor_is_empty() {
    let s: Supervisor<u8, char> = Supervisor::new();
    assert!(!s.is_running());
    assert_eq!(s.pid(), None);
}

#[test]
fn startup_stores_exactly_the_spawned_kind() {
    let mut s: Supervisor<u8, char> = Supervisor::new();
    s.record_spawn(Some(RunningBackend { handle: BackendHandle::Dev(1), pid: 40 }));
    assert!(s.is_running());
    assert_eq!(s.pid(), Some(40));
    let t = s.begin_exit(Platform::Linux).expect("a backend was held");
    assert!(matches!(t.backend.handle, BackendHandle::Dev(1)));

    let mut p: Supervisor<u8, char> = Supervisor::new();
    p.record_spawn(Some(RunningBackend { handle: BackendHandle::Sidecar('s'), pid: 41 }));
    let t = p.begin_exit(Platform::Linux).expect("a backend was held");
    assert!(matches!(t.backend.handle, BackendHandle::Sidecar('s')));
}

#[test]
fn exit_empties_slot_and_plans_tree_kill_on_windows() {
    let mut s: Supervisor<u8, char> = Supervisor::new();
    s.record_spawn(Some(RunningBackend { handle: BackendHandle::Sidecar('x'), pid: 4242 }));
    let t = s.begin_exit(Platform::Windows).expect("a backend was held");
    assert!(!s.is_running());
    assert_eq!(t.backend.pid, 4242);
    let kill = t.tree_kill.expect("windows needs a tree kill");
    assert_eq!(kill.program, "taskkill");
    assert_eq!(kill.args, strings(&["/F", "/T", "/PID", "4242"]));
}

#[test]
fn exit_without_tree_kill_elsewhere() {
    for platform in [Platform::Linux, Platform::MacOs] {
        let mut s: Supervisor<u8, char> = Supervisor::new();
        s.record_spawn(Some(RunningBackend { handle: BackendHandle::Dev(3), pid: 77 }));
        let t = s.begin_exit(platform).expect("a backend was held");
        assert!(t.tree_kill.is_none());
        assert_eq!(t.backend.pid, 77);
        assert!(!s.is_running());
    }
}

#[test]
fn second_exit_is_a_no_op() {
    let mut s: Supervisor<u8, char> = Supervisor::new();
    s.record_spawn(Some(RunningBackend { handle: BackendHandle::Dev(9), pid: 12 }));
    assert!(s.begin_exit(Platform::Windows).is_some());
    assert!(s.begin_exit(Platform::Windows).is_none());
    assert!(!s.is_running());
}

#[test]
fn spawn_failure_leaves_slot_empty_and_exit_clean() {
    let mut s: Supervisor<u8, char> = Supervisor::new();
    s.record_spawn(None);
    assert!(!s.is_running());
    assert!(s.begin_exit(Platform::Windows).is_none());
    assert!(!s.is_running());
}

#[test]
fn tree_kill_targets_the_pid() {
    let c = tree_kill_command(0);
    assert_eq!(c.program, "taskkill");
    assert_eq!(c.args, strings(&["/F", "/T", "/PID", "0"]));
}

#[test]
fn reveal_commands_per_platform() {
    let w = reveal_command(Platform::Windows, "C:\\out\\a.wav");
    assert_eq!(w.program, "explorer");
    assert_eq!(w.args, strings(&["/select,", "C:\\out\\a.wav"]));
    let m = reveal_command(Platform::MacOs, "/tmp/a.wav");
    assert_eq!(m.program, "open");
    assert_eq!(m.args, strings(&["-R", "/tmp/a.wav"]));
    let l = reveal_command(Platform::Linux, "/tmp/a.wav");
    assert_eq!(l.program, "xdg-open");
    assert_eq!(l.args, strings(&["/tmp/a.wav"]));
}
