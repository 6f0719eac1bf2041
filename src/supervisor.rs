use vstd::prelude::*;

use crate::command::{ExternalCommand, Platform};
use crate::text::{decimal, decimal_string};

verus! {

/// Which of the two launch paths the host takes.
#[derive(Clone, Copy, Debug, PartialEq, Eq, Structural)]
pub enum LaunchMode {
    /// An interpreter runs the backend script directly.
    Development,
    /// The packaged sidecar executable runs the backend.
    Production,
}

/// How to start the backend for one launch mode.
pub enum LaunchPlan {
    /// Spawn this interpreter command with standard input piped.
    Interpreter(ExternalCommand),
    /// Spawn the packaged executable of this logical name with these arguments.
    Sidecar { name: String, args: Vec<String> },
}

/// The handle of a running backend: a directly spawned process `D` or a sidecar `S`.
pub enum BackendHandle<D, S> {
    Dev(D),
    Sidecar(S),
}

/// A backend that was started, with its OS process identifier recorded at spawn time.
pub struct RunningBackend<D, S> {
    pub handle: BackendHandle<D, S>,
    pub pid: u32,
}

/// What the slot holds, seen abstractly: the kind of handle and the process identifier.
pub struct HandleView {
    pub mode: LaunchMode,
    pub pid: u32,
}

/// The slot's abstract content: empty, or one handle.
pub type SlotView = Option<HandleView>;

impl<D, S> RunningBackend<D, S> {
    pub open spec fn view(&self) -> HandleView {
        HandleView {
            mode: match self.handle {
                BackendHandle::Dev(_) => LaunchMode::Development,
                BackendHandle::Sidecar(_) => LaunchMode::Production,
            },
            pid: self.pid,
        }
    }
}

/// The abstract slot of an optional backend.
pub open spec fn slot_of<D, S>(b: Option<RunningBackend<D, S>>) -> SlotView {
    match b {
        Some(r) => Some(r@),
        None => None,
    }
}

/// Whether the slot holds a development handle.
pub open spec fn holds_dev(v: SlotView) -> bool {
    v matches Some(h) && h.mode == LaunchMode::Development
}

/// Whether the slot holds a sidecar handle.
pub open spec fn holds_sidecar(v: SlotView) -> bool {
    v matches Some(h) && h.mode == LaunchMode::Production
}

/// The slot after the startup routine records a spawn result: a successful spawn is
/// stored, replacing what was there; a failed one leaves the slot as it was.
pub open spec fn after_start(v: SlotView, spawned: SlotView) -> SlotView {
    match spawned {
        Some(h) => Some(h),
        None => v,
    }
}

/// Whether terminating a backend on this platform also needs a forced kill of its
/// whole process tree, because descendants survive a direct kill there.
pub open spec fn needs_tree_kill(p: Platform) -> bool {
    p == Platform::Windows
}

/// The forced process-tree kill command for the process `pid`.
pub open spec fn tree_kill_spec(pid: u32) -> (Seq<char>, Seq<Seq<char>>) {
    ("taskkill"@, seq!["/F"@, "/T"@, "/PID"@, decimal(pid as nat)])
}

/// What the exit routine issues for a slot: nothing for an empty slot; otherwise a
/// direct kill of the held handle, and the tree kill where the platform needs it.
pub struct ExitView {
    pub target: HandleView,
    pub tree_kill: Option<(Seq<char>, Seq<Seq<char>>)>,
}

/// The operations the exit routine issues on a slot.
pub open spec fn exit_operations(v: SlotView, p: Platform) -> Option<ExitView> {
    match v {
        Some(h) => Some(
            ExitView {
                target: h,
                tree_kill: if needs_tree_kill(p) {
                    Some(tree_kill_spec(h.pid))
                } else {
                    None
                },
            },
        ),
        None => None,
    }
}

/// The slot after the exit routine: always empty.
pub open spec fn after_exit(v: SlotView) -> SlotView {
    None
}

/// The work the exit routine hands out: the handle, moved out of the slot, to kill
/// directly, and the tree kill to issue after it where the platform needs one.
pub struct Termination<D, S> {
    pub backend: RunningBackend<D, S>,
    pub tree_kill: Option<ExternalCommand>,
}

impl<D, S> Termination<D, S> {
    pub open spec fn view(&self) -> ExitView {
        ExitView {
            target: self.backend@,
            tree_kill: match self.tree_kill {
                Some(c) => Some((c.program_view(), c.args_view())),
                None => None,
            },
        }
    }
}

/// The abstract operations of an optional termination.
pub open spec fn operations_of<D, S>(t: Option<Termination<D, S>>) -> Option<ExitView> {
    match t {
        Some(t) => Some(t@),
        None => None,
    }
}

/// Owner of the single backend slot.
pub struct Supervisor<D, S> {
    slot: Option<RunningBackend<D, S>>,
}

impl<D, S> Supervisor<D, S> {
    pub closed spec fn view(&self) -> SlotView {
        slot_of(self.slot)
    }

    /// An empty supervisor, as created at application startup.
    pub fn new() -> (r: Self)
        ensures
            r@ == None::<HandleView>,
    {
        Supervisor { slot: None }
    }

    /// Whether a backend handle is held.
    pub fn is_running(&self) -> (r: bool)
        ensures
            r == self@.is_some(),
    {
        self.slot.is_some()
    }

    /// The process identifier of the held backend, if any.
    pub fn pid(&self) -> (r: Option<u32>)
        ensures
            r == (match self@ {
                Some(h) => Some(h.pid),
                None => None::<u32>,
            }),
    {
        match &self.slot {
            Some(b) => Some(b.pid),
            None => None,
        }
    }

    /// Records the result of the startup spawn: a started backend is stored; a failed
    /// spawn (`None`) leaves the slot as it was.
    pub fn record_spawn(&mut self, spawned: Option<RunningBackend<D, S>>)
        ensures
            final(self)@ == after_start(old(self)@, slot_of(spawned)),
    {
        if let Some(b) = spawned {
            self.slot = Some(b);
        }
    }

    /// Takes the held backend out of the slot, leaving it empty, and says what to do
    /// with it on `platform`: kill the handle directly, then issue the tree kill where
    /// one is planned. With an empty slot there is nothing to do.
    pub fn begin_exit(&mut self, platform: Platform) -> (r: Option<Termination<D, S>>)
        ensures
            final(self)@ == after_exit(old(self)@),
            operations_of(r) == exit_operations(old(self)@, platform),
    {
        let taken = self.slot.take();
        match taken {
            Some(backend) => {
                let tree_kill = if platform == Platform::Windows {
                    Some(tree_kill_command(backend.pid))
                } else {
                    None
                };
                Some(Termination { backend, tree_kill })
            },
            None => None,
        }
    }
}

/// The forced, recursive kill of the process tree rooted at `pid`.
pub fn tree_kill_command(pid: u32) -> (r: ExternalCommand)
    ensures
        (r.program_view(), r.args_view()) == tree_kill_spec(pid),
{
    let program = String::from_str("taskkill");
    let mut args: Vec<String> = Vec::new();
    args.push(String::from_str("/F"));
    args.push(String::from_str("/T"));
    args.push(String::from_str("/PID"));
    args.push(decimal_string(pid));
    assert(args.deep_view() =~= tree_kill_spec(pid).1);
    ExternalCommand { program, args }
}


/// The interpreter inside the project's local virtual environment, relative to the host.
pub const VENV_INTERPRETER: &'static str = "../.venv312/Scripts/python.exe";

/// The interpreter inside the project's local virtual environment, relative to the host.
pub open spec fn venv_interpreter_spec() -> Seq<char> {
    "../.venv312/Scripts/python.exe"@
}

/// The interpreter to run in development: the virtual environment's one when it is
/// present, else `python` found on the search path.
pub open spec fn interpreter_spec(venv_present: bool) -> Seq<char> {
    if venv_present {
        venv_interpreter_spec()
    } else {
        "python"@
    }
}

/// The arguments that tell the backend which process to watch as its parent.
pub open spec fn parent_pid_args_spec(parent_pid: u32) -> Seq<Seq<char>> {
    seq!["--parent-pid"@, decimal(parent_pid as nat)]
}

/// The backend script the development interpreter runs.
pub open spec fn backend_script_spec() -> Seq<char> {
    "../backend/main.py"@
}

/// The logical name of the packaged backend executable.
pub open spec fn sidecar_name_spec() -> Seq<char> {
    "backend"@
}

impl LaunchPlan {
    /// The launch mode this plan belongs to.
    pub open spec fn mode(&self) -> LaunchMode {
        match self {
            LaunchPlan::Interpreter(_) => LaunchMode::Development,
            LaunchPlan::Sidecar { .. } => LaunchMode::Production,
        }
    }

    /// The program (interpreter path or sidecar name) and the arguments.
    pub open spec fn view(&self) -> (Seq<char>, Seq<Seq<char>>) {
        match self {
            LaunchPlan::Interpreter(c) => (c.program_view(), c.args_view()),
            LaunchPlan::Sidecar { name, args } => (name@, args.deep_view()),
        }
    }
}

/// The plan for a launch mode, with the host's own process identifier `parent_pid`.
pub open spec fn launch_plan_spec(mode: LaunchMode, venv_present: bool, parent_pid: u32) -> (
    Seq<char>,
    Seq<Seq<char>>,
) {
    match mode {
        LaunchMode::Development => (
            interpreter_spec(venv_present),
            seq![backend_script_spec()] + parent_pid_args_spec(parent_pid),
        ),
        LaunchMode::Production => (sidecar_name_spec(), parent_pid_args_spec(parent_pid)),
    }
}

/// The `--parent-pid <pid>` argument pair.
pub fn parent_pid_args(parent_pid: u32) -> (r: Vec<String>)
    ensures
        r.deep_view() == parent_pid_args_spec(parent_pid),
{
    let mut args: Vec<String> = Vec::new();
    args.push(String::from_str("--parent-pid"));
    args.push(decimal_string(parent_pid));
    assert(args.deep_view() =~= parent_pid_args_spec(parent_pid));
    args
}

/// Chooses how to start the backend: in development an interpreter runs the backend
/// script (the virtual environment's interpreter when `venv_present`); in production
/// the packaged sidecar runs. Both receive `--parent-pid <parent_pid>`.
pub fn launch_plan(mode: LaunchMode, venv_present: bool, parent_pid: u32) -> (r: LaunchPlan)
    ensures
        r.mode() == mode,
        r@ == launch_plan_spec(mode, venv_present, parent_pid),
{
    let pid_args = parent_pid_args(parent_pid);
    match mode {
        LaunchMode::Development => {
            let program = if venv_present {
                String::from_str(VENV_INTERPRETER)
            } else {
                String::from_str("python")
            };
            let mut args: Vec<String> = Vec::new();
            args.push(String::from_str("../backend/main.py"));
            let mut rest = pid_args;
            args.append(&mut rest);
            assert(args.deep_view() =~= seq![backend_script_spec()] + parent_pid_args_spec(
                parent_pid,
            ));
            LaunchPlan::Interpreter(ExternalCommand { program, args })
        },
        LaunchMode::Production => {
            let name = String::from_str("backend");
            LaunchPlan::Sidecar { name, args: pid_args }
        },
    }
}

/// Whatever the launch mode, a successful spawn of its plan leaves exactly one handle
/// in a fresh slot, of that mode's kind: never both kinds, never neither.
pub proof fn lemma_startup_holds_one_kind(mode: LaunchMode, pid: u32)
    ensures
        ({
            let v = after_start(None, Some(HandleView { mode, pid }));
            &&& holds_dev(v) != holds_sidecar(v)
            &&& holds_dev(v) == (mode == LaunchMode::Development)
            &&& holds_sidecar(v) == (mode == LaunchMode::Production)
        }),
{
}

/// After the exit routine runs once, the slot is empty, whatever it held.
pub proof fn lemma_exit_empties_slot(v: SlotView, p: Platform)
    ensures
        after_exit(v) == None::<HandleView>,
        v is Some ==> exit_operations(v, p) is Some,
        exit_operations(v, p) matches Some(e) ==> e.target == v->0 && (e.tree_kill is Some)
            == needs_tree_kill(p),
{
}

/// A second run of the exit routine finds the slot empty, issues no process
/// operation and leaves the slot empty.
pub proof fn lemma_exit_twice_is_noop(v: SlotView, p: Platform, q: Platform)
    ensures
        exit_operations(after_exit(v), q) == None::<ExitView>,
        after_exit(after_exit(v)) == after_exit(v),
{
}

/// A failed spawn at startup leaves a fresh slot empty, and the exit routine that
/// follows issues nothing and leaves it empty.
pub proof fn lemma_spawn_failure_then_exit(p: Platform)
    ensures
        after_start(None, None) == None::<HandleView>,
        exit_operations(after_start(None, None), p) == None::<ExitView>,
        after_exit(after_start(None, None)) == None::<HandleView>,
{
}

} // verus!
