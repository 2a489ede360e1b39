use vstd::prelude::*;
use crate::dir_path::DirPath;

verus! {

/// Host platform family; it decides how the companion's launch command is
/// invoked.
#[derive(Clone, Copy, Debug, PartialEq, Eq, Structural)]
pub enum Platform {
    /// Invocation goes through the command interpreter (`cmd /C`).
    Windows,
    /// The package manager is invoked directly.
    Unix,
}

/// What the host must run to bring the companion server up.
pub struct LaunchPlan {
    pub program: String,
    pub args: Vec<String>,
    pub dir: DirPath,
}

/// The decision a start request comes to, taken while the supervisor's lock
/// is held.
pub enum StartStep {
    /// A handle is already stored: the request succeeds without spawning.
    AlreadyRunning,
    /// The application root could not be resolved: nothing is spawned and
    /// the request fails.
    Unresolved,
    /// Nothing is stored: the host spawns the given plan.
    Spawn(LaunchPlan),
}

/// Directory of the companion package, below the application root.
pub open spec fn companion_subdirs() -> Seq<Seq<char>> {
    seq!["packages"@, "dashboard"@]
}

/// The companion's directory for a working directory with the given
/// components: the grandparent, then the package directories. `None` when
/// the working directory has fewer than two ancestors.
pub open spec fn companion_dir_spec(cwd: Seq<Seq<char>>) -> Option<Seq<Seq<char>>> {
    if cwd.len() < 2 {
        None
    } else {
        Some(cwd.subrange(0, cwd.len() - 2) + companion_subdirs())
    }
}

pub open spec fn launch_program_spec(platform: Platform) -> Seq<char> {
    match platform {
        Platform::Windows => "cmd"@,
        Platform::Unix => "npm"@,
    }
}

pub open spec fn launch_args_spec(platform: Platform) -> Seq<Seq<char>> {
    match platform {
        Platform::Windows => seq!["/C"@, "npm"@, "run"@, "dev:server"@],
        Platform::Unix => seq!["run"@, "dev:server"@],
    }
}

/// Whether a start request spawns: nothing is stored and the working
/// directory, when known, resolves to an application root.
pub open spec fn start_spawns(running: bool, cwd: Option<Seq<Seq<char>>>) -> bool {
    !running && match cwd {
        Some(c) => companion_dir_spec(c).is_some(),
        None => false,
    }
}

/// Whether a handle is stored after a start request; `spawned` says whether
/// the host's spawn, if one was made, succeeded. This is also what the
/// request reports.
pub open spec fn running_after_start(
    running: bool,
    cwd: Option<Seq<Seq<char>>>,
    spawned: bool,
) -> bool {
    running || (start_spawns(running, cwd) && spawned)
}

/// Whether a handle is stored after a stop request.
pub open spec fn running_after_stop(running: bool) -> bool {
    false
}

/// Components of an optional working directory.
pub open spec fn cwd_view(cwd: Option<&DirPath>) -> Option<Seq<Seq<char>>> {
    match cwd {
        Some(d) => Some(d.parts_view()),
        None => None,
    }
}

/// Resolves the companion's directory from the shell's working directory by
/// ascending two levels and descending into the companion package.
pub fn companion_dir(cwd: &DirPath) -> (r: Option<DirPath>)
    ensures
        r.is_none() <==> companion_dir_spec(cwd.parts_view()).is_none(),
        r matches Some(d) ==> d.anchor@ == cwd.anchor@ && Some(d.parts_view())
            == companion_dir_spec(cwd.parts_view()),
{
    assert(cwd.parts_view().len() == cwd.parts@.len());
    let up = match cwd.parent() {
        Some(p) => p,
        None => return None,
    };
    assert(up.parts_view().len() == up.parts@.len());
    let root = match up.parent() {
        Some(p) => p,
        None => return None,
    };
    let d = root.join("packages").join("dashboard");
    let ghost c = cwd.parts_view();
    assert(d.parts_view() =~= c.subrange(0, c.len() - 2) + companion_subdirs());
    Some(d)
}

/// The launch command for the companion in `dir`.
pub fn launch_plan(dir: DirPath, platform: Platform) -> (r: LaunchPlan)
    ensures
        r.program@ == launch_program_spec(platform),
        r.args@.map_values(|s: String| s@) == launch_args_spec(platform),
        r.dir == dir,
{
    let mut args: Vec<String> = Vec::new();
    let program = match platform {
        Platform::Windows => {
            args.push("/C".to_owned());
            args.push("npm".to_owned());
            "cmd".to_owned()
        },
        Platform::Unix => "npm".to_owned(),
    };
    args.push("run".to_owned());
    args.push("dev:server".to_owned());
    assert(args@.map_values(|s: String| s@) =~= launch_args_spec(platform));
    LaunchPlan { program, args, dir }
}

/// Exclusive owner of at most one handle of the supervised process.
///
/// The host keeps one value of this type behind a lock and makes every
/// request a single critical section, so that requests from unrelated
/// callbacks are applied one after another.
pub struct ServerSupervisor<H> {
    slot: Option<H>,
}

impl<H> ServerSupervisor<H> {
    /// The stored handle, if any.
    pub closed spec fn held(&self) -> Option<H> {
        self.slot
    }

    /// An empty supervisor: no process has been spawned.
    pub fn new() -> (r: Self)
        ensures
            r.held().is_none(),
    {
        ServerSupervisor { slot: None }
    }

    /// Whether a handle is stored. This says that a process was spawned and
    /// not stopped since, not that it is still alive.
    pub fn is_running(&self) -> (r: bool)
        ensures
            r == self.held().is_some(),
    {
        self.slot.is_some()
    }

    /// Decides what a start request does. A stored handle is taken as running
    /// without any liveness check. `cwd` is `None` when the working directory
    /// could not be determined.
    pub fn plan_start(&self, cwd: Option<&DirPath>, platform: Platform) -> (r: StartStep)
        ensures
            (r is Spawn) == start_spawns(self.held().is_some(), cwd_view(cwd)),
            (r is AlreadyRunning) == self.held().is_some(),
            r matches StartStep::Spawn(plan) ==> {
                &&& cwd matches Some(c)
                &&& plan.dir.anchor@ == c.anchor@
                &&& companion_dir_spec(c.parts_view()) == Some(plan.dir.parts_view())
                &&& plan.program@ == launch_program_spec(platform)
                &&& plan.args@.map_values(|s: String| s@) == launch_args_spec(platform)
            },
    {
        if self.slot.is_some() {
            return StartStep::AlreadyRunning;
        }
        match cwd {
            None => StartStep::Unresolved,
            Some(c) => match companion_dir(c) {
                None => StartStep::Unresolved,
                Some(d) => StartStep::Spawn(launch_plan(d, platform)),
            },
        }
    }

    /// Completes a start request decided by `plan_start` on this same state.
    /// `spawned` is what the host's spawn gave, and is `None` where no spawn
    /// was made. Returns whether the request succeeded.
    pub fn complete_start(&mut self, step: &StartStep, spawned: Option<H>) -> (r: bool)
        requires
            (step is AlreadyRunning) == old(self).held().is_some(),
            !(step is Spawn) ==> spawned.is_none(),
        ensures
            r == final(self).held().is_some(),
            step is Spawn ==> final(self).held() == spawned,
            !(step is Spawn) ==> final(self).held() == old(self).held(),
            step is AlreadyRunning ==> r,
            step is Unresolved ==> !r,
    {
        match step {
            StartStep::Spawn(_) => {
                self.slot = spawned;
            },
            _ => {},
        }
        self.slot.is_some()
    }

    /// Takes the stored handle out, leaving the supervisor empty. The host
    /// terminates what comes back, best effort; `None` means there was
    /// nothing to stop.
    pub fn stop(&mut self) -> (r: Option<H>)
        ensures
            r == old(self).held(),
            final(self).held().is_some() == running_after_stop(old(self).held().is_some()),
            final(self).held().is_none(),
    {
        self.slot.take()
    }
}

/// A start request that reports success, followed by a second one with no
/// stop in between: the second spawns nothing and reports success too, so the
/// two together spawn at most once.
pub proof fn lemma_repeated_start(
    running: bool,
    cwd1: Option<Seq<Seq<char>>>,
    spawned1: bool,
    cwd2: Option<Seq<Seq<char>>>,
    spawned2: bool,
)
    requires
        running_after_start(running, cwd1, spawned1),
    ensures
        !start_spawns(running_after_start(running, cwd1, spawned1), cwd2),
        running_after_start(running_after_start(running, cwd1, spawned1), cwd2, spawned2),
        (if start_spawns(running, cwd1) { 1int } else { 0int }) + (if start_spawns(
            running_after_start(running, cwd1, spawned1),
            cwd2,
        ) { 1int } else { 0int }) <= 1,
{
}

/// Whether a handle is stored after a run of start requests, each given as
/// its working directory and whether the host's spawn succeeded.
pub open spec fn running_after_starts(
    running: bool,
    reqs: Seq<(Option<Seq<Seq<char>>>, bool)>,
) -> bool
    decreases reqs.len(),
{
    if reqs.len() == 0 {
        running
    } else {
        running_after_starts(
            running_after_start(running, reqs[0].0, reqs[0].1),
            reqs.subrange(1, reqs.len() as int),
        )
    }
}

/// Number of processes actually spawned by a run of start requests.
pub open spec fn processes_spawned(
    running: bool,
    reqs: Seq<(Option<Seq<Seq<char>>>, bool)>,
) -> nat
    decreases reqs.len(),
{
    if reqs.len() == 0 {
        0
    } else {
        let n: nat = if start_spawns(running, reqs[0].0) && reqs[0].1 { 1 } else { 0 };
        n + processes_spawned(
            running_after_start(running, reqs[0].0, reqs[0].1),
            reqs.subrange(1, reqs.len() as int),
        )
    }
}

/// Whether some request of the run would spawn successfully from an empty
/// supervisor.
pub open spec fn some_start_succeeds(reqs: Seq<(Option<Seq<Seq<char>>>, bool)>) -> bool {
    exists|i: int| 0 <= i < reqs.len() && start_spawns(false, #[trigger] reqs[i].0) && reqs[i].1
}

/// Start requests from any number of callers, applied one after another
/// under the lock: from an empty supervisor exactly one process is spawned
/// when some spawn succeeds and none otherwise; with a handle stored, none.
pub proof fn lemma_serialized_starts(running: bool, reqs: Seq<(Option<Seq<Seq<char>>>, bool)>)
    ensures
        running ==> processes_spawned(running, reqs) == 0,
        !running ==> processes_spawned(running, reqs) == (if some_start_succeeds(reqs) {
            1nat
        } else {
            0nat
        }),
        processes_spawned(running, reqs) <= 1,
    decreases reqs.len(),
{
    if reqs.len() > 0 {
        let rest = reqs.subrange(1, reqs.len() as int);
        let next = running_after_start(running, reqs[0].0, reqs[0].1);
        lemma_serialized_starts(next, rest);
        if !running && !next {
            if some_start_succeeds(reqs) {
                let i = choose|i: int|
                    0 <= i < reqs.len() && start_spawns(false, #[trigger] reqs[i].0) && reqs[i].1;
                assert(i != 0);
                assert(rest[i - 1] == reqs[i]);
                assert(some_start_succeeds(rest));
            }
            if some_start_succeeds(rest) {
                let j = choose|j: int|
                    0 <= j < rest.len() && start_spawns(false, #[trigger] rest[j].0) && rest[j].1;
                assert(reqs[j + 1] == rest[j]);
                assert(some_start_succeeds(reqs));
            }
        }
        if !running && next {
            assert(start_spawns(false, reqs[0].0) && reqs[0].1);
            assert(some_start_succeeds(reqs));
        }
    }
}

/// A stop after a start leaves the supervisor empty, whatever the start did,
/// so a running query then reports nothing until a new start.
pub proof fn lemma_stop_after_start(running: bool, cwd: Option<Seq<Seq<char>>>, spawned: bool)
    ensures
        !running_after_stop(running_after_start(running, cwd, spawned)),
{
}

} // verus!
