use vstd::prelude::*;

use crate::errors::ErrorKind;
use crate::errors::VmError;
use crate::output::EventKind;
use crate::output::Output;
use crate::output::boot_ok;
use crate::output::boot_run;
use crate::output::cmd_run;
use crate::output::event_kinds;
use crate::output::hist_boot_failed;
use crate::output::hist_complete;
use crate::output::hist_setup_failed;
use crate::output::is_failed_history;
use crate::output::is_run_history;
use crate::output::is_successful_history;
use crate::output::reps;
use crate::output::setup_ok;
use crate::output::setup_run;
use crate::qemu::Qemu;
use crate::qemu::command_script_chars;
use crate::qemu::mount_opts_9p;
use crate::qemu::mount_tag_chars;
use crate::qemu;
use crate::qga::Version;
use crate::text;

verus! {

// ---------------------------------------------------------------------------
// Events, actions and the machine
// ---------------------------------------------------------------------------

/// A request to execute a program inside the guest through the agent.
pub struct GuestExec {
    /// The program to run; not a shell.
    pub path: String,
    /// Its arguments.
    pub args: Vec<String>,
    /// Whether the host environment is forwarded into the guest.
    pub propagate_env: bool,
    /// Whether the agent should merge stdout and stderr into one stream.
    pub merged_capture: bool,
    /// Whether the driver should stream the command-output socket while the
    /// program runs.
    pub stream_output: bool,
}

/// What the driver must do next.  The driver performs the step, observes an
/// `Event`, and hands it back to the machine.
pub enum Step {
    /// Spawn the hypervisor with the plan's program and argument vector and
    /// attach a thread streaming its stdout as boot lines.
    Spawn,
    /// Poll for the agent and control sockets to appear: 5 s deadline in
    /// steps of 50 ms.
    WaitSockets,
    /// Connect to the control socket and perform its handshake: 5 s
    /// deadline in steps of 50 ms.
    ConnectControl,
    /// Handshake the guest agent, with the accelerated or emulated
    /// deadline.
    ConnectAgent,
    /// Run a program inside the guest and poll for its exit.
    Exec(GuestExec),
    /// Sleep this many seconds before the next mount retry.
    Sleep(u64),
    /// Keep performing the current step.
    Continue,
    /// Ask the hypervisor to quit over the control socket and wait for the
    /// child to exit.
    Quit,
    /// Kill the child if it is still alive, remove the three socket files,
    /// and drop the init file.
    Cleanup,
    /// The run is over.
    Finished,
}

/// The result the agent reports for a finished guest program.
pub struct ExecResult {
    /// Its exit code.
    pub exitcode: i64,
    /// Captured stdout (or the merged stream), decoded as text.
    pub out_data: Option<String>,
    /// Whether stdout was truncated by the agent.
    pub out_truncated: bool,
    /// Captured stderr, decoded as text.
    pub err_data: Option<String>,
    /// Whether stderr was truncated by the agent.
    pub err_truncated: bool,
}

/// What the driver observed for the step it performed.  Line events may
/// arrive at any time while their stage is open.
pub enum Event {
    /// The spawn succeeded or failed with an error description.
    Spawned(Result<(), String>),
    /// Both sockets appeared, or the deadline passed.
    SocketsReady(bool),
    /// The control handshake succeeded or failed; the description carries
    /// any captured child stderr.
    ControlReady(Result<(), String>),
    /// The agent handshake succeeded with the agent version, or timed out.
    AgentReady(Result<Version, String>),
    /// A line of hypervisor stdout.
    BootLine(String),
    /// A line from the command-output stream.
    CommandLine(String),
    /// The guest program exited, or the agent failed.
    ExecDone(Result<ExecResult, String>),
    /// The requested sleep has passed.
    Slept,
    /// The quit request was delivered and the child was reaped.
    QuitDone,
    /// Cleanup ran.
    CleanedUp,
}

/// Where a mount job stands: its mkdir, its n-th mount attempt, or the
/// backoff before that attempt.
#[derive(PartialEq, Eq, Structural, Clone, Copy)]
pub enum MountSub {
    /// Creating the guest mount point.
    Mkdir,
    /// Mount attempt number (0-based).
    Attempt(u8),
    /// Sleeping before this attempt number.
    Backoff(u8),
}

/// The stage the run is in.
#[derive(PartialEq, Eq, Structural, Clone, Copy)]
pub enum Phase {
    /// `BootStart` emitted, waiting for the spawn result.
    Spawning,
    /// Waiting for the sockets to appear.
    WaitingSockets,
    /// Waiting for the control handshake.
    ControlConnect,
    /// Waiting for the agent handshake.
    AgentConnect,
    /// Performing mount job `i`.
    Mounting(usize, MountSub),
    /// The user command is executing.
    Running,
    /// Best-effort sync of guest filesystems.
    Syncing,
    /// Asking the hypervisor to quit.
    Quitting,
    /// Cleanup is running.
    CleaningUp,
    /// Terminal.
    Done,
}

/// How the run ended, tracked for the event-ordering invariant.
#[derive(PartialEq, Eq, Structural, Clone, Copy)]
pub enum RunOutcome {
    /// Still in flight.
    Pending,
    /// Boot failed; `BootEnd(Err)` was the last event.
    BootFailed,
    /// Setup failed; `SetupEnd(Err)` was the last event.
    SetupFailed,
    /// The command ran; `CommandEnd(Ok(_))` carried its exit code.
    CmdOk,
    /// The agent failed the command; `CommandEnd(Err)` was emitted.
    CmdFailed,
}

/// The run state machine.  It owns the plan, tracks the stage, and emits
/// the output events; the driver performs the requested steps and feeds the
/// observed events back.
pub struct RunMachine {
    /// The plan being driven.
    pub qemu: Qemu,
    /// The stage.
    pub phase: Phase,
    /// The agent version, once the agent handshake succeeded.
    pub version: Version,
    /// The shapes of every event emitted so far.
    pub emitted: Ghost<Seq<EventKind>>,
    /// How many boot lines were emitted.
    pub nb: Ghost<nat>,
    /// How many setup lines were emitted.
    pub ns: Ghost<nat>,
    /// How many command lines were emitted.
    pub nc: Ghost<nat>,
    /// How the run ended.
    pub outcome: Ghost<RunOutcome>,
    /// Whether a `Cleanup` step was requested.
    pub cleanup_requested: Ghost<bool>,
}

// ---------------------------------------------------------------------------
// Mount jobs
// ---------------------------------------------------------------------------

/// How many mounts a run performs: the standard shared mount and the extra
/// mounts of the target.
pub open spec fn jobs_count(q: Qemu) -> nat {
    1 + q.mounts@.len()
}

/// The guest path of mount job `i`: the fixed shared path for job 0, the
/// guest path of an extra mount otherwise.
pub open spec fn job_guest_path_spec(q: Qemu, i: int) -> Seq<char> {
    if i == 0 {
        "/mnt/vmtest"@
    } else {
        q.mounts@[i - 1].0@
    }
}

/// The tag of mount job `i`, matching the tag its export was created with.
pub open spec fn job_tag_spec(q: Qemu, i: int) -> Seq<char> {
    if i == 0 {
        "shared-mount"@
    } else {
        mount_tag_chars(q.mounts@[i - 1].1.host_path@)
    }
}

/// Whether mount job `i` is mounted read-only.
pub open spec fn job_ro_spec(q: Qemu, i: int) -> bool {
    if i == 0 {
        false
    } else {
        !q.mounts@[i - 1].1.writable
    }
}

/// The mount options of a job: the transport options, with `,ro` appended
/// for a read-only mount.
pub open spec fn mount_opts_chars(ro: bool) -> Seq<char> {
    mount_opts_9p() + if ro {
        ",ro"@
    } else {
        Seq::<char>::empty()
    }
}

// ---------------------------------------------------------------------------
// The mount retry rule
// ---------------------------------------------------------------------------

/// What a finished mount attempt leads to.
#[derive(PartialEq, Eq, Structural, Clone, Copy)]
pub enum MountDecision {
    /// Exit code 0: the mount is in place.
    Success,
    /// Exit code 32 with attempts left: sleep and try again.
    Retry,
    /// Any other non-zero exit code, or attempts exhausted: the stage
    /// fails.
    Fail,
}

/// The retry rule for one mount attempt: exit code 0 succeeds; exit code 32
/// — mount(1)'s generic failure, racing VM bring-up — is retried while
/// fewer than four retries have happened; anything else is fatal.
pub open spec fn mount_decision(attempt: u8, rc: i64) -> MountDecision {
    if rc == 0 {
        MountDecision::Success
    } else if rc == 32 && attempt < 4 {
        MountDecision::Retry
    } else {
        MountDecision::Fail
    }
}

/// The outcome of a whole mount job whose successive attempts returned
/// `rcs`, starting at the given attempt number.
pub open spec fn mount_run(rcs: Seq<i64>, attempt: u8) -> MountDecision
    decreases rcs.len(),
{
    if rcs.len() == 0 {
        MountDecision::Fail
    } else {
        match mount_decision(attempt, rcs[0]) {
            MountDecision::Success => MountDecision::Success,
            MountDecision::Fail => MountDecision::Fail,
            MountDecision::Retry => mount_run(rcs.drop_first(), (attempt + 1) as u8),
        }
    }
}

/// The outcome of a mount job from its first attempt.
pub open spec fn mount_outcome(rcs: Seq<i64>) -> MountDecision {
    mount_run(rcs, 0)
}

proof fn lemma_mount_run_succeeds(rcs: Seq<i64>, attempt: u8)
    requires
        1 <= rcs.len(),
        attempt + rcs.len() <= 5,
        forall|i: int| 0 <= i < rcs.len() - 1 ==> rcs[i] == 32,
        rcs[rcs.len() - 1] == 0,
    ensures
        mount_run(rcs, attempt) == MountDecision::Success,
    decreases rcs.len(),
{
    if rcs.len() == 1 {
    } else {
        assert(rcs[0] == 32);
        assert(attempt < 4);
        let rest = rcs.drop_first();
        assert(forall|i: int| 0 <= i < rest.len() - 1 ==> rest[i] == rcs[i + 1] && rcs[i + 1]
            == 32);
        assert(rest[rest.len() - 1] == rcs[rcs.len() - 1]);
        lemma_mount_run_succeeds(rest, (attempt + 1) as u8);
    }
}

proof fn lemma_mount_run_fails(rcs: Seq<i64>, attempt: u8)
    requires
        attempt + rcs.len() == 5,
        forall|i: int| 0 <= i < rcs.len() ==> rcs[i] == 32,
    ensures
        mount_run(rcs, attempt) == MountDecision::Fail,
    decreases rcs.len(),
{
    if rcs.len() == 0 {
    } else {
        assert(rcs[0] == 32);
        if attempt < 4 {
            let rest = rcs.drop_first();
            assert(forall|i: int| 0 <= i < rest.len() ==> rest[i] == rcs[i + 1] && rcs[i + 1]
                == 32);
            lemma_mount_run_fails(rest, (attempt + 1) as u8);
        }
    }
}

/// The retry law: a mount whose attempts return exit code 32 up to four
/// times and then 0 succeeds; five consecutive 32s fail the job.
pub proof fn lemma_mount_retry_law(rcs: Seq<i64>)
    ensures
        1 <= rcs.len() <= 5 && (forall|i: int| 0 <= i < rcs.len() - 1 ==> rcs[i] == 32) && rcs[rcs.len()
            - 1] == 0 ==> mount_outcome(rcs) == MountDecision::Success,
        rcs.len() == 5 && (forall|i: int| 0 <= i < rcs.len() ==> rcs[i] == 32) ==> mount_outcome(
            rcs,
        ) == MountDecision::Fail,
{
    if 1 <= rcs.len() <= 5 && (forall|i: int| 0 <= i < rcs.len() - 1 ==> rcs[i] == 32) && rcs[rcs.len()
        - 1] == 0 {
        lemma_mount_run_succeeds(rcs, 0);
    }
    if rcs.len() == 5 && (forall|i: int| 0 <= i < rcs.len() ==> rcs[i] == 32) {
        lemma_mount_run_fails(rcs, 0);
    }
}

/// A finished mount attempt with this exit code and no captured output.
pub open spec fn exec_rc_event(rc: i64) -> Event {
    Event::ExecDone(
        Ok(
            ExecResult {
                exitcode: rc,
                out_data: None,
                out_truncated: false,
                err_data: None,
                err_truncated: false,
            },
        ),
    )
}

/// The events a driver observes while a mount job's attempts return `rcs`
/// starting at the given attempt number: each exit code, with the backoff
/// sleep after every retried failure.
pub open spec fn retry_events(rcs: Seq<i64>, attempt: u8) -> Seq<Event>
    decreases rcs.len(),
{
    if rcs.len() == 0 {
        Seq::empty()
    } else {
        match mount_decision(attempt, rcs[0]) {
            MountDecision::Retry => seq![exec_rc_event(rcs[0]), Event::Slept] + retry_events(
                rcs.drop_first(),
                (attempt + 1) as u8,
            ),
            _ => seq![exec_rc_event(rcs[0])],
        }
    }
}

/// The stage reached after observing a sequence of events.
pub open spec fn run_phases(phase: Phase, evs: Seq<Event>, jobs: nat) -> Phase
    decreases evs.len(),
{
    if evs.len() == 0 {
        phase
    } else {
        run_phases(next_phase(phase, evs[0], jobs), evs.drop_first(), jobs)
    }
}

/// A complete attempt sequence: every result but the last is retried, and
/// the last one settles the job.
pub open spec fn attempt_trace_wf(rcs: Seq<i64>, attempt: u8) -> bool
    decreases rcs.len(),
{
    rcs.len() >= 1 && match mount_decision(attempt, rcs[0]) {
        MountDecision::Retry => attempt_trace_wf(rcs.drop_first(), (attempt + 1) as u8),
        _ => rcs.len() == 1,
    }
}

/// The retry law at the machine level: from attempt `a` of mount job `i`,
/// observing the attempt results `rcs` moves the machine exactly where the
/// mount outcome says — on to the next job or into the command stage on
/// success, into cleanup on failure.
pub proof fn lemma_mount_trace(i: usize, a: u8, rcs: Seq<i64>, jobs: nat)
    requires
        i < jobs,
        a <= 4,
        attempt_trace_wf(rcs, a),
    ensures
        run_phases(Phase::Mounting(i, MountSub::Attempt(a)), retry_events(rcs, a), jobs) == (match
            mount_run(rcs, a) {
            MountDecision::Success => if i + 1 < jobs {
                Phase::Mounting((i + 1) as usize, MountSub::Mkdir)
            } else {
                Phase::Running
            },
            _ => Phase::CleaningUp,
        }),
    decreases rcs.len(),
{
    let phase = Phase::Mounting(i, MountSub::Attempt(a));
    match mount_decision(a, rcs[0]) {
        MountDecision::Retry => {
            let rest = rcs.drop_first();
            let a1 = (a + 1) as u8;
            let evs = retry_events(rcs, a);
            assert(evs == seq![exec_rc_event(rcs[0]), Event::Slept] + retry_events(rest, a1));
            assert(evs.len() >= 2);
            assert(evs[0] == exec_rc_event(rcs[0]));
            let backoff = Phase::Mounting(i, MountSub::Backoff(a1));
            let attempt1 = Phase::Mounting(i, MountSub::Attempt(a1));
            assert(next_phase(phase, evs[0], jobs) == backoff);
            let evs1 = evs.drop_first();
            assert(evs1[0] == evs[1]);
            assert(evs1[0] == Event::Slept);
            assert(next_phase(backoff, evs1[0], jobs) == attempt1);
            let evs2 = evs1.drop_first();
            assert(evs2 =~= retry_events(rest, a1));
            assert(run_phases(phase, evs, jobs) == run_phases(backoff, evs1, jobs));
            assert(run_phases(backoff, evs1, jobs) == run_phases(attempt1, evs2, jobs));
            assert(attempt_trace_wf(rest, a1));
            lemma_mount_trace(i, a1, rest, jobs);
            assert(mount_run(rcs, a) == mount_run(rest, a1));
        },
        MountDecision::Success => {
            let evs = retry_events(rcs, a);
            assert(evs =~= seq![exec_rc_event(rcs[0])]);
            assert(run_phases(phase, evs, jobs) == run_phases(
                next_phase(phase, evs[0], jobs),
                evs.drop_first(),
                jobs,
            ));
            assert(evs.drop_first().len() == 0);
            assert(mount_run(rcs, a) == MountDecision::Success);
        },
        MountDecision::Fail => {
            let evs = retry_events(rcs, a);
            assert(evs =~= seq![exec_rc_event(rcs[0])]);
            assert(run_phases(phase, evs, jobs) == run_phases(
                next_phase(phase, evs[0], jobs),
                evs.drop_first(),
                jobs,
            ));
            assert(evs.drop_first().len() == 0);
            assert(mount_run(rcs, a) == MountDecision::Fail);
        },
    }
}

// ---------------------------------------------------------------------------
// Output flushing
// ---------------------------------------------------------------------------

/// The lines the agent's captured output turns into, in emission order:
/// stdout lines, a stdout truncation marker if needed, then stderr lines
/// and their marker, so that error messages appear closest to the exit
/// line.
pub open spec fn flush_lines(res: ExecResult) -> Seq<Seq<char>> {
    (match res.out_data {
        Some(s) => text::lines_chars(s@),
        None => Seq::<Seq<char>>::empty(),
    }) + (if res.out_truncated {
        seq!["<stdout truncation>"@]
    } else {
        Seq::<Seq<char>>::empty()
    }) + (match res.err_data {
        Some(s) => text::lines_chars(s@),
        None => Seq::<Seq<char>>::empty(),
    }) + (if res.err_truncated {
        seq!["<stderr truncation>"@]
    } else {
        Seq::<Seq<char>>::empty()
    })
}

/// How many line events the captured output turns into.
pub open spec fn flush_count(res: ExecResult) -> nat {
    flush_lines(res).len()
}

fn flush_strings(res: &ExecResult) -> (r: Vec<String>)
    ensures
        r.deep_view() == flush_lines(*res),
{
    let mut r: Vec<String> = Vec::new();
    let ghost mut expect: Seq<Seq<char>> = Seq::empty();
    match &res.out_data {
        Some(s) => {
            let mut lines = text::split_lines(s.as_str());
            let ghost lv = lines.deep_view();
            append_strings(&mut r, lines);
            proof {
                expect = expect + lv;
                assert(r.deep_view() =~= expect);
            }
        },
        None => {},
    }
    if res.out_truncated {
        r.push(String::from_str("<stdout truncation>"));
        proof {
            expect = expect.push("<stdout truncation>"@);
            assert(r.deep_view() =~= expect);
        }
    }
    match &res.err_data {
        Some(s) => {
            let mut lines = text::split_lines(s.as_str());
            let ghost lv = lines.deep_view();
            append_strings(&mut r, lines);
            proof {
                expect = expect + lv;
                assert(r.deep_view() =~= expect);
            }
        },
        None => {},
    }
    if res.err_truncated {
        r.push(String::from_str("<stderr truncation>"));
        proof {
            expect = expect.push("<stderr truncation>"@);
            assert(r.deep_view() =~= expect);
        }
    }
    proof {
        assert(r.deep_view() =~= flush_lines(*res));
    }
    r
}

fn append_strings(v: &mut Vec<String>, w: Vec<String>)
    ensures
        final(v).deep_view() == old(v).deep_view() + w.deep_view(),
{
    let mut w = w;
    let ghost wv = w.deep_view();
    let mut i: usize = 0;
    proof {
        assert(v.deep_view() + wv.take(0) =~= v.deep_view());
    }
    while i < w.len()
        invariant
            i <= w@.len(),
            w.deep_view() == wv,
            v.deep_view() == old(v).deep_view() + wv.take(i as int),
        decreases w@.len() - i,
    {
        let s = w[i].clone();
        let ghost before = v.deep_view();
        proof {
            assert(wv[i as int] == w@[i as int]@);
        }
        v.push(s);
        proof {
            assert(v.deep_view() =~= before.push(s@));
            assert(v.deep_view() =~= old(v).deep_view() + wv.take(i as int + 1));
        }
        i = i + 1;
    }
    proof {
        assert(wv.take(w@.len() as int) =~= wv);
    }
}

// ---------------------------------------------------------------------------
// The invariant
// ---------------------------------------------------------------------------

/// The finished history of a run, by its outcome.
pub open spec fn final_hist(m: RunMachine) -> Seq<EventKind> {
    match m.outcome@ {
        RunOutcome::BootFailed => hist_boot_failed(m.nb@),
        RunOutcome::SetupFailed => hist_setup_failed(m.nb@, m.ns@),
        RunOutcome::CmdOk => hist_complete(m.nb@, m.ns@, m.nc@, true),
        RunOutcome::CmdFailed => hist_complete(m.nb@, m.ns@, m.nc@, false),
        RunOutcome::Pending => Seq::empty(),
    }
}

impl RunMachine {
    /// The machine invariant: the emitted events always form the prefix of
    /// a run history that the stage dictates, mid-events only inside their
    /// stage, each stage closed by exactly one end sentinel, and cleanup
    /// requested before the run can finish.
    pub open spec fn wf(self) -> bool {
        match self.phase {
            Phase::Spawning => self.boot_inv(),
            Phase::WaitingSockets => self.boot_inv(),
            Phase::ControlConnect => self.boot_inv(),
            Phase::AgentConnect => self.boot_inv(),
            Phase::Mounting(i, sub) => {
                &&& self.emitted@ == boot_ok(self.nb@) + setup_run(self.ns@)
                &&& self.outcome@ == RunOutcome::Pending
                &&& !self.cleanup_requested@
                &&& i < jobs_count(self.qemu)
                &&& (match sub {
                    MountSub::Mkdir => true,
                    MountSub::Attempt(a) => a <= 4,
                    MountSub::Backoff(a) => 1 <= a <= 4,
                })
            },
            Phase::Running => {
                &&& self.emitted@ == boot_ok(self.nb@) + setup_ok(self.ns@) + cmd_run(self.nc@)
                &&& self.outcome@ == RunOutcome::Pending
                &&& !self.cleanup_requested@
            },
            Phase::Syncing => self.ending_inv(),
            Phase::Quitting => self.ending_inv(),
            Phase::CleaningUp => self.closing_inv(),
            Phase::Done => self.closing_inv(),
        }
    }

    /// While booting: the boot stage is open and nothing else happened.
    pub open spec fn boot_inv(self) -> bool {
        &&& self.emitted@ == boot_run(self.nb@)
        &&& self.outcome@ == RunOutcome::Pending
        &&& !self.cleanup_requested@
    }

    /// After the command stage closed but before cleanup was requested.
    pub open spec fn ending_inv(self) -> bool {
        &&& (self.outcome@ == RunOutcome::CmdOk || self.outcome@ == RunOutcome::CmdFailed)
        &&& self.emitted@ == final_hist(self)
        &&& !self.cleanup_requested@
    }

    /// From the cleanup request to the end: the history is final.
    pub open spec fn closing_inv(self) -> bool {
        &&& self.outcome@ != RunOutcome::Pending
        &&& self.emitted@ == final_hist(self)
        &&& self.cleanup_requested@
    }
}

/// Which events a stage can observe.
pub open spec fn event_fits(phase: Phase, ev: Event) -> bool {
    match phase {
        Phase::Spawning => ev is Spawned,
        Phase::WaitingSockets => ev is SocketsReady || ev is BootLine,
        Phase::ControlConnect => ev is ControlReady || ev is BootLine,
        Phase::AgentConnect => ev is AgentReady || ev is BootLine,
        Phase::Mounting(_, sub) => match sub {
            MountSub::Backoff(_) => ev is Slept,
            _ => ev is ExecDone,
        },
        Phase::Running => ev is ExecDone || ev is CommandLine,
        Phase::Syncing => ev is ExecDone,
        Phase::Quitting => ev is QuitDone,
        Phase::CleaningUp => ev is CleanedUp,
        Phase::Done => false,
    }
}

/// The stage the machine moves to on an event.
pub open spec fn next_phase(phase: Phase, ev: Event, jobs: nat) -> Phase {
    match phase {
        Phase::Spawning => match ev {
            Event::Spawned(res) => if res is Ok {
                Phase::WaitingSockets
            } else {
                Phase::CleaningUp
            },
            _ => phase,
        },
        Phase::WaitingSockets => match ev {
            Event::SocketsReady(ok) => if ok {
                Phase::ControlConnect
            } else {
                Phase::CleaningUp
            },
            _ => phase,
        },
        Phase::ControlConnect => match ev {
            Event::ControlReady(res) => if res is Ok {
                Phase::AgentConnect
            } else {
                Phase::CleaningUp
            },
            _ => phase,
        },
        Phase::AgentConnect => match ev {
            Event::AgentReady(res) => if res is Ok {
                Phase::Mounting(0, MountSub::Mkdir)
            } else {
                Phase::CleaningUp
            },
            _ => phase,
        },
        Phase::Mounting(i, sub) => match sub {
            MountSub::Mkdir => match ev {
                Event::ExecDone(res) => match res {
                    Ok(r) => if r.exitcode == 0 {
                        Phase::Mounting(i, MountSub::Attempt(0))
                    } else {
                        Phase::CleaningUp
                    },
                    Err(_) => Phase::CleaningUp,
                },
                _ => phase,
            },
            MountSub::Attempt(a) => match ev {
                Event::ExecDone(res) => match res {
                    Ok(r) => match mount_decision(a, r.exitcode) {
                        MountDecision::Success => if i + 1 < jobs {
                            Phase::Mounting((i + 1) as usize, MountSub::Mkdir)
                        } else {
                            Phase::Running
                        },
                        MountDecision::Retry => Phase::Mounting(i, MountSub::Backoff((a + 1) as u8)),
                        MountDecision::Fail => Phase::CleaningUp,
                    },
                    Err(_) => Phase::CleaningUp,
                },
                _ => phase,
            },
            MountSub::Backoff(a) => match ev {
                Event::Slept => Phase::Mounting(i, MountSub::Attempt(a)),
                _ => phase,
            },
        },
        Phase::Running => match ev {
            Event::ExecDone(_) => Phase::Syncing,
            _ => phase,
        },
        Phase::Syncing => match ev {
            Event::ExecDone(_) => Phase::Quitting,
            _ => phase,
        },
        Phase::Quitting => match ev {
            Event::QuitDone => Phase::CleaningUp,
            _ => phase,
        },
        Phase::CleaningUp => match ev {
            Event::CleanedUp => Phase::Done,
            _ => phase,
        },
        Phase::Done => phase,
    }
}

/// The shapes of the events a step emits.
pub open spec fn delta_kinds(phase: Phase, ev: Event, jobs: nat) -> Seq<EventKind> {
    match phase {
        Phase::Spawning => match ev {
            Event::Spawned(res) => if res is Ok {
                Seq::empty()
            } else {
                seq![EventKind::BootEndErrK]
            },
            _ => Seq::empty(),
        },
        Phase::WaitingSockets => match ev {
            Event::SocketsReady(ok) => if ok {
                Seq::empty()
            } else {
                seq![EventKind::BootEndErrK]
            },
            Event::BootLine(_) => seq![EventKind::BootK],
            _ => Seq::empty(),
        },
        Phase::ControlConnect => match ev {
            Event::ControlReady(res) => if res is Ok {
                Seq::empty()
            } else {
                seq![EventKind::BootEndErrK]
            },
            Event::BootLine(_) => seq![EventKind::BootK],
            _ => Seq::empty(),
        },
        Phase::AgentConnect => match ev {
            Event::AgentReady(res) => if res is Ok {
                seq![EventKind::BootEndOkK, EventKind::SetupStartK]
            } else {
                seq![EventKind::BootEndErrK]
            },
            Event::BootLine(_) => seq![EventKind::BootK],
            _ => Seq::empty(),
        },
        Phase::Mounting(i, sub) => match sub {
            MountSub::Mkdir => match ev {
                Event::ExecDone(res) => match res {
                    Ok(r) => reps(EventKind::SetupK, flush_count(r)) + (if r.exitcode == 0 {
                        Seq::empty()
                    } else {
                        seq![EventKind::SetupEndErrK]
                    }),
                    Err(_) => seq![EventKind::SetupEndErrK],
                },
                _ => Seq::empty(),
            },
            MountSub::Attempt(a) => match ev {
                Event::ExecDone(res) => match res {
                    Ok(r) => reps(EventKind::SetupK, flush_count(r)) + (match mount_decision(
                        a,
                        r.exitcode,
                    ) {
                        MountDecision::Success => if i + 1 < jobs {
                            Seq::empty()
                        } else {
                            seq![EventKind::SetupEndOkK, EventKind::CommandStartK]
                        },
                        MountDecision::Retry => Seq::empty(),
                        MountDecision::Fail => seq![EventKind::SetupEndErrK],
                    }),
                    Err(_) => seq![EventKind::SetupEndErrK],
                },
                _ => Seq::empty(),
            },
            MountSub::Backoff(_) => Seq::empty(),
        },
        Phase::Running => match ev {
            Event::CommandLine(_) => seq![EventKind::CommandK],
            Event::ExecDone(res) => match res {
                Ok(r) => reps(EventKind::CommandK, flush_count(r)).push(EventKind::CommandEndOkK),
                Err(_) => seq![EventKind::CommandEndErrK],
            },
            _ => Seq::empty(),
        },
        _ => Seq::empty(),
    }
}

/// A boot-stage error end carrying this error kind.
pub open spec fn is_boot_err(o: Output, k: ErrorKind) -> bool {
    match o {
        Output::BootEnd(res) => match res {
            Err(e) => e.kind == k,
            Ok(_) => false,
        },
        _ => false,
    }
}

/// A setup-stage error end carrying this error kind.
pub open spec fn is_setup_err(o: Output, k: ErrorKind) -> bool {
    match o {
        Output::SetupEnd(res) => match res {
            Err(e) => e.kind == k,
            Ok(_) => false,
        },
        _ => false,
    }
}

/// The captured-output lines of a finished guest program, emitted as
/// stage-line events at the front of `os`.
pub open spec fn flush_payload_ok(os: Seq<Output>, r: ExecResult, setup: bool) -> bool {
    forall|k: int|
        0 <= k < flush_count(r) ==> (match #[trigger] os[k] {
            Output::Setup(l) => setup && l@ == flush_lines(r)[k],
            Output::Command(l) => !setup && l@ == flush_lines(r)[k],
            _ => false,
        })
}

/// What the emitted events carry, per stage and observed event: which
/// error kind ends a stage on which failure, and which lines are passed
/// through.
pub open spec fn outputs_ok(os: Seq<Output>, phase: Phase, ev: Event, jobs: nat) -> bool {
    match phase {
        Phase::Spawning => match ev {
            Event::Spawned(res) => res is Err ==> is_boot_err(os[0], ErrorKind::SpawnFailed),
            _ => true,
        },
        Phase::WaitingSockets => match ev {
            Event::SocketsReady(ok) => !ok ==> is_boot_err(os[0], ErrorKind::HypervisorNotReady),
            Event::BootLine(l) => os.len() == 1 && (match os[0] {
                Output::Boot(x) => x@ == l@,
                _ => false,
            }),
            _ => true,
        },
        Phase::ControlConnect => match ev {
            Event::ControlReady(res) => res is Err ==> is_boot_err(
                os[0],
                ErrorKind::ControlProtocolError,
            ),
            Event::BootLine(l) => os.len() == 1 && (match os[0] {
                Output::Boot(x) => x@ == l@,
                _ => false,
            }),
            _ => true,
        },
        Phase::AgentConnect => match ev {
            Event::AgentReady(res) => match res {
                Ok(_) => os.len() == 2 && os[0] is BootEnd && os[1] is SetupStart,
                Err(_) => is_boot_err(os[0], ErrorKind::AgentTimeout),
            },
            Event::BootLine(l) => os.len() == 1 && (match os[0] {
                Output::Boot(x) => x@ == l@,
                _ => false,
            }),
            _ => true,
        },
        Phase::Mounting(i, sub) => match sub {
            MountSub::Mkdir => match ev {
                Event::ExecDone(res) => match res {
                    Ok(r) => flush_payload_ok(os, r, true) && (r.exitcode != 0 ==> is_setup_err(
                        os[flush_count(r) as int],
                        ErrorKind::MountFailed,
                    )),
                    Err(_) => is_setup_err(os[0], ErrorKind::ExecFailed),
                },
                _ => true,
            },
            MountSub::Attempt(a) => match ev {
                Event::ExecDone(res) => match res {
                    Ok(r) => flush_payload_ok(os, r, true) && (mount_decision(a, r.exitcode)
                        == MountDecision::Fail ==> is_setup_err(
                        os[flush_count(r) as int],
                        ErrorKind::MountFailed,
                    )),
                    Err(_) => is_setup_err(os[0], ErrorKind::ExecFailed),
                },
                _ => true,
            },
            MountSub::Backoff(_) => true,
        },
        Phase::Running => match ev {
            Event::CommandLine(l) => os.len() == 1 && (match os[0] {
                Output::Command(x) => x@ == l@,
                _ => false,
            }),
            Event::ExecDone(res) => match res {
                Ok(r) => flush_payload_ok(os, r, false) && (match os[flush_count(r) as int] {
                    Output::CommandEnd(code) => match code {
                        Ok(c) => c == r.exitcode,
                        Err(_) => false,
                    },
                    _ => false,
                }),
                Err(_) => match os[0] {
                    Output::CommandEnd(code) => match code {
                        Err(e) => e.kind == ErrorKind::ExecFailed,
                        Ok(_) => false,
                    },
                    _ => false,
                },
            },
            _ => true,
        },
        _ => true,
    }
}

/// The guest-exec request that creates the mount point of job `i`.
pub open spec fn mkdir_exec_ok(g: GuestExec, q: Qemu, i: int, v: Version) -> bool {
    &&& g.path@ == "mkdir"@
    &&& g.args.deep_view() == seq!["-p"@, job_guest_path_spec(q, i)]
    &&& !g.propagate_env
    &&& g.merged_capture == crate::qga::merged_capture_spec(v)
    &&& !g.stream_output
}

/// The guest-exec request that mounts job `i`.
pub open spec fn mount_exec_ok(g: GuestExec, q: Qemu, i: int, v: Version) -> bool {
    &&& g.path@ == "mount"@
    &&& g.args.deep_view() == seq![
        "-t"@,
        "9p"@,
        "-o"@,
        mount_opts_chars(job_ro_spec(q, i)),
        job_tag_spec(q, i),
        job_guest_path_spec(q, i),
    ]
    &&& !g.propagate_env
    &&& g.merged_capture == crate::qga::merged_capture_spec(v)
    &&& !g.stream_output
}

/// The guest-exec request that runs the user command: `bash -c` over the
/// rendered script, with the host environment forwarded only in kernel
/// mode, and with the output stream attached.
pub open spec fn command_exec_ok(g: GuestExec, q: Qemu, v: Version) -> bool {
    &&& g.path@ == "bash"@
    &&& g.args.deep_view() == seq![
        "-c"@,
        command_script_chars(!q.image && q.rootfs@ == "/"@, q.host_shared@, q.command@),
    ]
    &&& g.propagate_env == !q.image
    &&& g.merged_capture == crate::qga::merged_capture_spec(v)
    &&& g.stream_output
}

/// The guest-exec request that syncs guest filesystems.
pub open spec fn sync_exec_ok(g: GuestExec, v: Version) -> bool {
    &&& g.path@ == "sync"@
    &&& g.args@.len() == 0
    &&& !g.propagate_env
    &&& g.merged_capture == crate::qga::merged_capture_spec(v)
    &&& !g.stream_output
}

/// Which step the machine hands back, per stage and event.
pub open spec fn step_ok(s: Step, m: RunMachine, phase: Phase, ev: Event, jobs: nat) -> bool {
    match phase {
        Phase::Spawning => match ev {
            Event::Spawned(res) => res is Ok ==> s is WaitSockets,
            _ => true,
        },
        Phase::WaitingSockets => match ev {
            Event::SocketsReady(ok) => ok ==> s is ConnectControl,
            Event::BootLine(_) => s is Continue,
            _ => true,
        },
        Phase::ControlConnect => match ev {
            Event::ControlReady(res) => res is Ok ==> s is ConnectAgent,
            Event::BootLine(_) => s is Continue,
            _ => true,
        },
        Phase::AgentConnect => match ev {
            Event::AgentReady(res) => res is Ok ==> (match s {
                Step::Exec(g) => mkdir_exec_ok(g, m.qemu, 0, m.version),
                _ => false,
            }),
            Event::BootLine(_) => s is Continue,
            _ => true,
        },
        Phase::Mounting(i, sub) => match sub {
            MountSub::Mkdir => match ev {
                Event::ExecDone(res) => match res {
                    Ok(r) => r.exitcode == 0 ==> (match s {
                        Step::Exec(g) => mount_exec_ok(g, m.qemu, i as int, m.version),
                        _ => false,
                    }),
                    Err(_) => true,
                },
                _ => true,
            },
            MountSub::Attempt(a) => match ev {
                Event::ExecDone(res) => match res {
                    Ok(r) => match mount_decision(a, r.exitcode) {
                        MountDecision::Success => if i + 1 < jobs {
                            match s {
                                Step::Exec(g) => mkdir_exec_ok(g, m.qemu, i + 1, m.version),
                                _ => false,
                            }
                        } else {
                            match s {
                                Step::Exec(g) => command_exec_ok(g, m.qemu, m.version),
                                _ => false,
                            }
                        },
                        MountDecision::Retry => (match s {
                            Step::Sleep(secs) => secs == a,
                            _ => false,
                        }),
                        MountDecision::Fail => true,
                    },
                    Err(_) => true,
                },
                _ => true,
            },
            MountSub::Backoff(_) => match ev {
                Event::Slept => (match s {
                    Step::Exec(g) => mount_exec_ok(g, m.qemu, i as int, m.version),
                    _ => false,
                }),
                _ => true,
            },
        },
        Phase::Running => match ev {
            Event::CommandLine(_) => s is Continue,
            Event::ExecDone(_) => (match s {
                Step::Exec(g) => sync_exec_ok(g, m.version),
                _ => false,
            }),
            _ => true,
        },
        Phase::Syncing => match ev {
            Event::ExecDone(_) => s is Quit,
            _ => true,
        },
        Phase::CleaningUp => match ev {
            Event::CleanedUp => s is Finished,
            _ => true,
        },
        _ => true,
    }
}

fn emit_lines(out: &mut Vec<Output>, lines: Vec<String>, setup: bool)
    ensures
        final(out)@.len() == old(out)@.len() + lines@.len(),
        event_kinds(final(out)@) == event_kinds(old(out)@) + reps(
            if setup {
                EventKind::SetupK
            } else {
                EventKind::CommandK
            },
            lines@.len(),
        ),
        forall|k: int|
            0 <= k < lines@.len() ==> (match #[trigger] final(out)@[old(out)@.len() + k] {
                Output::Setup(l) => setup && l@ == lines.deep_view()[k],
                Output::Command(l) => !setup && l@ == lines.deep_view()[k],
                _ => false,
            }),
        old(out)@.len() == 0 ==> forall|k: int|
            0 <= k < lines@.len() ==> (match #[trigger] final(out)@[k] {
                Output::Setup(l) => setup && l@ == lines.deep_view()[k],
                Output::Command(l) => !setup && l@ == lines.deep_view()[k],
                _ => false,
            }),
{
    let mut lines = lines;
    let ghost lv = lines.deep_view();
    let ghost k = if setup {
        EventKind::SetupK
    } else {
        EventKind::CommandK
    };
    let mut i: usize = 0;
    proof {
        assert(event_kinds(out@) + reps(k, 0) =~= event_kinds(out@));
    }
    while i < lines.len()
        invariant
            i <= lines@.len(),
            lines.deep_view() == lv,
            lines@.len() == lv.len(),
            k == if setup {
                EventKind::SetupK
            } else {
                EventKind::CommandK
            },
            out@.len() == old(out)@.len() + i,
            event_kinds(out@) == event_kinds(old(out)@) + reps(k, i as nat),
            forall|j: int|
                0 <= j < i ==> (match #[trigger] out@[old(out)@.len() + j] {
                    Output::Setup(l) => setup && l@ == lv[j],
                    Output::Command(l) => !setup && l@ == lv[j],
                    _ => false,
                }),
        decreases lines@.len() - i,
    {
        let line = lines[i].clone();
        let ghost before = out@;
        proof {
            assert(lv[i as int] == lines@[i as int]@);
        }
        if setup {
            out.push(Output::Setup(line));
        } else {
            out.push(Output::Command(line));
        }
        proof {
            assert(event_kinds(out@) =~= event_kinds(before).push(k));
            assert(event_kinds(out@) =~= event_kinds(old(out)@) + reps(k, i as nat + 1));
        }
        i = i + 1;
    }
    proof {
        if old(out)@.len() == 0 {
            assert forall|j: int| 0 <= j < lv.len() implies (match #[trigger] out@[j] {
                Output::Setup(l) => setup && l@ == lv[j],
                Output::Command(l) => !setup && l@ == lv[j],
                _ => false,
            }) by {
                assert(out@[j] == out@[old(out)@.len() + j]);
            }
        }
    }
}

// ---------------------------------------------------------------------------
// Guest-exec builders
// ---------------------------------------------------------------------------

fn push_tok(v: &mut Vec<String>, s: String)
    ensures
        final(v).deep_view() == old(v).deep_view().push(s@),
{
    v.push(s);
    proof {
        assert(v.deep_view() =~= old(v).deep_view().push(s@));
    }
}

fn job_guest_path(q: &Qemu, i: usize) -> (r: String)
    requires
        i < jobs_count(*q),
    ensures
        r@ == job_guest_path_spec(*q, i as int),
{
    if i == 0 {
        String::from_str("/mnt/vmtest")
    } else {
        q.mounts[i - 1].0.clone()
    }
}

fn job_tag(q: &Qemu, i: usize) -> (r: String)
    requires
        i < jobs_count(*q),
    ensures
        r@ == job_tag_spec(*q, i as int),
{
    if i == 0 {
        String::from_str("shared-mount")
    } else {
        String::from_str("mount").concat(
            text::u64_to_string(qemu::hash(q.mounts[i - 1].1.host_path.as_str())).as_str(),
        )
    }
}

fn build_mkdir(q: &Qemu, i: usize, v: &Version) -> (g: GuestExec)
    requires
        i < jobs_count(*q),
    ensures
        mkdir_exec_ok(g, *q, i as int, *v),
{
    let mut args: Vec<String> = Vec::new();
    push_tok(&mut args, String::from_str("-p"));
    push_tok(&mut args, job_guest_path(q, i));
    proof {
        assert(args.deep_view() =~~= seq!["-p"@, job_guest_path_spec(*q, i as int)]);
    }
    GuestExec {
        path: String::from_str("mkdir"),
        args,
        propagate_env: false,
        merged_capture: v.merged_capture(),
        stream_output: false,
    }
}

fn build_mount(q: &Qemu, i: usize, v: &Version) -> (g: GuestExec)
    requires
        i < jobs_count(*q),
    ensures
        mount_exec_ok(g, *q, i as int, *v),
{
    let ro = if i == 0 {
        false
    } else {
        !q.mounts[i - 1].1.writable
    };
    let mut opts = String::from_str("trans=virtio,cache=loose,msize=1048576");
    if ro {
        opts = opts.concat(",ro");
    }
    proof {
        assert(opts@ =~= mount_opts_chars(job_ro_spec(*q, i as int)));
    }
    let mut args: Vec<String> = Vec::new();
    push_tok(&mut args, String::from_str("-t"));
    push_tok(&mut args, String::from_str("9p"));
    push_tok(&mut args, String::from_str("-o"));
    push_tok(&mut args, opts);
    push_tok(&mut args, job_tag(q, i));
    push_tok(&mut args, job_guest_path(q, i));
    proof {
        assert(args.deep_view() =~~= seq![
            "-t"@,
            "9p"@,
            "-o"@,
            mount_opts_chars(job_ro_spec(*q, i as int)),
            job_tag_spec(*q, i as int),
            job_guest_path_spec(*q, i as int),
        ]);
    }
    GuestExec {
        path: String::from_str("mount"),
        args,
        propagate_env: false,
        merged_capture: v.merged_capture(),
        stream_output: false,
    }
}

fn build_command(q: &Qemu, v: &Version) -> (g: GuestExec)
    ensures
        command_exec_ok(g, *q, *v),
{
    let script = q.command_script();
    let mut args: Vec<String> = Vec::new();
    push_tok(&mut args, String::from_str("-c"));
    push_tok(&mut args, script);
    proof {
        assert(args.deep_view() =~~= seq![
            "-c"@,
            command_script_chars(!q.image && q.rootfs@ == "/"@, q.host_shared@, q.command@),
        ]);
    }
    GuestExec {
        path: String::from_str("bash"),
        args,
        // Propagate the host environment only when guest and host share a
        // userspace, that is for kernel targets.
        propagate_env: !q.image,
        merged_capture: v.merged_capture(),
        stream_output: true,
    }
}

fn build_sync(v: &Version) -> (g: GuestExec)
    ensures
        sync_exec_ok(g, *v),
{
    GuestExec {
        path: String::from_str("sync"),
        args: Vec::new(),
        propagate_env: false,
        merged_capture: v.merged_capture(),
        stream_output: false,
    }
}

// ---------------------------------------------------------------------------
// The machine itself
// ---------------------------------------------------------------------------

impl RunMachine {
    /// Open a run: take ownership of the plan, emit `BootStart`, and ask
    /// the driver to spawn the hypervisor.
    pub fn start(qemu: Qemu) -> (r: (RunMachine, Vec<Output>, Step))
        ensures
            r.0.wf(),
            r.0.phase == Phase::Spawning,
            r.0.qemu == qemu,
            !r.0.cleanup_requested@,
            r.0.emitted@ == seq![EventKind::BootStartK],
            r.1@.len() == 1 && r.1@[0] is BootStart,
            r.0.emitted@ == event_kinds(r.1@),
            r.2 is Spawn,
    {
        let mut out: Vec<Output> = Vec::new();
        out.push(Output::BootStart);
        let ghost emitted0: Seq<EventKind> = seq![EventKind::BootStartK];
        let ghost zero: nat = 0;
        let m = RunMachine {
            qemu,
            phase: Phase::Spawning,
            version: Version { major: 0, minor: 0, patch: 0 },
            emitted: Ghost(emitted0),
            nb: Ghost(zero),
            ns: Ghost(zero),
            nc: Ghost(zero),
            outcome: Ghost(RunOutcome::Pending),
            cleanup_requested: Ghost(false),
        };
        proof {
            assert(event_kinds(out@) =~= seq![EventKind::BootStartK]);
            assert(m.emitted@ =~= boot_run(0));
        }
        (m, out, Step::Spawn)
    }

    /// Feed one observed event into the machine.  Returns the events to
    /// post to the output channel, in order, and the next step for the
    /// driver.
    #[verifier::rlimit(100)]
    pub fn step(&mut self, ev: Event) -> (r: (Vec<Output>, Step))
        requires
            old(self).wf(),
            event_fits(old(self).phase, ev),
        ensures
            final(self).wf(),
            final(self).qemu == old(self).qemu,
            final(self).phase == next_phase(old(self).phase, ev, jobs_count(old(self).qemu)),
            final(self).emitted@ == old(self).emitted@ + event_kinds(r.0@),
            event_kinds(r.0@) == delta_kinds(old(self).phase, ev, jobs_count(old(self).qemu)),
            outputs_ok(r.0@, old(self).phase, ev, jobs_count(old(self).qemu)),
            step_ok(r.1, *final(self), old(self).phase, ev, jobs_count(old(self).qemu)),
            final(self).phase is CleaningUp && !(old(self).phase is CleaningUp) ==> r.1
                is Cleanup,
            final(self).cleanup_requested@ ==> old(self).cleanup_requested@ || r.1 is Cleanup,
    {
        let phase = self.phase;
        let ghost jobs = jobs_count(self.qemu);
        let mut out: Vec<Output> = Vec::new();
        match phase {
            Phase::Spawning => match ev {
                Event::Spawned(res) => match res {
                    Ok(_) => {
                        self.phase = Phase::WaitingSockets;
                        proof {
                            assert(event_kinds(out@) =~= Seq::<EventKind>::empty());
                            assert(self.emitted@ =~= old(self).emitted@ + event_kinds(out@));
                        }
                        (out, Step::WaitSockets)
                    },
                    Err(m) => {
                        let e = VmError::new(
                            ErrorKind::SpawnFailed,
                            String::from_str("Failed to spawn QEMU: ").concat(m.as_str()),
                        );
                        out.push(Output::BootEnd(Err(e)));
                        self.phase = Phase::CleaningUp;
                        proof {
                            self.emitted@ = self.emitted@ + seq![EventKind::BootEndErrK];
                            self.outcome@ = RunOutcome::BootFailed;
                            self.cleanup_requested@ = true;
                            assert(event_kinds(out@) =~= seq![EventKind::BootEndErrK]);
                            assert(self.emitted@ =~= hist_boot_failed(self.nb@));
                        }
                        (out, Step::Cleanup)
                    },
                },
                _ => {
                    proof {
                        assert(false);
                    }
                    (out, Step::Finished)
                },
            },
            Phase::WaitingSockets => match ev {
                Event::SocketsReady(ok) => {
                    if ok {
                        self.phase = Phase::ControlConnect;
                        proof {
                            assert(event_kinds(out@) =~= Seq::<EventKind>::empty());
                            assert(self.emitted@ =~= old(self).emitted@ + event_kinds(out@));
                        }
                        (out, Step::ConnectControl)
                    } else {
                        let e = VmError::new(
                            ErrorKind::HypervisorNotReady,
                            String::from_str("QEMU sockets did not appear in time"),
                        );
                        out.push(Output::BootEnd(Err(e)));
                        self.phase = Phase::CleaningUp;
                        proof {
                            self.emitted@ = self.emitted@ + seq![EventKind::BootEndErrK];
                            self.outcome@ = RunOutcome::BootFailed;
                            self.cleanup_requested@ = true;
                            assert(event_kinds(out@) =~= seq![EventKind::BootEndErrK]);
                            assert(self.emitted@ =~= hist_boot_failed(self.nb@));
                        }
                        (out, Step::Cleanup)
                    }
                },
                Event::BootLine(l) => {
                    out.push(Output::Boot(l));
                    proof {
                        self.emitted@ = self.emitted@ + seq![EventKind::BootK];
                        self.nb@ = self.nb@ + 1;
                        assert(event_kinds(out@) =~= seq![EventKind::BootK]);
                        assert(self.emitted@ =~= boot_run(self.nb@));
                    }
                    (out, Step::Continue)
                },
                _ => {
                    proof {
                        assert(false);
                    }
                    (out, Step::Finished)
                },
            },
            Phase::ControlConnect => match ev {
                Event::ControlReady(res) => match res {
                    Ok(_) => {
                        self.phase = Phase::AgentConnect;
                        proof {
                            assert(event_kinds(out@) =~= Seq::<EventKind>::empty());
                            assert(self.emitted@ =~= old(self).emitted@ + event_kinds(out@));
                        }
                        (out, Step::ConnectAgent)
                    },
                    Err(m) => {
                        let e = VmError::new(
                            ErrorKind::ControlProtocolError,
                            String::from_str("Failed to connect QMP: ").concat(m.as_str()),
                        );
                        out.push(Output::BootEnd(Err(e)));
                        self.phase = Phase::CleaningUp;
                        proof {
                            self.emitted@ = self.emitted@ + seq![EventKind::BootEndErrK];
                            self.outcome@ = RunOutcome::BootFailed;
                            self.cleanup_requested@ = true;
                            assert(event_kinds(out@) =~= seq![EventKind::BootEndErrK]);
                            assert(self.emitted@ =~= hist_boot_failed(self.nb@));
                        }
                        (out, Step::Cleanup)
                    },
                },
                Event::BootLine(l) => {
                    out.push(Output::Boot(l));
                    proof {
                        self.emitted@ = self.emitted@ + seq![EventKind::BootK];
                        self.nb@ = self.nb@ + 1;
                        assert(event_kinds(out@) =~= seq![EventKind::BootK]);
                        assert(self.emitted@ =~= boot_run(self.nb@));
                    }
                    (out, Step::Continue)
                },
                _ => {
                    proof {
                        assert(false);
                    }
                    (out, Step::Finished)
                },
            },
            Phase::AgentConnect => match ev {
                Event::AgentReady(res) => match res {
                    Ok(v) => {
                        self.version = v;
                        out.push(Output::BootEnd(Ok(())));
                        out.push(Output::SetupStart);
                        self.phase = Phase::Mounting(0, MountSub::Mkdir);
                        let g = build_mkdir(&self.qemu, 0, &self.version);
                        proof {
                            self.emitted@ = self.emitted@ + seq![
                                EventKind::BootEndOkK,
                                EventKind::SetupStartK,
                            ];
                            self.ns@ = 0;
                            assert(event_kinds(out@) =~= seq![
                                EventKind::BootEndOkK,
                                EventKind::SetupStartK,
                            ]);
                            assert(self.emitted@ =~= boot_ok(self.nb@) + setup_run(0));
                        }
                        (out, Step::Exec(g))
                    },
                    Err(m) => {
                        let e = VmError::new(
                            ErrorKind::AgentTimeout,
                            String::from_str("Timed out waiting for guest agent: ").concat(
                                m.as_str(),
                            ),
                        );
                        out.push(Output::BootEnd(Err(e)));
                        self.phase = Phase::CleaningUp;
                        proof {
                            self.emitted@ = self.emitted@ + seq![EventKind::BootEndErrK];
                            self.outcome@ = RunOutcome::BootFailed;
                            self.cleanup_requested@ = true;
                            assert(event_kinds(out@) =~= seq![EventKind::BootEndErrK]);
                            assert(self.emitted@ =~= hist_boot_failed(self.nb@));
                        }
                        (out, Step::Cleanup)
                    },
                },
                Event::BootLine(l) => {
                    out.push(Output::Boot(l));
                    proof {
                        self.emitted@ = self.emitted@ + seq![EventKind::BootK];
                        self.nb@ = self.nb@ + 1;
                        assert(event_kinds(out@) =~= seq![EventKind::BootK]);
                        assert(self.emitted@ =~= boot_run(self.nb@));
                    }
                    (out, Step::Continue)
                },
                _ => {
                    proof {
                        assert(false);
                    }
                    (out, Step::Finished)
                },
            },
            Phase::Mounting(i, sub) => match sub {
                MountSub::Mkdir => match ev {
                    Event::ExecDone(res) => match res {
                        Ok(result) => {
                            let lines = flush_strings(&result);
                            let ghost cnt = flush_count(result);
                            emit_lines(&mut out, lines, true);
                            proof {
                                assert(flush_payload_ok(out@, result, true));
                                self.emitted@ = self.emitted@ + reps(EventKind::SetupK, cnt);
                                self.ns@ = self.ns@ + cnt;
                                assert(setup_run(old(self).ns@) + reps(EventKind::SetupK, cnt)
                                    =~= setup_run(self.ns@));
                                assert(self.emitted@ =~= boot_ok(self.nb@) + setup_run(self.ns@));
                            }
                            if result.exitcode == 0 {
                                self.phase = Phase::Mounting(i, MountSub::Attempt(0));
                                let g = build_mount(&self.qemu, i, &self.version);
                                proof {
                                    assert(event_kinds(out@) =~= delta_kinds(
                                        old(self).phase,
                                        ev,
                                        jobs,
                                    ));
                                    assert(self.emitted@ =~= old(self).emitted@ + event_kinds(
                                        out@,
                                    ));
                                }
                                (out, Step::Exec(g))
                            } else {
                                let ghost before = out@;
                                let e = VmError::new(
                                    ErrorKind::MountFailed,
                                    String::from_str("Failed to mkdir: exit code ").concat(
                                        text::i64_to_string(result.exitcode).as_str(),
                                    ),
                                );
                                out.push(Output::SetupEnd(Err(e)));
                                self.phase = Phase::CleaningUp;
                                proof {
                                    self.emitted@ = self.emitted@ + seq![EventKind::SetupEndErrK];
                                    self.outcome@ = RunOutcome::SetupFailed;
                                    self.cleanup_requested@ = true;
                                    assert(event_kinds(out@) =~= event_kinds(before).push(
                                        EventKind::SetupEndErrK,
                                    ));
                                    assert(event_kinds(out@) =~= delta_kinds(
                                        old(self).phase,
                                        ev,
                                        jobs,
                                    ));
                                    assert(self.emitted@ =~= hist_setup_failed(self.nb@, self.ns@));
                                    assert(self.emitted@ =~= old(self).emitted@ + event_kinds(
                                        out@,
                                    ));
                                    assert(out@[flush_count(result) as int] == Output::SetupEnd(
                                        Err(e),
                                    ));
                                    assert(flush_payload_ok(out@, result, true)) by {
                                        assert(forall|k: int|
                                            0 <= k < flush_count(result) ==> out@[k] == before[k]);
                                    }
                                }
                                (out, Step::Cleanup)
                            }
                        },
                        Err(m) => {
                            let e = VmError::new(
                                ErrorKind::ExecFailed,
                                String::from_str("Failed to run mkdir in guest: ").concat(
                                    m.as_str(),
                                ),
                            );
                            out.push(Output::SetupEnd(Err(e)));
                            self.phase = Phase::CleaningUp;
                            proof {
                                self.emitted@ = self.emitted@ + seq![EventKind::SetupEndErrK];
                                self.outcome@ = RunOutcome::SetupFailed;
                                self.cleanup_requested@ = true;
                                assert(event_kinds(out@) =~= seq![EventKind::SetupEndErrK]);
                                assert(self.emitted@ =~= hist_setup_failed(self.nb@, self.ns@));
                            }
                            (out, Step::Cleanup)
                        },
                    },
                    _ => {
                        proof {
                            assert(false);
                        }
                        (out, Step::Finished)
                    },
                },
                MountSub::Attempt(a) => match ev {
                    Event::ExecDone(res) => match res {
                        Ok(result) => {
                            let lines = flush_strings(&result);
                            let ghost cnt = flush_count(result);
                            emit_lines(&mut out, lines, true);
                            proof {
                                assert(flush_payload_ok(out@, result, true));
                                self.emitted@ = self.emitted@ + reps(EventKind::SetupK, cnt);
                                self.ns@ = self.ns@ + cnt;
                                assert(setup_run(old(self).ns@) + reps(EventKind::SetupK, cnt)
                                    =~= setup_run(self.ns@));
                                assert(self.emitted@ =~= boot_ok(self.nb@) + setup_run(self.ns@));
                            }
                            if result.exitcode == 0 {
                                // Mounted; move to the next job or start the command.
                                if i < self.qemu.mounts.len() {
                                    self.phase = Phase::Mounting(i + 1, MountSub::Mkdir);
                                    let g = build_mkdir(&self.qemu, i + 1, &self.version);
                                    proof {
                                        assert(event_kinds(out@) =~= delta_kinds(
                                            old(self).phase,
                                            ev,
                                            jobs,
                                        ));
                                        assert(self.emitted@ =~= old(self).emitted@ + event_kinds(
                                            out@,
                                        ));
                                    }
                                    (out, Step::Exec(g))
                                } else {
                                    let ghost before = out@;
                                    out.push(Output::SetupEnd(Ok(())));
                                    out.push(Output::CommandStart);
                                    self.phase = Phase::Running;
                                    let g = build_command(&self.qemu, &self.version);
                                    proof {
                                        self.emitted@ = self.emitted@ + seq![
                                            EventKind::SetupEndOkK,
                                            EventKind::CommandStartK,
                                        ];
                                        self.nc@ = 0;
                                        assert(event_kinds(out@) =~= event_kinds(before)
                                            + seq![
                                            EventKind::SetupEndOkK,
                                            EventKind::CommandStartK,
                                        ]);
                                        assert(event_kinds(out@) =~= delta_kinds(
                                            old(self).phase,
                                            ev,
                                            jobs,
                                        ));
                                        assert(self.emitted@ =~= boot_ok(self.nb@) + setup_ok(
                                            self.ns@,
                                        ) + cmd_run(0));
                                        assert(flush_payload_ok(out@, result, true)) by {
                                            assert(forall|k: int|
                                                0 <= k < flush_count(result) ==> out@[k]
                                                    == before[k]);
                                        }
                                        assert(self.emitted@ =~= old(self).emitted@ + event_kinds(
                                            out@,
                                        ));
                                    }
                                    (out, Step::Exec(g))
                                }
                            } else if result.exitcode == 32 && a < 4 {
                                // Racing VM bring-up: retry with linear backoff.
                                self.phase = Phase::Mounting(i, MountSub::Backoff(a + 1));
                                proof {
                                    assert(event_kinds(out@) =~= delta_kinds(
                                        old(self).phase,
                                        ev,
                                        jobs,
                                    ));
                                    assert(self.emitted@ =~= old(self).emitted@ + event_kinds(
                                        out@,
                                    ));
                                }
                                (out, Step::Sleep(a as u64))
                            } else {
                                let ghost before = out@;
                                let e = VmError::new(
                                    ErrorKind::MountFailed,
                                    String::from_str("Failed to mount: exit code ").concat(
                                        text::i64_to_string(result.exitcode).as_str(),
                                    ),
                                );
                                out.push(Output::SetupEnd(Err(e)));
                                self.phase = Phase::CleaningUp;
                                proof {
                                    self.emitted@ = self.emitted@ + seq![EventKind::SetupEndErrK];
                                    self.outcome@ = RunOutcome::SetupFailed;
                                    self.cleanup_requested@ = true;
                                    assert(event_kinds(out@) =~= event_kinds(before).push(
                                        EventKind::SetupEndErrK,
                                    ));
                                    assert(event_kinds(out@) =~= delta_kinds(
                                        old(self).phase,
                                        ev,
                                        jobs,
                                    ));
                                    assert(self.emitted@ =~= hist_setup_failed(self.nb@, self.ns@));
                                    assert(self.emitted@ =~= old(self).emitted@ + event_kinds(
                                        out@,
                                    ));
                                    assert(out@[flush_count(result) as int] == Output::SetupEnd(
                                        Err(e),
                                    ));
                                    assert(flush_payload_ok(out@, result, true)) by {
                                        assert(forall|k: int|
                                            0 <= k < flush_count(result) ==> out@[k] == before[k]);
                                    }
                                }
                                (out, Step::Cleanup)
                            }
                        },
                        Err(m) => {
                            let e = VmError::new(
                                ErrorKind::ExecFailed,
                                String::from_str("Failed to run mount in guest: ").concat(
                                    m.as_str(),
                                ),
                            );
                            out.push(Output::SetupEnd(Err(e)));
                            self.phase = Phase::CleaningUp;
                            proof {
                                self.emitted@ = self.emitted@ + seq![EventKind::SetupEndErrK];
                                self.outcome@ = RunOutcome::SetupFailed;
                                self.cleanup_requested@ = true;
                                assert(event_kinds(out@) =~= seq![EventKind::SetupEndErrK]);
                                assert(self.emitted@ =~= hist_setup_failed(self.nb@, self.ns@));
                            }
                            (out, Step::Cleanup)
                        },
                    },
                    _ => {
                        proof {
                            assert(false);
                        }
                        (out, Step::Finished)
                    },
                },
                MountSub::Backoff(a) => match ev {
                    Event::Slept => {
                        self.phase = Phase::Mounting(i, MountSub::Attempt(a));
                        let g = build_mount(&self.qemu, i, &self.version);
                        proof {
                            assert(event_kinds(out@) =~= Seq::<EventKind>::empty());
                            assert(self.emitted@ =~= old(self).emitted@ + event_kinds(out@));
                        }
                        (out, Step::Exec(g))
                    },
                    _ => {
                        proof {
                            assert(false);
                        }
                        (out, Step::Finished)
                    },
                },
            },
            Phase::Running => match ev {
                Event::CommandLine(l) => {
                    out.push(Output::Command(l));
                    proof {
                        self.emitted@ = self.emitted@ + seq![EventKind::CommandK];
                        self.nc@ = self.nc@ + 1;
                        assert(event_kinds(out@) =~= seq![EventKind::CommandK]);
                        assert(cmd_run(old(self).nc@) + seq![EventKind::CommandK] =~= cmd_run(
                            self.nc@,
                        ));
                        assert(self.emitted@ =~= boot_ok(self.nb@) + setup_ok(self.ns@) + cmd_run(
                            self.nc@,
                        ));
                    }
                    (out, Step::Continue)
                },
                Event::ExecDone(res) => match res {
                    Ok(result) => {
                        let lines = flush_strings(&result);
                        let ghost cnt = flush_count(result);
                        emit_lines(&mut out, lines, false);
                        proof {
                            assert(flush_payload_ok(out@, result, false));
                        }
                        let ghost before = out@;
                        out.push(Output::CommandEnd(Ok(result.exitcode)));
                        self.phase = Phase::Syncing;
                        let g = build_sync(&self.version);
                        proof {
                            self.emitted@ = self.emitted@ + reps(EventKind::CommandK, cnt).push(
                                EventKind::CommandEndOkK,
                            );
                            self.nc@ = self.nc@ + cnt;
                            self.outcome@ = RunOutcome::CmdOk;
                            assert(event_kinds(out@) =~= event_kinds(before).push(
                                EventKind::CommandEndOkK,
                            ));
                            assert(event_kinds(out@) =~= reps(EventKind::CommandK, cnt).push(
                                EventKind::CommandEndOkK,
                            ));
                            assert(cmd_run(old(self).nc@) + reps(EventKind::CommandK, cnt)
                                =~= cmd_run(self.nc@));
                            assert(self.emitted@ =~= hist_complete(
                                self.nb@,
                                self.ns@,
                                self.nc@,
                                true,
                            ));
                            assert(self.emitted@ =~= old(self).emitted@ + event_kinds(out@));
                            assert(out@[flush_count(result) as int] == Output::CommandEnd(
                                Ok(result.exitcode),
                            ));
                            assert(flush_payload_ok(out@, result, false)) by {
                                assert(forall|k: int|
                                    0 <= k < flush_count(result) ==> out@[k] == before[k]);
                            }
                        }
                        (out, Step::Exec(g))
                    },
                    Err(m) => {
                        let e = VmError::new(
                            ErrorKind::ExecFailed,
                            String::from_str("Failed to run command: ").concat(m.as_str()),
                        );
                        out.push(Output::CommandEnd(Err(e)));
                        self.phase = Phase::Syncing;
                        let g = build_sync(&self.version);
                        proof {
                            self.emitted@ = self.emitted@ + seq![EventKind::CommandEndErrK];
                            self.outcome@ = RunOutcome::CmdFailed;
                            assert(event_kinds(out@) =~= seq![EventKind::CommandEndErrK]);
                            assert(self.emitted@ =~= hist_complete(
                                self.nb@,
                                self.ns@,
                                self.nc@,
                                false,
                            ));
                        }
                        (out, Step::Exec(g))
                    },
                },
                _ => {
                    proof {
                        assert(false);
                    }
                    (out, Step::Finished)
                },
            },
            Phase::Syncing => match ev {
                Event::ExecDone(_) => {
                    // Sync failures are only worth a warning in the driver;
                    // the command outcome is already settled.
                    self.phase = Phase::Quitting;
                    proof {
                        assert(event_kinds(out@) =~= Seq::<EventKind>::empty());
                        assert(self.emitted@ =~= old(self).emitted@ + event_kinds(out@));
                    }
                    (out, Step::Quit)
                },
                _ => {
                    proof {
                        assert(false);
                    }
                    (out, Step::Finished)
                },
            },
            Phase::Quitting => match ev {
                Event::QuitDone => {
                    self.phase = Phase::CleaningUp;
                    proof {
                        self.cleanup_requested@ = true;
                        assert(event_kinds(out@) =~= Seq::<EventKind>::empty());
                        assert(self.emitted@ =~= old(self).emitted@ + event_kinds(out@));
                    }
                    (out, Step::Cleanup)
                },
                _ => {
                    proof {
                        assert(false);
                    }
                    (out, Step::Finished)
                },
            },
            Phase::CleaningUp => match ev {
                Event::CleanedUp => {
                    self.phase = Phase::Done;
                    proof {
                        assert(event_kinds(out@) =~= Seq::<EventKind>::empty());
                        assert(self.emitted@ =~= old(self).emitted@ + event_kinds(out@));
                    }
                    (out, Step::Finished)
                },
                _ => {
                    proof {
                        assert(false);
                    }
                    (out, Step::Finished)
                },
            },
            Phase::Done => {
                proof {
                    assert(false);
                }
                (out, Step::Finished)
            },
        }
    }
}

// ---------------------------------------------------------------------------
// Laws
// ---------------------------------------------------------------------------

/// The event-ordering law: when a run has finished, the emitted events form
/// either a successful history — `BootStart, Boot*, BootEnd(Ok),
/// SetupStart, Setup*, SetupEnd(Ok), CommandStart, Command*,
/// CommandEnd(Ok(_))` in order — or a failed history, which stops at the
/// first `*End(Err)` of some stage with no later `*Start` after it.
pub proof fn lemma_event_ordering(m: RunMachine)
    requires
        m.wf(),
        m.phase is Done,
    ensures
        is_run_history(m.emitted@),
{
    match m.outcome@ {
        RunOutcome::BootFailed => {
            assert(m.emitted@ == hist_boot_failed(m.nb@));
            assert(is_failed_history(m.emitted@));
        },
        RunOutcome::SetupFailed => {
            assert(m.emitted@ == hist_setup_failed(m.nb@, m.ns@));
            assert(is_failed_history(m.emitted@));
        },
        RunOutcome::CmdOk => {
            assert(m.emitted@ == hist_complete(m.nb@, m.ns@, m.nc@, true));
            assert(is_successful_history(m.emitted@));
        },
        RunOutcome::CmdFailed => {
            assert(m.emitted@ == hist_complete(m.nb@, m.ns@, m.nc@, false));
            assert(is_failed_history(m.emitted@));
        },
        RunOutcome::Pending => {
            assert(false);
        },
    }
}

/// The cleanup law: a run can only finish after a `Cleanup` step was
/// requested, on every path, whichever stage failed.  The driver performs
/// that step: it reaps the child and removes the three socket files.
pub proof fn lemma_cleanup_before_done(m: RunMachine)
    requires
        m.wf(),
        m.phase is Done,
    ensures
        m.cleanup_requested@,
{
}

} // verus!
