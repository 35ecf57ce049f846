use vstd::prelude::*;

use crate::errors::VmError;

verus! {

/// This enum encapsulates real time updates about the VM.
///
/// This is essentially a state machine where on a successful VM run the
/// receiver should expect to see at least one of each variant in order as
/// defined.
///
/// Failure is defined as seeing an `Err` in one of the `*End` variants.
/// Receivers should treat failures as terminal and not expect any more
/// updates.
pub enum Output {
    /// VM boot begins.
    BootStart,
    /// Output related to VM boot.
    Boot(String),
    /// Boot finished with provided result.
    BootEnd(Result<(), VmError>),
    /// Starting to wait for the guest agent.
    WaitStart,
    /// Guest agent waiting finished with provided result.
    WaitEnd(Result<(), VmError>),
    /// Setting up VM has begun.
    SetupStart,
    /// Output related to setting up the VM.
    Setup(String),
    /// Setting up VM finished with provided result.
    SetupEnd(Result<(), VmError>),
    /// Starting to run command.
    CommandStart,
    /// Output related to running the target command.
    Command(String),
    /// Command finished with provided exit code.
    CommandEnd(Result<i64, VmError>),
}

/// The shape of an output event, with the payload abstracted away except for
/// whether a stage end carries a success or an error.
#[derive(PartialEq, Eq, Structural)]
pub enum EventKind {
    BootStartK,
    BootK,
    BootEndOkK,
    BootEndErrK,
    WaitStartK,
    WaitEndK,
    SetupStartK,
    SetupK,
    SetupEndOkK,
    SetupEndErrK,
    CommandStartK,
    CommandK,
    CommandEndOkK,
    CommandEndErrK,
}

/// The shape of one event.
pub open spec fn event_kind(o: Output) -> EventKind {
    match o {
        Output::BootStart => EventKind::BootStartK,
        Output::Boot(_) => EventKind::BootK,
        Output::BootEnd(r) => if r is Ok {
            EventKind::BootEndOkK
        } else {
            EventKind::BootEndErrK
        },
        Output::WaitStart => EventKind::WaitStartK,
        Output::WaitEnd(_) => EventKind::WaitEndK,
        Output::SetupStart => EventKind::SetupStartK,
        Output::Setup(_) => EventKind::SetupK,
        Output::SetupEnd(r) => if r is Ok {
            EventKind::SetupEndOkK
        } else {
            EventKind::SetupEndErrK
        },
        Output::CommandStart => EventKind::CommandStartK,
        Output::Command(_) => EventKind::CommandK,
        Output::CommandEnd(r) => if r is Ok {
            EventKind::CommandEndOkK
        } else {
            EventKind::CommandEndErrK
        },
    }
}

/// The shapes of a sequence of events.
pub open spec fn event_kinds(os: Seq<Output>) -> Seq<EventKind> {
    os.map_values(|o: Output| event_kind(o))
}

/// `n` copies of one event shape.
pub open spec fn reps(k: EventKind, n: nat) -> Seq<EventKind> {
    Seq::new(n, |i: int| k)
}

/// An open boot stage: its start sentinel and `nb` boot lines.
pub open spec fn boot_run(nb: nat) -> Seq<EventKind> {
    seq![EventKind::BootStartK] + reps(EventKind::BootK, nb)
}

/// A boot stage closed successfully.
pub open spec fn boot_ok(nb: nat) -> Seq<EventKind> {
    boot_run(nb).push(EventKind::BootEndOkK)
}

/// An open setup stage: its start sentinel and `ns` setup lines.
pub open spec fn setup_run(ns: nat) -> Seq<EventKind> {
    seq![EventKind::SetupStartK] + reps(EventKind::SetupK, ns)
}

/// A setup stage closed successfully.
pub open spec fn setup_ok(ns: nat) -> Seq<EventKind> {
    setup_run(ns).push(EventKind::SetupEndOkK)
}

/// An open command stage: its start sentinel and `nc` command lines.
pub open spec fn cmd_run(nc: nat) -> Seq<EventKind> {
    seq![EventKind::CommandStartK] + reps(EventKind::CommandK, nc)
}

/// A run that failed while booting: the boot error end is the last event.
pub open spec fn hist_boot_failed(nb: nat) -> Seq<EventKind> {
    boot_run(nb).push(EventKind::BootEndErrK)
}

/// A run that failed during setup: the setup error end is the last event.
pub open spec fn hist_setup_failed(nb: nat, ns: nat) -> Seq<EventKind> {
    boot_ok(nb) + setup_run(ns).push(EventKind::SetupEndErrK)
}

/// A run whose three stages all produced their end sentinel; `cmd_ok` tells
/// whether the command stage ended with an exit code or with a harness error.
pub open spec fn hist_complete(nb: nat, ns: nat, nc: nat, cmd_ok: bool) -> Seq<EventKind> {
    boot_ok(nb) + setup_ok(ns) + cmd_run(nc).push(
        if cmd_ok {
            EventKind::CommandEndOkK
        } else {
            EventKind::CommandEndErrK
        },
    )
}

/// A successful run: `BootStart, Boot*, BootEnd(Ok), SetupStart, Setup*,
/// SetupEnd(Ok), CommandStart, Command*, CommandEnd(Ok(_))`, in that order.
pub open spec fn is_successful_history(h: Seq<EventKind>) -> bool {
    exists|nb: nat, ns: nat, nc: nat| h == hist_complete(nb, ns, nc, true)
}

/// A failed run: the event sequence stops at the first `*End(Err)` of some
/// stage, and no `*Start` of a later stage appears after it.
pub open spec fn is_failed_history(h: Seq<EventKind>) -> bool {
    (exists|nb: nat| h == hist_boot_failed(nb)) || (exists|nb: nat, ns: nat|
        h == hist_setup_failed(nb, ns)) || (exists|nb: nat, ns: nat, nc: nat|
        h == hist_complete(nb, ns, nc, false))
}

/// Every finished run is one of the two shapes above.
pub open spec fn is_run_history(h: Seq<EventKind>) -> bool {
    is_successful_history(h) || is_failed_history(h)
}

} // verus!
