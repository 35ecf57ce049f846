use vstd::prelude::*;

verus! {

/// The kind of a run failure, one per failure point of the lifecycle.
#[derive(Clone, Copy, PartialEq, Eq, Structural, Debug)]
pub enum ErrorKind {
    /// A target broke a configuration invariant; nothing was spawned.
    ConfigInvalid,
    /// A target index beyond the end of the target list was requested.
    IndexOutOfRange,
    /// The guest init file path could not be laid out for the guest.
    InitStaging,
    /// The hypervisor executable could not be started.
    SpawnFailed,
    /// The control and agent sockets did not appear in time.
    HypervisorNotReady,
    /// Connecting or handshaking the control socket failed.
    ControlProtocolError,
    /// The guest agent did not complete its handshake in time.
    AgentTimeout,
    /// Text from the guest agent could not be understood.
    ParseFailed,
    /// A mkdir or mount inside the guest returned a fatal exit code.
    MountFailed,
    /// The guest agent rejected a request or the transport died.
    ExecFailed,
}

/// An error of the harness itself, carried inside stage-end events.
///
/// A non-zero exit code of the user command is not such an error.
#[derive(Debug)]
pub struct VmError {
    /// Which failure point produced the error.
    pub kind: ErrorKind,
    /// Human-readable description.
    pub msg: String,
}

impl VmError {
    /// Build an error from its kind and description.
    pub fn new(kind: ErrorKind, msg: String) -> (r: VmError)
        ensures
            r.kind == kind,
            r.msg == msg,
    {
        VmError { kind, msg }
    }

    /// The description, for display by a front end.
    pub fn message(&self) -> (r: String)
        ensures
            r@ == self.msg@,
    {
        self.msg.clone()
    }
}

} // verus!
