use vstd::prelude::*;

use crate::error::Error;

verus! {

/// Lifecycle state of a tracee process.
///
/// `Exited` and `Terminated` are terminal: no further transition is valid
/// from them, and a resume request in either must fail.
#[derive(Clone, Copy, Debug, PartialEq, Eq, Structural)]
pub enum ProcessState {
    /// Halted under trace control; the only state a resume is valid from.
    Stopped,
    /// Continued and not yet waited on.
    Running,
    /// Exited normally; the payload of the matching stop reason is the
    /// exit code.
    Exited,
    /// Killed by a signal; the payload of the matching stop reason is the
    /// signal number.
    Terminated,
}

/// Why a wait on the tracee completed: the decoded form of a raw OS wait
/// status.
#[derive(Clone, Copy, Debug, PartialEq, Eq, Structural)]
pub struct StopReason {
    /// The lifecycle state the decoded status implies.
    pub reason: ProcessState,
    /// Exit code for an exit, signal number for a termination or a stop,
    /// and `-1` for a status of unrecognized shape.
    pub info: i32,
}

/// The status word reports a normal exit: its low seven bits are clear.
pub open spec fn wifexited(status: i32) -> bool {
    status & 0x7f == 0
}

/// Exit code carried by a normal-exit status word.
pub open spec fn wexitstatus(status: i32) -> i32 {
    (status >> 8) & 0xff
}

/// The status word reports a termination by signal: its low seven bits
/// are neither all clear (an exit) nor all set (a stop).
pub open spec fn wifsignaled(status: i32) -> bool {
    status & 0x7f != 0 && status & 0x7f != 0x7f
}

/// Signal number carried by a termination status word.
pub open spec fn wtermsig(status: i32) -> i32 {
    status & 0x7f
}

/// The status word reports a stop by signal delivery: its low byte is
/// exactly the stop marker.
pub open spec fn wifstopped(status: i32) -> bool {
    status & 0xff == 0x7f
}

/// Signal number carried by a stop status word.
pub open spec fn wstopsig(status: i32) -> i32 {
    (status >> 8) & 0xff
}

/// The status word matches none of the three recognized shapes; the
/// decoder then falls back to a sentinel stopped reason.
pub open spec fn decode_anomaly(status: i32) -> bool {
    !wifexited(status) && !wifsignaled(status) && !wifstopped(status)
}

/// What the decoder returns for a raw wait status.
pub open spec fn spec_decode(status: i32) -> StopReason {
    if wifexited(status) {
        StopReason { reason: ProcessState::Exited, info: wexitstatus(status) }
    } else if wifsignaled(status) {
        StopReason { reason: ProcessState::Terminated, info: wtermsig(status) }
    } else if wifstopped(status) {
        StopReason { reason: ProcessState::Stopped, info: wstopsig(status) }
    } else {
        StopReason { reason: ProcessState::Stopped, info: -1i32 }
    }
}

impl StopReason {
    /// Decode a raw wait status into a structured stop reason.
    ///
    /// A status of unrecognized shape yields the sentinel
    /// `{ reason: Stopped, info: -1 }` rather than a failure: decoding
    /// never rejects its input.
    pub fn new(wait_status: i32) -> (r: StopReason)
        ensures
            r == spec_decode(wait_status),
    {
        if wait_status & 0x7f == 0 {
            StopReason { reason: ProcessState::Exited, info: (wait_status >> 8) & 0xff }
        } else if wait_status & 0x7f != 0x7f {
            StopReason { reason: ProcessState::Terminated, info: wait_status & 0x7f }
        } else if wait_status & 0xff == 0x7f {
            StopReason { reason: ProcessState::Stopped, info: (wait_status >> 8) & 0xff }
        } else {
            StopReason { reason: ProcessState::Stopped, info: -1 }
        }
    }

    /// True exactly for the sentinel reason that an unrecognized status
    /// decodes to; the front end logs a diagnostic when it sees one.
    pub fn is_anomaly(&self) -> (r: bool)
        ensures
            r == (self.reason == ProcessState::Stopped && self.info == -1),
    {
        self.reason == ProcessState::Stopped && self.info == -1
    }
}

/// The sentinel payload `-1` appears in a decoded reason exactly when the
/// status word had an unrecognized shape: every recognized shape carries a
/// non-negative code or signal number.
pub proof fn lemma_sentinel_iff_anomaly(status: i32)
    ensures
        spec_decode(status).info == -1 <==> decode_anomaly(status),
{
    assert(status & 0x7f >= 0) by (bit_vector);
    assert((status >> 8) & 0xff >= 0) by (bit_vector);
}

/// A controller for one tracee process.
///
/// The controller owns the tracee's identifier and lifecycle state. It
/// never issues an OS call itself: each operation either decides what the
/// front end may ask of the OS (`resume`, `teardown_plan`) or records an
/// outcome the OS already reported (`wait_on_signal`, `set_running`). The
/// state is only ever produced by the decoder or by the resume transition,
/// never set ad hoc.
#[derive(Debug)]
pub struct Process {
    /// Process identifier of the tracee; positive, immutable once set.
    pid: i32,
    /// True when this controller spawned the tracee and must kill and reap
    /// it at teardown.
    terminate: bool,
    /// The current lifecycle state of the tracee.
    state: ProcessState,
    /// True when a trace relationship with the OS was established.
    is_attached: bool,
}

/// What teardown must ask of the OS for one controller, in order: halt the
/// tracee and wait for the halt, detach the trace relationship and let the
/// tracee continue, kill it and reap it. Each step names the same process,
/// and each is skipped when its flag is false.
#[derive(Clone, Copy, Debug, PartialEq, Eq, Structural)]
pub struct TeardownPlan {
    /// The process the plan applies to.
    pub pid: i32,
    /// Halt the tracee and consume the halt stop first: required exactly
    /// when a traced tracee is currently running, so that the detach that
    /// follows finds it stopped.
    pub halt_before_detach: bool,
    /// Detach the trace relationship and send a continue signal, leaving
    /// the tracee runnable and un-traced: required exactly when a trace
    /// relationship was established.
    pub detach: bool,
    /// Send a kill signal and reap the tracee: required exactly when this
    /// controller spawned it.
    pub kill_and_reap: bool,
}

impl Process {
    /// Process identifier of the tracee.
    pub closed spec fn spec_pid(&self) -> i32 {
        self.pid
    }

    /// Current lifecycle state.
    pub closed spec fn spec_state(&self) -> ProcessState {
        self.state
    }

    /// True when this controller spawned the tracee and is responsible
    /// for killing it at teardown.
    pub closed spec fn owns_lifetime(&self) -> bool {
        self.terminate
    }

    /// True when a trace relationship with the OS was established.
    pub closed spec fn is_traced(&self) -> bool {
        self.is_attached
    }

    /// A tracee's identifier is a positive integer.
    #[verifier::type_invariant]
    spec fn wf(&self) -> bool {
        self.pid > 0
    }

    /// Complete the parent side of the launch handshake.
    ///
    /// The front end has already forked (the child's identifier is `pid`),
    /// let the child run its setup — trace enabling only if `debug` is
    /// true, then image replacement — and performed the blocking read on
    /// the error channel; `report` holds the bytes that read produced and
    /// `count` how many of them the child wrote.
    ///
    /// Zero bytes mean the channel's write end closed with nothing written:
    /// the child's setup succeeded (a successful image replacement closes
    /// the close-on-exec channel without a write) and the controller is
    /// constructed, halted, owning the tracee's lifetime, traced exactly
    /// when tracing was requested. Any reported bytes mean the setup
    /// failed: the launch yields that message as a spawn failure and no
    /// controller exists.
    pub fn launch(pid: i32, debug: bool, report: &[u8], count: usize) -> (r: Result<
        Process,
        Error,
    >)
        requires
            pid > 0,
            count <= report@.len(),
        ensures
            match r {
                Ok(p) => count == 0 && p.spec_pid() == pid && p.spec_state()
                    == ProcessState::Stopped && p.owns_lifetime() && p.is_traced() == debug,
                Err(e) => count > 0 && (e matches Error::Spawn(m) && m@ == report@.subrange(
                    0,
                    count as int,
                )),
            },
    {
        if count > 0 {
            let mut message: Vec<u8> = Vec::new();
            let mut i: usize = 0;
            while i < count
                invariant
                    i <= count,
                    count <= report@.len(),
                    message@ == report@.subrange(0, i as int),
                decreases count - i,
            {
                message.push(report[i]);
                proof {
                    assert(message@ =~= report@.subrange(0, i + 1 as int));
                }
                i = i + 1;
            }
            return Err(Error::Spawn(message));
        }
        Ok(Process { pid, terminate: true, state: ProcessState::Stopped, is_attached: debug })
    }

    /// Construct a controller for an already-running process the front end
    /// is about to trace.
    ///
    /// An identifier of zero or below is rejected here, before any OS call
    /// and without side effects. A positive identifier yields a controller
    /// that does not own the tracee's lifetime, is traced, and is halted:
    /// the OS sends the process a stop signal on attach, and the front end
    /// consumes that stop with a blocking wait before using the controller.
    pub fn attach(pid: i32) -> (r: Result<Process, Error>)
        ensures
            r is Ok <==> pid > 0,
            match r {
                Ok(p) => p.spec_pid() == pid && p.spec_state() == ProcessState::Stopped
                    && !p.owns_lifetime() && p.is_traced(),
                Err(e) => e matches Error::Attach(q) && q == pid,
            },
    {
        if pid <= 0 {
            return Err(Error::Attach(pid));
        }
        Ok(Process { pid, terminate: false, state: ProcessState::Stopped, is_attached: true })
    }

    /// Request to continue the tracee.
    ///
    /// Valid only while the tracee is stopped; then the call yields the
    /// identifier the front end must pass to the OS continue request, and
    /// the controller stays stopped until [`Process::set_running`] records
    /// that the OS accepted. In every other state — running, or the
    /// terminal exited and terminated states — the request fails.
    pub fn resume(&self) -> (r: Result<i32, Error>)
        ensures
            r is Ok <==> self.spec_state() == ProcessState::Stopped,
            match r {
                Ok(p) => p == self.spec_pid(),
                Err(e) => e matches Error::Resume,
            },
    {
        if self.state == ProcessState::Stopped {
            proof {
                use_type_invariant(self);
            }
            Ok(self.pid)
        } else {
            Err(Error::Resume)
        }
    }

    /// Record that the OS accepted a continue request: the resume
    /// transition's commit. Only the state changes, to running.
    pub fn set_running(&mut self)
        requires
            old(self).spec_state() == ProcessState::Stopped,
        ensures
            final (self).spec_state() == ProcessState::Running,
            final (self).spec_pid() == old(self).spec_pid(),
            final (self).owns_lifetime() == old(self).owns_lifetime(),
            final (self).is_traced() == old(self).is_traced(),
    {
        proof {
            use_type_invariant(&*self);
        }
        self.state = ProcessState::Running;
    }

    /// Record the outcome of a blocking wait on the tracee.
    ///
    /// `wait_status` is the raw status word the OS reported. It is decoded
    /// exactly as [`StopReason::new`] decodes it, the controller's state
    /// becomes the decoded state, and the decoded reason is returned for
    /// the caller to report. Nothing else changes.
    pub fn wait_on_signal(&mut self, wait_status: i32) -> (r: StopReason)
        ensures
            r == spec_decode(wait_status),
            final (self).spec_state() == r.reason,
            final (self).spec_pid() == old(self).spec_pid(),
            final (self).owns_lifetime() == old(self).owns_lifetime(),
            final (self).is_traced() == old(self).is_traced(),
    {
        proof {
            use_type_invariant(&*self);
        }
        let reason = StopReason::new(wait_status);
        self.state = reason.reason;
        reason
    }

    /// Process identifier of the tracee; positive.
    pub fn pid(&self) -> (r: i32)
        ensures
            r == self.spec_pid(),
            r > 0,
    {
        proof {
            use_type_invariant(self);
        }
        self.pid
    }

    /// Current lifecycle state of the tracee.
    pub fn state(&self) -> (r: ProcessState)
        ensures
            r == self.spec_state(),
    {
        self.state
    }

    /// What teardown must do for this controller.
    ///
    /// A traced tracee that is currently running is halted first, so the
    /// detach finds it stopped; any established trace relationship is
    /// detached and the tracee sent on its way; a spawned tracee is killed
    /// and reaped unconditionally. The front end executes the plan in that
    /// order and treats failures of the single steps as benign: the tracee
    /// may already be gone.
    pub fn teardown_plan(&self) -> (r: TeardownPlan)
        ensures
            r.pid == self.spec_pid(),
            r.halt_before_detach == (self.is_traced() && self.spec_state()
                == ProcessState::Running),
            r.detach == self.is_traced(),
            r.kill_and_reap == self.owns_lifetime(),
    {
        TeardownPlan {
            pid: self.pid,
            halt_before_detach: self.is_attached && self.state == ProcessState::Running,
            detach: self.is_attached,
            kill_and_reap: self.terminate,
        }
    }
}

/// A status word built from an exit code the way the OS builds one (the
/// code in the second byte, the low byte clear) decodes back to that exit
/// code: waiting on a process that exited with code `code` reports
/// `Exited` with payload `code`.
pub proof fn lemma_exit_code_round_trip(code: i32)
    requires
        0 <= code < 256,
    ensures
        wifexited(code << 8),
        spec_decode(code << 8) == (StopReason { reason: ProcessState::Exited, info: code }),
{
    assert((code << 8) & 0x7f == 0) by (bit_vector);
    assert(0 <= code < 256 ==> ((code << 8) >> 8) & 0xff == code) by (bit_vector);
}

} // verus!
