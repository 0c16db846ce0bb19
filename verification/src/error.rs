use vstd::prelude::*;

verus! {

/// Failures of the debugger core, one variant per operation that can go
/// wrong.
///
/// The byte payloads carry the raw text that belongs to the failure: for
/// [`Error::Spawn`] the setup message a freshly forked child reported over
/// the error channel (or the front end's own description of a failed fork),
/// and for [`Error::Command`] the offending input token. The front end
/// turns these bytes into display text; nothing in the core prints.
#[derive(Debug)]
pub enum Error {
    /// Fork, trace-enable, or image replacement failed while launching;
    /// carries the message reported by the child.
    Spawn(Vec<u8>),
    /// A trace relationship could not be established with the given
    /// process identifier.
    Attach(i32),
    /// The tracee could not be resumed: the controller is not stopped,
    /// or the OS refused the continue request.
    Resume,
    /// The blocking wait on the tracee failed.
    Wait,
    /// The input line did not name a known command; carries the token
    /// that was not recognized.
    Command(Vec<u8>),
}

} // verus!
