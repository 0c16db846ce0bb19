//! Control core of a native process debugger for a tracing-capable
//! operating system.
//!
//! The crate holds the logic of the debugger: the tracee lifecycle state
//! machine ([`Process`]), the decoder that turns a raw OS wait status into
//! a structured stop reason ([`StopReason`]), the descriptor bookkeeping of
//! the fork/exec error-reporting channel ([`Pipe`]), the textual command
//! dispatcher ([`parse_command`]), and the table of register descriptors.
//!
//! The raw OS calls themselves (fork, exec, trace requests, waits, signals)
//! are issued by an unverified front end. Every decision around those calls
//! is made here: which call is allowed in which state, what a reported
//! status means, and what teardown must do. The front end feeds each OS
//! outcome back in as a plain value.

mod command;
mod error;
mod pipe;
mod process;
mod registers;

pub use registers::{
    REGISTER_COUNT, RegisterDesc, RegisterFormat, RegisterInfo, RegisterType, register_at,
    register_table, spec_find_by_dwarf, spec_find_by_name, spec_register_at,
};

pub use command::{Command, continue_name, first_token, parse_command, token_len, token_selects};

pub use error::Error;
pub use pipe::{
    Pipe, close_read_post, close_write_post, lemma_close_read_idempotent,
    lemma_close_write_idempotent,
};
pub use process::{Process, ProcessState, StopReason, TeardownPlan};
pub use process::{
    spec_decode, decode_anomaly, wexitstatus, wifexited, wifsignaled, wifstopped, wstopsig,
    wtermsig, lemma_sentinel_iff_anomaly, lemma_exit_code_round_trip,
};
