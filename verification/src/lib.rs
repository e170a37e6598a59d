//! Process creation on a kernel whose primitives are `clone`, `fexec`,
//! `waitpid`, `pipe2`, `dup` and `close`: a `Command` builder, stream
//! routing (`Stdio`), typed child stream handles, and the spawn engine's
//! decisions (path resolution, descriptor wiring and cleanup plans,
//! result-word decoding), each with a verified contract.

use vstd::prelude::*;

mod sys;

pub mod child;
pub mod command;
pub mod engine;
pub mod laws;
pub mod resolve;
pub mod status;
pub mod stdio;
pub mod streams;

pub use child::Child;
pub use command::Command;
pub use resolve::resolve_path;
pub use status::Error;
pub use status::ExitStatus;
pub use stdio::Stdio;
pub use stdio::StdioType;
pub use streams::ChildStderr;
pub use streams::ChildStdin;
pub use streams::ChildStdout;

verus! {

/// Terminate the calling process with the given code; this never
/// returns. Relies on syscall::exit, which is specified as non-returning
/// on success; the call is retried unconditionally so that a spurious
/// return can never resume the caller's code. The deliberately diverging
/// retry loop is what keeps this body outside the verifier, which admits
/// no non-terminating loop.
#[verifier::external_body]
pub fn exit(code: i32) {
    loop {
        let _ = syscall::exit(code as usize);
    }
}

} // verus!
