//! The build runner's data: the command handed to the shell and the record
//! of one execution.

use vstd::prelude::*;
use crate::logstore::fresh_run_id;

verus! {

/// The captured outcome of one build execution. Immutable after creation;
/// persisted exactly once.
pub struct RunRecord {
    /// Unique identifier of the run.
    pub id: String,
    /// Combined standard output and standard error of the command.
    pub output: String,
    /// Exit code of the process, absent when it was ended by a signal.
    pub exit_code: Option<i32>,
    /// Whether the build passed.
    pub success: bool,
}

impl RunRecord {
    /// `success` records exactly "the process exited with code 0".
    pub open spec fn wf(self) -> bool {
        self.success <==> self.exit_code == Some(0i32)
    }

    /// Build a record from the captured output and the exit code. A process
    /// ended by a signal has no exit code and never counts as a success.
    pub fn new(id: String, output: String, exit_code: Option<i32>) -> (r: RunRecord)
        ensures
            r.wf(),
            r.id == id,
            r.output == output,
            r.exit_code == exit_code,
    {
        let success = match exit_code {
            Some(c) => c == 0,
            None => false,
        };
        RunRecord { id, output, exit_code, success }
    }

    /// Build a record under a freshly drawn random identifier.
    pub fn fresh(output: String, exit_code: Option<i32>) -> (r: RunRecord)
        ensures
            r.wf(),
            r.id@.len() == 36,
            r.output == output,
            r.exit_code == exit_code,
    {
        RunRecord::new(fresh_run_id(), output, exit_code)
    }
}

/// The command as handed to the shell: standard error folded into standard
/// output, so one stream captures both.
pub open spec fn wrapped_command_spec(cmd: Seq<char>) -> Seq<char> {
    cmd + " 2>&1"@
}

/// Wrap the configured build command for the shell.
pub fn wrapped_command(cmd: &str) -> (r: String)
    ensures
        r@ == wrapped_command_spec(cmd@),
{
    let mut s = cmd.to_owned();
    s.append(" 2>&1");
    s
}

} // verus!
