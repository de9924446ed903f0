use vstd::prelude::*;
use vstd::string::StringExecFns;

verus! {

/// How the editor's RPC I/O loop ended. The supervisory task maps every one
/// of these to a host exit, so editor exit is the host's exit.
#[derive(Clone, Debug, PartialEq)]
pub enum IoLoopOutcome {
    /// The loop ran to completion without error (clean editor shutdown).
    Clean,
    /// The loop returned an RPC or I/O error.
    LoopError { message: String },
    /// The task running the loop could not be joined.
    JoinError { message: String },
}

/// The host's exit status after the editor's I/O loop terminates: always 0.
/// The editor's exit is a legitimate termination, not a host crash.
pub fn host_exit_status(outcome: &IoLoopOutcome) -> (code: i32)
    ensures
        code == 0,
{
    match outcome {
        IoLoopOutcome::Clean => 0,
        IoLoopOutcome::LoopError { .. } => 0,
        IoLoopOutcome::JoinError { .. } => 0,
    }
}

/// The line logged to stderr before the host exits: nothing on a clean
/// shutdown, the quoted error otherwise.
pub fn io_loop_report(outcome: &IoLoopOutcome) -> (r: Option<String>)
    ensures
        outcome is Clean <==> r is None,
        outcome matches IoLoopOutcome::LoopError { message } ==> (r matches Some(m) && m@
            == "Error: '"@ + message@ + "'"@),
        outcome matches IoLoopOutcome::JoinError { message } ==> (r matches Some(m) && m@
            == "Error joining IO loop: '"@ + message@ + "'"@),
{
    match outcome {
        IoLoopOutcome::Clean => None,
        IoLoopOutcome::LoopError { message } => {
            let mut m: String = "Error: '".to_owned();
            m.append(message.as_str());
            m.append("'");
            Some(m)
        },
        IoLoopOutcome::JoinError { message } => {
            let mut m: String = "Error joining IO loop: '".to_owned();
            m.append(message.as_str());
            m.append("'");
            Some(m)
        },
    }
}

} // verus!
