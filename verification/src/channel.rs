use vstd::prelude::*;

use crate::errors::FatalError;
use crate::ui_command::UiCommand;

verus! {

#[verifier::external_type_specification]
#[verifier::external_body]
#[verifier::reject_recursive_types(T)]
pub struct ExUnboundedSender<T>(tokio::sync::mpsc::UnboundedSender<T>);

#[verifier::external_type_specification]
#[verifier::external_body]
#[verifier::reject_recursive_types(T)]
pub struct ExUnboundedReceiver<T>(tokio::sync::mpsc::UnboundedReceiver<T>);

/// Relies on tokio::sync::mpsc::UnboundedSender::send: queues the command
/// without blocking; the result is an error exactly when the receiver half
/// was dropped. Whether that has happened depends on the pump task, so
/// nothing more is promised of the result.
#[verifier::external_body]
fn send_command(sender: &tokio::sync::mpsc::UnboundedSender<UiCommand>, command: UiCommand) -> (ok:
    bool) {
    sender.send(command).is_ok()
}

/// Relies on tokio::sync::mpsc::UnboundedReceiver::try_recv: returns the
/// next queued command without blocking, or nothing when the queue is empty
/// or every sender was dropped. What other threads have queued depends on
/// timing, so nothing more is promised of the result.
#[verifier::external_body]
fn try_recv_command(receiver: &mut tokio::sync::mpsc::UnboundedReceiver<UiCommand>) -> (c: Option<
    UiCommand,
>) {
    receiver.try_recv().ok()
}

/// Relies on tokio::sync::mpsc::UnboundedReceiver::len: the number of
/// commands queued at the moment of the call. Other threads may queue more
/// right after, so nothing more is promised of the result.
#[verifier::external_body]
fn queued_count(receiver: &tokio::sync::mpsc::UnboundedReceiver<UiCommand>) -> (n: usize) {
    receiver.len()
}

/// One non-blocking drain sweep: after a blocking receive yielded `first`,
/// collect every command already queued behind it. The batch starts with
/// `first` and keeps the queue's arrival order.
pub fn drain_pending(
    receiver: &mut tokio::sync::mpsc::UnboundedReceiver<UiCommand>,
    first: UiCommand,
) -> (batch: Vec<UiCommand>)
    ensures
        batch@.len() >= 1,
        batch@[0] == first,
{
    let mut batch: Vec<UiCommand> = Vec::new();
    batch.push(first);
    let pending = queued_count(receiver);
    let mut taken: usize = 0;
    while taken < pending
        invariant
            batch@.len() >= 1,
            batch@[0] == first,
            taken <= pending,
        decreases pending - taken,
    {
        match try_recv_command(receiver) {
            Some(c) => {
                batch.push(c);
                taken = taken + 1;
            },
            None => {
                taken = pending;
            },
        }
    }
    batch
}

/// Enqueue one command for the pump, without blocking. Fails exactly when
/// the pump has already terminated and dropped the receiving half; the
/// caller treats that as fatal, with this error's two lines.
pub fn queue_command(
    sender: &tokio::sync::mpsc::UnboundedSender<UiCommand>,
    command: UiCommand,
) -> (r: Result<(), FatalError>)
    ensures
        r matches Err(e) ==> e.title@ == "Could Not Send UI Command"@ && e.explanation@
            == "Could not send UI command from the window system to the neovim process."@,
{
    if send_command(sender, command) {
        Ok(())
    } else {
        Err(FatalError::send_error())
    }
}

} // verus!
