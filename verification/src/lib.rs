//! Core of a bridge between a graphical front-end and an embedded text
//! editor speaking msgpack RPC over its standard streams: the launcher's
//! invocation, the attach handshake, the command pump with its
//! resize-coalescing rule, the redraw-event decoding, and the exit policy.
//! The asynchronous plumbing around these lives in the host application.

mod channel;
mod errors;
mod events;
mod exit;
mod handshake;
mod launcher;
mod pump;
mod ui_command;

pub use channel::drain_pending;
pub use channel::queue_command;
pub use errors::FatalError;
pub use events::Disposition;
pub use events::RedrawEvent;
pub use events::decode_event;
pub use events::decoded_events;
pub use events::handle_notification;
pub use events::handle_request;
pub use events::lemma_unknown_event_ignored;
pub use events::spec_decode_event;
pub use exit::IoLoopOutcome;
pub use exit::host_exit_status;
pub use exit::io_loop_report;
pub use handshake::AttachOptions;
pub use handshake::HandshakeAction;
pub use handshake::HandshakeFailure;
pub use handshake::HandshakeState;
pub use handshake::advance;
pub use handshake::attach_options;
pub use handshake::failure_error;
pub use handshake::handshake_start;
pub use handshake::lemma_handshake_precedes_traffic;
pub use handshake::next_action;
pub use handshake::run_from;
pub use handshake::run_handshake;
pub use handshake::spec_advance;
pub use handshake::spec_handshake_start;
pub use launcher::EditorInvocation;
pub use launcher::editor_invocation;
pub use pump::coalesced;
pub use pump::enqueued;
pub use pump::executed;
pub use pump::last_resize;
pub use pump::lemma_coalesced_preserves_non_resizes;
pub use pump::lemma_fifo_for_non_resize;
pub use pump::lemma_resize_coalescing;
pub use pump::non_resizes;
pub use pump::plan_batch;
pub use ui_command::UiCommand;
