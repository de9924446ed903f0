use vstd::prelude::*;

use crate::errors::FatalError;

verus! {

/// The UI attach options the handshake declares: line-grid external
/// rendering and RGB color, both enabled.
#[derive(PartialEq, Eq, Structural, Clone, Copy, Debug)]
pub struct AttachOptions {
    pub linegrid_external: bool,
    pub rgb: bool,
}

pub fn attach_options() -> (o: AttachOptions)
    ensures
        o.linegrid_external,
        o.rgb,
{
    AttachOptions { linegrid_external: true, rgb: true }
}

/// Which handshake request failed.
#[derive(PartialEq, Eq, Structural, Clone, Copy, Debug)]
pub enum HandshakeFailure {
    /// The embedding-marker request got no successful reply.
    Communicate,
    /// The UI attach request was rejected.
    Attach,
}

/// Where the handshake stands. Command traffic is permitted only in
/// `Complete`: the driver that runs the handshake starts the command pump
/// only once it reaches that state.
#[derive(PartialEq, Eq, Structural, Clone, Copy, Debug)]
pub enum HandshakeState {
    /// The embedding-marker variable is about to be set.
    SettingVar { width: u64, height: u64 },
    /// The marker is set; the UI attach request is about to be issued.
    Attaching { width: u64, height: u64 },
    /// `ui_attach` returned success; the command pump may start.
    Complete,
    /// A handshake request failed; the host aborts.
    Aborted { failure: HandshakeFailure },
}

/// The next RPC request the handshake driver must issue.
#[derive(Clone, Debug, PartialEq)]
pub enum HandshakeAction {
    /// Set the well-known editor variable to the given boolean, so that
    /// editor-side plugins can detect they run embedded in this host.
    SetVar { name: String, value: bool },
    /// Attach the UI with the initial cell-grid dimensions and options.
    UiAttach { width: u64, height: u64, options: AttachOptions },
}

pub open spec fn spec_handshake_start(width: u64, height: u64) -> HandshakeState {
    HandshakeState::SettingVar { width, height }
}

pub fn handshake_start(width: u64, height: u64) -> (s: HandshakeState)
    ensures
        s == spec_handshake_start(width, height),
{
    HandshakeState::SettingVar { width, height }
}

/// The state after one more request outcome (`true` is a successful reply).
/// The terminal states absorb further outcomes.
pub open spec fn spec_advance(s: HandshakeState, ok: bool) -> HandshakeState {
    match s {
        HandshakeState::SettingVar { width, height } => if ok {
            HandshakeState::Attaching { width, height }
        } else {
            HandshakeState::Aborted { failure: HandshakeFailure::Communicate }
        },
        HandshakeState::Attaching { .. } => if ok {
            HandshakeState::Complete
        } else {
            HandshakeState::Aborted { failure: HandshakeFailure::Attach }
        },
        _ => s,
    }
}

/// The request to issue in the given state, if one is owed: the embedding
/// marker `neovide = true` first, then the UI attach with the initial
/// dimensions. Terminal states owe none.
pub fn next_action(s: &HandshakeState) -> (a: Option<HandshakeAction>)
    ensures
        s is SettingVar ==> (a matches Some(act) && act matches HandshakeAction::SetVar {
            name,
            value,
        } && name@ == "neovide"@ && value == true),
        s matches HandshakeState::Attaching { width, height } ==> (a matches Some(act) && (
        act matches HandshakeAction::UiAttach { width: w, height: h, options } && w == width && h
            == height && options.linegrid_external && options.rgb)),
        (s is Complete || s is Aborted) ==> a is None,
{
    match s {
        HandshakeState::SettingVar { .. } => Some(
            HandshakeAction::SetVar { name: "neovide".to_owned(), value: true },
        ),
        HandshakeState::Attaching { width, height } => Some(
            HandshakeAction::UiAttach { width: *width, height: *height, options: attach_options() },
        ),
        HandshakeState::Complete => None,
        HandshakeState::Aborted { .. } => None,
    }
}

pub fn advance(s: HandshakeState, ok: bool) -> (s2: HandshakeState)
    ensures
        s2 == spec_advance(s, ok),
{
    match s {
        HandshakeState::SettingVar { width, height } => if ok {
            HandshakeState::Attaching { width, height }
        } else {
            HandshakeState::Aborted { failure: HandshakeFailure::Communicate }
        },
        HandshakeState::Attaching { .. } => if ok {
            HandshakeState::Complete
        } else {
            HandshakeState::Aborted { failure: HandshakeFailure::Attach }
        },
        other => other,
    }
}

/// The fatal error the host reports for a handshake failure.
pub fn failure_error(f: &HandshakeFailure) -> (e: FatalError)
    ensures
        f is Communicate ==> e.title@ == "Could not communicate."@ && e.explanation@
            == "Could not communicate with neovim process"@,
        f is Attach ==> e.title@ == "Could not attach."@ && e.explanation@
            == "Could not attach ui to neovim process"@,
{
    match f {
        HandshakeFailure::Communicate => FatalError::communicate_error(),
        HandshakeFailure::Attach => FatalError::attach_error(),
    }
}

/// The state the handshake reaches from `s` after the given request
/// outcomes, in order.
pub open spec fn run_from(s: HandshakeState, outcomes: Seq<bool>) -> HandshakeState
    decreases outcomes.len(),
{
    if outcomes.len() == 0 {
        s
    } else {
        run_from(spec_advance(s, outcomes.first()), outcomes.drop_first())
    }
}

/// The state the whole handshake reaches after the given request outcomes.
pub open spec fn run_handshake(width: u64, height: u64, outcomes: Seq<bool>) -> HandshakeState {
    run_from(spec_handshake_start(width, height), outcomes)
}

proof fn lemma_run_from_cases(s: HandshakeState, outcomes: Seq<bool>)
    ensures
        s is Aborted ==> run_from(s, outcomes) == s,
        s is Complete ==> run_from(s, outcomes) == s,
        s is Attaching && run_from(s, outcomes) is Complete ==> outcomes.len() >= 1 && outcomes[0],
        s is SettingVar && run_from(s, outcomes) is Complete ==> outcomes.len() >= 2 && outcomes[0]
            && outcomes[1],
    decreases outcomes.len(),
{
    if outcomes.len() > 0 {
        lemma_run_from_cases(spec_advance(s, outcomes.first()), outcomes.drop_first());
    }
}

/// Handshake precedes traffic: command traffic is permitted only in the
/// `Complete` state, and the handshake reaches `Complete` only once both the
/// embedding-marker request and the UI attach request have returned success,
/// in that order. In particular no state reached before the second reply
/// arrives permits traffic, so no UiCommand executes before `ui_attach`
/// returns.
pub proof fn lemma_handshake_precedes_traffic(width: u64, height: u64, outcomes: Seq<bool>)
    ensures
        run_handshake(width, height, outcomes) is Complete ==> outcomes.len() >= 2 && outcomes[0]
            && outcomes[1],
        forall|i: int|
            0 <= i < 2 && i <= outcomes.len() ==> !(run_handshake(
                width,
                height,
                #[trigger] outcomes.take(i),
            ) is Complete),
{
    let start = spec_handshake_start(width, height);
    lemma_run_from_cases(start, outcomes);
    assert forall|i: int|
        0 <= i < 2 && i <= outcomes.len() implies !(run_handshake(
        width,
        height,
        #[trigger] outcomes.take(i),
    ) is Complete) by {
        lemma_run_from_cases(start, outcomes.take(i));
        assert(outcomes.take(i).len() == i);
    }
}

} // verus!
