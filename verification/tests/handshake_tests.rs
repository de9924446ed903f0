use nvim_bridge::AttachOptions;
use nvim_bridge::HandshakeAction;
use nvim_bridge::HandshakeFailure;
use nvim_bridge::HandshakeState;
use nvim_bridge::advance;
use nvim_bridge::attach_options;
use nvim_bridge::failure_error;
use nvim_bridge::handshake_start;
use nvim_bridge::next_action;

#[test]
fn handshake_sets_marker_then_attaches_then_permits_traffic() {
    let s = handshake_start(100, 50);
    let a = next_action(&s);
    assert_eq!(
        a,
        Some(HandshakeAction::SetVar { name: "neovide".to_string(), value: true })
    );

    let s = advance(s, true);
    let a = next_action(&s);
    assert_eq!(
        a,
        Some(HandshakeAction::UiAttach {
            width: 100,
            height: 50,
            options: AttachOptions { linegrid_external: true, rgb: true },
        })
    );

    let s = advance(s, true);
    assert_eq!(s, HandshakeState::Complete);
    assert_eq!(next_action(&s), None);
}

#[test]
fn attach_rejection_aborts_with_attach_error() {
    let s = handshake_start(100, 50);
    let s = advance(s, true);
    let s = advance(s, false);
    match s {
        HandshakeState::Aborted { failure } => {
            let e = failure_error(&failure);
            assert!(e.title.contains("Could not attach"));
            assert_eq!(e.title, "Could not attach.");
            assert_eq!(e.explanation, "Could not attach ui to neovim process");
        }
        other => panic!("expected abort, got {:?}", other),
    }
    assert_eq!(next_action(&s), None);
}

#[test]
fn marker_failure_aborts_with_communicate_error() {
    let s = handshake_start(100, 50);
    let s = advance(s, false);
    assert_eq!(s, HandshakeState::Aborted { failure: HandshakeFailure::Communicate });
    match s {
        HandshakeState::Aborted { failure } => {
            let e = failure_error(&failure);
            assert_eq!(e.title, "Could not communicate.");
            assert_eq!(e.explanation, "Could not communicate with neovim process");
        }
        _ => unreachable!(),
    }
}

#[test]
fn terminal_states_absorb_outcomes() {
    let done = advance(HandshakeState::Complete, false);
    assert_eq!(done, HandshakeState::Complete);
    let aborted = HandshakeState::Aborted { failure: HandshakeFailure::Attach };
    assert_eq!(advance(aborted, true), aborted);
}

#[test]
fn attach_options_enable_linegrid_and_rgb() {
    let o = attach_options();
    assert!(o.linegrid_external);
    assert!(o.rgb);
}

#[test]
fn fatal_error_message_has_two_lines() {
    let s = advance(handshake_start(80, 24), false);
    match s {
        HandshakeState::Aborted { failure } => {
            let e = failure_error(&failure);
            let m = e.message();
            assert_eq!(
                m,
                "Could not communicate.\nCould not communicate with neovim process"
            );
        }
        _ => unreachable!(),
    }
}
