use hackchat::client::HackChat;
use hackchat::lifecycle::{step, Phase, Signal};

const PHASES: [Phase; 6] = [
    Phase::Disconnected,
    Phase::Connecting,
    Phase::Joined,
    Phase::Running,
    Phase::Closed,
    Phase::Errored,
];

const SIGNALS: [Signal; 5] =
    [Signal::Open, Signal::JoinSent, Signal::Start, Signal::Close, Signal::Fail];

#[test]
fn lifecycle_follows_the_happy_path() {
    assert_eq!(step(Phase::Disconnected, Signal::Open), Some(Phase::Connecting));
    assert_eq!(step(Phase::Connecting, Signal::JoinSent), Some(Phase::Joined));
    assert_eq!(step(Phase::Joined, Signal::Start), Some(Phase::Running));
    assert_eq!(step(Phase::Running, Signal::Close), Some(Phase::Closed));
}

#[test]
fn failure_ends_a_live_session() {
    assert_eq!(step(Phase::Connecting, Signal::Fail), Some(Phase::Errored));
    assert_eq!(step(Phase::Joined, Signal::Fail), Some(Phase::Errored));
    assert_eq!(step(Phase::Running, Signal::Fail), Some(Phase::Errored));
    assert_eq!(step(Phase::Disconnected, Signal::Fail), None);
}

#[test]
fn nothing_returns_to_connecting() {
    for phase in PHASES {
        for signal in SIGNALS {
            if step(phase, signal) == Some(Phase::Connecting) {
                assert_eq!(phase, Phase::Disconnected);
            }
        }
    }
}

#[test]
fn closed_and_errored_are_final() {
    for signal in SIGNALS {
        assert_eq!(step(Phase::Closed, signal), None);
        assert_eq!(step(Phase::Errored, signal), None);
    }
}

#[test]
fn out_of_place_signals_are_refused() {
    assert_eq!(step(Phase::Disconnected, Signal::Start), None);
    assert_eq!(step(Phase::Connecting, Signal::Open), None);
    assert_eq!(step(Phase::Joined, Signal::Close), None);
    assert_eq!(step(Phase::Running, Signal::Open), None);
}

#[test]
fn client_advances_and_refuses() {
    let mut c = HackChat::new("alice".to_string(), "lobby".to_string()).unwrap();
    assert_eq!(c.phase(), Phase::Disconnected);
    assert!(!c.advance(Signal::Start));
    assert_eq!(c.phase(), Phase::Disconnected);
    assert!(c.advance(Signal::Open));
    assert_eq!(c.phase(), Phase::Connecting);
    assert!(c.advance(Signal::Fail));
    assert_eq!(c.phase(), Phase::Errored);
    assert!(!c.advance(Signal::Open));
    assert_eq!(c.phase(), Phase::Errored);
    assert_eq!(c.nick(), "alice");
}
