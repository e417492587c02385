use slimevr_reset::cue::cue_asset_path;
use slimevr_reset::drain::ReadEvent;
use slimevr_reset::kind::ResetKind;
use slimevr_reset::orchestrator::{
    close_reason, endpoint, on_connect_failure, orchestrate, Action, ConnectFailureStep,
    Outcome, Policy,
};

fn no_cue_policy() -> Policy {
    Policy {
        abort_on_connect_failure: false,
        play_audio_cue: false,
        log_diagnostics: true,
        pre_delay_secs: 2,
    }
}

#[test]
fn full_reset_happy_path_trace() {
    let pol = Policy::default();
    let reads = vec![ReadEvent::Text(String::from("ack")), ReadEvent::NonText];
    let (t, out) = orchestrate(ResetKind::Full, &pol, true, true, &reads);
    assert_eq!(
        t,
        vec![
            Action::SpawnCue,
            Action::Delay(2),
            Action::Connect,
            Action::Send,
            Action::LogDiagnostic,
            Action::JoinCue,
            Action::Close,
        ]
    );
    assert_eq!(out, Outcome::ResetSent);
}

#[test]
fn yaw_reset_has_no_settling_delay() {
    let pol = Policy::default();
    let reads = vec![ReadEvent::NonText];
    let (t, out) = orchestrate(ResetKind::Yaw, &pol, true, true, &reads);
    assert_eq!(
        t,
        vec![Action::SpawnCue, Action::Connect, Action::Send, Action::JoinCue, Action::Close]
    );
    assert_eq!(out, Outcome::ResetSent);
}

#[test]
fn no_listening_peer_default_policy_recovers() {
    let pol = Policy::default();
    let reads: Vec<ReadEvent> = vec![];
    let (t, out) = orchestrate(ResetKind::Full, &pol, false, true, &reads);
    assert_eq!(out, Outcome::ServerUnavailable);
    assert_eq!(
        t,
        vec![Action::SpawnCue, Action::Delay(2), Action::Connect, Action::LogGuidance]
    );
    let guidance = t.iter().filter(|a| **a == Action::LogGuidance).count();
    assert_eq!(guidance, 1);
    assert!(!t.contains(&Action::Send));
    assert!(!t.contains(&Action::Close));
}

#[test]
fn no_listening_peer_abort_policy_aborts() {
    let pol = Policy {
        abort_on_connect_failure: true,
        play_audio_cue: true,
        log_diagnostics: true,
        pre_delay_secs: 2,
    };
    let reads: Vec<ReadEvent> = vec![];
    let (t, out) = orchestrate(ResetKind::Yaw, &pol, false, true, &reads);
    assert_eq!(out, Outcome::Aborted);
    assert_eq!(t, vec![Action::SpawnCue, Action::Connect]);
}

#[test]
fn send_failure_is_soft() {
    let pol = Policy::default();
    let reads = vec![ReadEvent::NonText];
    let (t, out) = orchestrate(ResetKind::Yaw, &pol, true, false, &reads);
    assert_eq!(
        t,
        vec![
            Action::SpawnCue,
            Action::Connect,
            Action::Send,
            Action::LogSendFailure,
            Action::JoinCue,
            Action::Close,
        ]
    );
    assert_eq!(out, Outcome::ResetSent);
}

#[test]
fn join_is_after_drain_and_before_close() {
    let pol = Policy::default();
    let reads = vec![
        ReadEvent::Text(String::from("a")),
        ReadEvent::Text(String::from("b")),
        ReadEvent::NonText,
    ];
    let (t, _) = orchestrate(ResetKind::Full, &pol, true, true, &reads);
    let join = t.iter().position(|a| *a == Action::JoinCue).unwrap();
    let close = t.iter().position(|a| *a == Action::Close).unwrap();
    assert_eq!(join, t.len() - 2);
    assert_eq!(close, t.len() - 1);
    for (i, a) in t.iter().enumerate() {
        if *a == Action::LogDiagnostic {
            assert!(i < join);
        }
    }
}

#[test]
fn no_cue_collapses_ordering() {
    let pol = no_cue_policy();
    let reads = vec![ReadEvent::Text(String::from("a")), ReadEvent::NonText];
    let (t, _) = orchestrate(ResetKind::Full, &pol, true, true, &reads);
    assert_eq!(
        t,
        vec![Action::Connect, Action::Send, Action::LogDiagnostic, Action::Close]
    );
    assert!(!t.contains(&Action::SpawnCue));
    assert!(!t.contains(&Action::JoinCue));
}

#[test]
fn diagnostics_can_be_silenced() {
    let pol = Policy {
        abort_on_connect_failure: false,
        play_audio_cue: true,
        log_diagnostics: false,
        pre_delay_secs: 2,
    };
    let reads = vec![ReadEvent::Text(String::from("a")), ReadEvent::NonText];
    let (t, _) = orchestrate(ResetKind::Yaw, &pol, true, true, &reads);
    assert!(!t.contains(&Action::LogDiagnostic));
}

#[test]
fn connect_failure_decision_follows_policy() {
    let pol = Policy::default();
    assert_eq!(on_connect_failure(&pol), ConnectFailureStep::LogGuidanceAndSucceed);
    let strict = Policy {
        abort_on_connect_failure: true,
        play_audio_cue: true,
        log_diagnostics: true,
        pre_delay_secs: 2,
    };
    assert_eq!(on_connect_failure(&strict), ConnectFailureStep::Abort);
}

#[test]
fn fixed_endpoint_and_close_reason() {
    assert_eq!(endpoint(), "ws://localhost:21110");
    assert_eq!(close_reason(), "done resetting");
}

#[test]
fn cue_paths() {
    assert_eq!(cue_asset_path(ResetKind::Full, false), "assets/full-reset.mp3");
    assert_eq!(cue_asset_path(ResetKind::Yaw, false), "assets/yaw-reset.mp3");
    assert_eq!(
        cue_asset_path(ResetKind::Full, true),
        "/usr/share/assets/full-reset.mp3"
    );
    assert_eq!(
        cue_asset_path(ResetKind::Yaw, true),
        "/usr/share/assets/yaw-reset.mp3"
    );
}
