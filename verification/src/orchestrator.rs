//! Sequencing of one reset invocation.
//!
//! The orchestrator decides, for a reset kind under an explicit policy,
//! which effects happen and in which order: spawn the audio cue, wait
//! the settling delay, connect, send, report diagnostics while
//! draining, join the cue, close.  The effects themselves are performed
//! outside the library; here the whole run is a pure function from the
//! kind, the policy and the environment's responses (did the connect
//! succeed, did the send succeed, what was read) to the exact sequence
//! of actions and the overall outcome.  The ordering guarantees —
//! the cue is joined after draining and before closing, a refused
//! connection under the default policy ends the run successfully with
//! exactly one guidance line — are proved below.

use vstd::prelude::*;
use crate::drain::{diag_prefix_len, ReadEvent};
use crate::kind::ResetKind;

verus! {

/// The failure policy and cue configuration of a run.  By default a
/// refused connection is reported with guidance and the command still
/// succeeds, the cue is played, and diagnostics are logged.
pub struct Policy {
    /// Treat a refused connection as fatal instead of recoverable.
    pub abort_on_connect_failure: bool,
    /// Spawn the audio cue alongside the reset.
    pub play_audio_cue: bool,
    /// Report the text frames received while draining.
    pub log_diagnostics: bool,
    /// How long a full reset waits after spawning the cue before it
    /// contacts the server, to approximate synchrony between the cue
    /// and the physical reset.
    pub pre_delay_secs: u64,
}

/// The settling delay of the default policy, in seconds.
pub const DEFAULT_PRE_DELAY_SECS: u64 = 2;

impl Default for Policy {
    /// Recoverable connect failure, cue on, diagnostics on, two
    /// seconds of settling delay.
    fn default() -> (p: Policy)
        ensures
            !p.abort_on_connect_failure,
            p.play_audio_cue,
            p.log_diagnostics,
            p.pre_delay_secs == DEFAULT_PRE_DELAY_SECS,
    {
        Policy {
            abort_on_connect_failure: false,
            play_audio_cue: true,
            log_diagnostics: true,
            pre_delay_secs: DEFAULT_PRE_DELAY_SECS,
        }
    }
}

/// The fixed local endpoint the tracking server listens on.
pub fn endpoint() -> (e: &'static str)
    ensures
        e@ == "ws://localhost:21110"@,
{
    "ws://localhost:21110"
}

/// The reason sent with the closing frame.
pub fn close_reason() -> (r: &'static str)
    ensures
        r@ == "done resetting"@,
{
    "done resetting"
}

/// One effect of a run, in the order the run performs them.
#[derive(Clone, Copy, Debug, PartialEq, Eq, Structural)]
pub enum Action {
    /// Start playing the audio cue on its own execution context.
    SpawnCue,
    /// Wait this many seconds before contacting the server.
    Delay(u64),
    /// Open the session to the fixed endpoint.
    Connect,
    /// Tell the user to make sure the server is running.
    LogGuidance,
    /// Transmit the encoded envelope.
    Send,
    /// Report that the envelope could not be sent.
    LogSendFailure,
    /// Report one diagnostic text frame received while draining.
    LogDiagnostic,
    /// Block until the audio cue has played to completion.
    JoinCue,
    /// Send the closing frame with a normal status.
    Close,
}

/// How a run ends.
#[derive(Clone, Copy, Debug, PartialEq, Eq, Structural)]
pub enum Outcome {
    /// The envelope was sent (or at least attempted) and the session
    /// was drained and closed.
    ResetSent,
    /// No server was listening; under the recoverable policy the run
    /// still counts as a success.
    ServerUnavailable,
    /// No server was listening and the policy treats that as fatal.
    Aborted,
}

/// The actions before the server is contacted: the cue, and for a full
/// reset the settling delay.
pub open spec fn spec_prelude(k: ResetKind, pol: Policy) -> Seq<Action> {
    if pol.play_audio_cue {
        if k is Full {
            seq![Action::SpawnCue, Action::Delay(pol.pre_delay_secs)]
        } else {
            seq![Action::SpawnCue]
        }
    } else {
        Seq::empty()
    }
}

/// The diagnostic reports of the drain phase: one per leading non-empty
/// text frame, if the policy logs them.
pub open spec fn spec_diags(pol: Policy, reads: Seq<ReadEvent>) -> Seq<Action> {
    if pol.log_diagnostics {
        Seq::new(diag_prefix_len(reads) as nat, |i: int| Action::LogDiagnostic)
    } else {
        Seq::empty()
    }
}

/// The exact sequence of effects of one run, given the environment's
/// responses: whether the connection was established, whether the send
/// succeeded, and the events read while draining.
pub open spec fn spec_trace(
    k: ResetKind,
    pol: Policy,
    connect_ok: bool,
    send_ok: bool,
    reads: Seq<ReadEvent>,
) -> Seq<Action> {
    if !connect_ok {
        if pol.abort_on_connect_failure {
            spec_prelude(k, pol) + seq![Action::Connect]
        } else {
            spec_prelude(k, pol) + seq![Action::Connect, Action::LogGuidance]
        }
    } else {
        spec_prelude(k, pol) + seq![Action::Connect, Action::Send]
            + (if send_ok { Seq::<Action>::empty() } else { seq![Action::LogSendFailure] })
            + spec_diags(pol, reads)
            + (if pol.play_audio_cue { seq![Action::JoinCue] } else { Seq::<Action>::empty() })
            + seq![Action::Close]
    }
}

/// How the run ends for each response to the connection attempt.
pub open spec fn spec_outcome(pol: Policy, connect_ok: bool) -> Outcome {
    if connect_ok {
        Outcome::ResetSent
    } else if pol.abort_on_connect_failure {
        Outcome::Aborted
    } else {
        Outcome::ServerUnavailable
    }
}

/// What to do when the connection cannot be established.
#[derive(Clone, Copy, Debug, PartialEq, Eq, Structural)]
pub enum ConnectFailureStep {
    /// The policy treats the refusal as fatal.
    Abort,
    /// Report guidance and end the command successfully without the
    /// reset.
    LogGuidanceAndSucceed,
}

/// The decision taken when no server is listening.
pub fn on_connect_failure(pol: &Policy) -> (d: ConnectFailureStep)
    ensures
        d == ConnectFailureStep::Abort <==> pol.abort_on_connect_failure,
{
    if pol.abort_on_connect_failure {
        ConnectFailureStep::Abort
    } else {
        ConnectFailureStep::LogGuidanceAndSucceed
    }
}

/// Replays one whole run over a finite record of the environment's
/// responses, yielding the exact action sequence and the outcome.
pub fn orchestrate(
    k: ResetKind,
    pol: &Policy,
    connect_ok: bool,
    send_ok: bool,
    reads: &Vec<ReadEvent>,
) -> (r: (Vec<Action>, Outcome))
    ensures
        r.0@ == spec_trace(k, *pol, connect_ok, send_ok, reads@),
        r.1 == spec_outcome(*pol, connect_ok),
{
    let mut t: Vec<Action> = Vec::new();
    if pol.play_audio_cue {
        t.push(Action::SpawnCue);
        if matches!(k, ResetKind::Full) {
            t.push(Action::Delay(pol.pre_delay_secs));
        }
    }
    proof {
        assert(t@ =~= spec_prelude(k, *pol));
    }
    t.push(Action::Connect);
    if !connect_ok {
        if pol.abort_on_connect_failure {
            proof {
                assert(t@ =~= spec_trace(k, *pol, connect_ok, send_ok, reads@));
            }
            return (t, Outcome::Aborted);
        }
        t.push(Action::LogGuidance);
        proof {
            assert(t@ =~= spec_trace(k, *pol, connect_ok, send_ok, reads@));
        }
        return (t, Outcome::ServerUnavailable);
    }
    t.push(Action::Send);
    if !send_ok {
        t.push(Action::LogSendFailure);
    }
    let ghost before_diags = t@;
    if pol.log_diagnostics {
        let report = crate::drain::run_drain(reads);
        let mut i: usize = 0;
        while i < report.logged.len()
            invariant
                i <= report.logged@.len(),
                report.logged@.len() == diag_prefix_len(reads@),
                t@ == before_diags + Seq::new(i as nat, |j: int| Action::LogDiagnostic),
            decreases report.logged@.len() - i,
        {
            t.push(Action::LogDiagnostic);
            proof {
                assert(t@ =~= before_diags
                    + Seq::new((i + 1) as nat, |j: int| Action::LogDiagnostic));
            }
            i = i + 1;
        }
    }
    proof {
        assert(t@ =~= before_diags + spec_diags(*pol, reads@));
    }
    if pol.play_audio_cue {
        t.push(Action::JoinCue);
    }
    t.push(Action::Close);
    proof {
        assert(t@ =~= spec_trace(k, *pol, connect_ok, send_ok, reads@));
    }
    (t, Outcome::ResetSent)
}

/// With the recoverable policy, a refused connection ends the run
/// successfully: the outcome is `ServerUnavailable`, the trace ends
/// with exactly one guidance line, and nothing is sent, drained or
/// closed.
pub proof fn lemma_server_unavailable_recovers(
    k: ResetKind,
    pol: Policy,
    send_ok: bool,
    reads: Seq<ReadEvent>,
)
    requires
        !pol.abort_on_connect_failure,
    ensures
        ({
            let t = spec_trace(k, pol, false, send_ok, reads);
            &&& spec_outcome(pol, false) == Outcome::ServerUnavailable
            &&& t.len() >= 2
            &&& t[t.len() - 1] == Action::LogGuidance
            &&& forall|i: int| 0 <= i < t.len() - 1 ==> t[i] != Action::LogGuidance
            &&& forall|i: int|
                0 <= i < t.len() ==> t[i] != Action::Send && t[i] != Action::Close
        }),
{
    let p = spec_prelude(k, pol);
    let t = spec_trace(k, pol, false, send_ok, reads);
    assert(t == p + seq![Action::Connect, Action::LogGuidance]);
    assert(forall|i: int|
        0 <= i < p.len() ==> p[i] == Action::SpawnCue || p[i] matches Action::Delay(_));
    assert(t[t.len() - 1] == Action::LogGuidance);
}

/// For a run that spawns the cue and reaches the server, the cue is
/// joined exactly once, after every diagnostic report of the drain
/// phase and before the close, which is the final action.
pub proof fn lemma_join_after_drain_before_close(
    k: ResetKind,
    pol: Policy,
    send_ok: bool,
    reads: Seq<ReadEvent>,
)
    requires
        pol.play_audio_cue,
    ensures
        ({
            let t = spec_trace(k, pol, true, send_ok, reads);
            &&& t.len() >= 2
            &&& t[t.len() - 2] == Action::JoinCue
            &&& t[t.len() - 1] == Action::Close
            &&& forall|i: int| 0 <= i < t.len() - 2 ==> t[i] != Action::JoinCue
            &&& forall|i: int|
                0 <= i < t.len() && t[i] == Action::LogDiagnostic ==> i < t.len() - 2
        }),
{
    crate::drain::lemma_diag_prefix_len_bounds(reads);
    let p = spec_prelude(k, pol);
    let d = spec_diags(pol, reads);
    let f: Seq<Action> = if send_ok { Seq::empty() } else { seq![Action::LogSendFailure] };
    let t = spec_trace(k, pol, true, send_ok, reads);
    assert(t == p + seq![Action::Connect, Action::Send] + f + d + seq![Action::JoinCue]
        + seq![Action::Close]);
    assert(p.len() == if k is Full { 2int } else { 1int });
    assert(forall|i: int|
        0 <= i < p.len() ==> p[i] == Action::SpawnCue || p[i] matches Action::Delay(_));
    assert(forall|i: int| 0 <= i < d.len() ==> d[i] == Action::LogDiagnostic);
    assert(t.len() == p.len() + 2 + f.len() + d.len() + 2);
    assert(t[t.len() - 2] == Action::JoinCue);
    assert(t[t.len() - 1] == Action::Close);
    assert forall|i: int| 0 <= i < t.len() - 2 implies t[i] != Action::JoinCue by {
        if i < p.len() {
            assert(t[i] == p[i]);
        } else if i < p.len() + 2 {
            assert(t[i] == seq![Action::Connect, Action::Send][i - p.len()]);
        } else if i < p.len() + 2 + f.len() {
            assert(t[i] == f[i - p.len() - 2]);
        } else {
            assert(t[i] == d[i - p.len() - 2 - f.len()]);
        }
    }
}

/// For a kind that spawns no cue, no worker exists and the ordering
/// collapses: the run is exactly connect, send (with its failure
/// report, if any), the drain's diagnostics, close.
pub proof fn lemma_no_cue_collapses(
    k: ResetKind,
    pol: Policy,
    send_ok: bool,
    reads: Seq<ReadEvent>,
)
    requires
        !pol.play_audio_cue,
    ensures
        spec_trace(k, pol, true, send_ok, reads) =~= seq![Action::Connect, Action::Send]
            + (if send_ok { Seq::<Action>::empty() } else { seq![Action::LogSendFailure] })
            + spec_diags(pol, reads) + seq![Action::Close],
        forall|i: int| #![auto]
            0 <= i < spec_trace(k, pol, true, send_ok, reads).len()
                ==> spec_trace(k, pol, true, send_ok, reads)[i] != Action::JoinCue
                && spec_trace(k, pol, true, send_ok, reads)[i] != Action::SpawnCue,
{
    crate::drain::lemma_diag_prefix_len_bounds(reads);
    let d = spec_diags(pol, reads);
    let f: Seq<Action> = if send_ok { Seq::empty() } else { seq![Action::LogSendFailure] };
    let t = spec_trace(k, pol, true, send_ok, reads);
    assert(spec_prelude(k, pol) == Seq::<Action>::empty());
    assert(t =~= seq![Action::Connect, Action::Send] + f + d + seq![Action::Close]);
    assert(forall|i: int| 0 <= i < d.len() ==> d[i] == Action::LogDiagnostic);
    assert forall|i: int| 0 <= i < t.len() implies t[i] != Action::JoinCue && t[i]
        != Action::SpawnCue by {
        if i < 2 {
            assert(t[i] == seq![Action::Connect, Action::Send][i]);
        } else if i < 2 + f.len() {
            assert(t[i] == f[i - 2]);
        } else if i < 2 + f.len() + d.len() {
            assert(t[i] == d[i - 2 - f.len()]);
        } else {
            assert(t[i] == Action::Close);
        }
    }
}

} // verus!
