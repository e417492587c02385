//! The decisions of the response-drain loop.
//!
//! After the reset command is sent, the server's replies are read until
//! a terminating condition.  A frame that decodes as non-empty text is a
//! diagnostic event: it is reported and the loop goes on.  Empty text, a
//! frame that is not text, and a failed read all terminate the loop, and
//! deliberately without distinction — the server's completion protocol
//! folds the three into a single "done" signal.  The reads themselves
//! are I/O and happen outside; the library decides, per observed event,
//! whether to continue, and states what a whole drain phase yields.

use vstd::prelude::*;

verus! {

/// One observation made by the reader of the session: a frame that
/// decoded as text (possibly empty), a frame that did not decode as
/// text (binary or close), or a failed read.
pub enum ReadEvent {
    Text(String),
    NonText,
    Failed,
}

/// What the drain loop does with one event.
#[derive(Clone, Copy, Debug, PartialEq, Eq, Structural)]
pub enum DrainStep {
    /// The event was a non-empty text frame: report it, keep reading.
    LogAndContinue,
    /// The event terminates the drain phase.
    Done,
}

/// An event ends the drain phase unless it is a non-empty text frame.
pub open spec fn is_terminal(ev: ReadEvent) -> bool {
    !(ev matches ReadEvent::Text(s) && s@.len() > 0)
}

/// The decision taken for one observed event.
pub fn drain_step(ev: &ReadEvent) -> (d: DrainStep)
    ensures
        d == DrainStep::LogAndContinue <==> !is_terminal(*ev),
{
    match ev {
        ReadEvent::Text(s) => {
            if s.as_str().is_empty() {
                DrainStep::Done
            } else {
                DrainStep::LogAndContinue
            }
        },
        ReadEvent::NonText => DrainStep::Done,
        ReadEvent::Failed => DrainStep::Done,
    }
}

/// How many diagnostic events a drain over `evs` reports: the length of
/// the longest prefix of non-terminal events.
pub open spec fn diag_prefix_len(evs: Seq<ReadEvent>) -> int
    decreases evs.len(),
{
    if evs.len() == 0 {
        0
    } else if is_terminal(evs[0]) {
        0
    } else {
        1 + diag_prefix_len(evs.drop_first())
    }
}

/// The texts of the diagnostic events a drain over `evs` reports, in
/// the order they arrive.
pub open spec fn diag_texts(evs: Seq<ReadEvent>) -> Seq<Seq<char>>
    decreases evs.len(),
{
    if evs.len() == 0 {
        Seq::empty()
    } else if is_terminal(evs[0]) {
        Seq::empty()
    } else {
        seq![evs[0]->Text_0@] + diag_texts(evs.drop_first())
    }
}

/// If the first `i` events of `evs` are non-terminal and either the
/// whole sequence is exhausted or event `i` is terminal, then the drain
/// reports exactly the texts of those `i` events.
proof fn lemma_diag_prefix(evs: Seq<ReadEvent>, i: int)
    requires
        0 <= i <= evs.len(),
        forall|j: int| 0 <= j < i ==> !is_terminal(evs[j]),
        i < evs.len() ==> is_terminal(evs[i]),
    ensures
        diag_prefix_len(evs) == i,
        diag_texts(evs) == evs.take(i).map(|j: int, ev: ReadEvent| ev->Text_0@),
    decreases i,
{
    let m = |j: int, ev: ReadEvent| ev->Text_0@;
    if i == 0 {
        assert(evs.take(0).map(m) =~= Seq::<Seq<char>>::empty());
    } else {
        assert(!is_terminal(evs[0]));
        let rest = evs.drop_first();
        assert(forall|j: int| 0 <= j < i - 1 ==> rest[j] == evs[j + 1]);
        lemma_diag_prefix(rest, i - 1);
        assert(diag_texts(evs) == seq![evs[0]->Text_0@] + diag_texts(rest));
        assert(evs.take(i).map(m) =~= seq![evs[0]->Text_0@] + rest.take(i - 1).map(m)) by {
            assert(rest.take(i - 1).map(m).len() == i - 1);
            assert(forall|j: int|
                0 <= j < i - 1 ==> rest.take(i - 1).map(m)[j] == m(j, rest[j]));
        }
    }
}

/// The diagnostic prefix is never negative and never longer than the
/// record it is taken from.
pub proof fn lemma_diag_prefix_len_bounds(evs: Seq<ReadEvent>)
    ensures
        0 <= diag_prefix_len(evs) <= evs.len(),
    decreases evs.len(),
{
    if evs.len() == 0 {
    } else if is_terminal(evs[0]) {
    } else {
        lemma_diag_prefix_len_bounds(evs.drop_first());
    }
}

/// What one whole drain phase yields.
pub struct DrainReport {
    /// The diagnostic texts reported, in arrival order.
    pub logged: Vec<String>,
    /// How many events were consumed, the terminating one included.
    pub frames_read: usize,
    /// Whether a terminating event was observed.  Over a live session
    /// this is always true eventually (or the loop blocks); over a
    /// finite record of events the record may run out first.
    pub terminated: bool,
}

/// Runs the drain decisions over a finite record of observed events:
/// reports every leading non-empty text frame and stops at the first
/// terminating event.
pub fn run_drain(events: &Vec<ReadEvent>) -> (r: DrainReport)
    ensures
        r.logged@.map_values(|s: String| s@) == diag_texts(events@),
        r.logged@.len() == diag_prefix_len(events@),
        r.terminated <==> diag_prefix_len(events@) < events@.len(),
        r.frames_read == if r.terminated {
            diag_prefix_len(events@) + 1
        } else {
            diag_prefix_len(events@)
        },
{
    let mut logged: Vec<String> = Vec::new();
    let mut i: usize = 0;
    loop
        invariant
            0 <= i <= events@.len(),
            forall|j: int| 0 <= j < i ==> !is_terminal(events@[j]),
            logged@.len() == i,
            forall|j: int| 0 <= j < i ==> logged@[j]@ == events@[j]->Text_0@,
        decreases events@.len() - i,
    {
        if i == events.len() {
            proof {
                lemma_diag_prefix(events@, i as int);
                assert(logged@.map_values(|s: String| s@) =~= diag_texts(events@));
            }
            return DrainReport { logged, frames_read: i, terminated: false };
        }
        let ev = &events[i];
        match drain_step(ev) {
            DrainStep::LogAndContinue => {
                match ev {
                    ReadEvent::Text(s) => { logged.push(s.clone()); },
                    ReadEvent::NonText => { proof { assert(false); } },
                    ReadEvent::Failed => { proof { assert(false); } },
                }
                i = i + 1;
            },
            DrainStep::Done => {
                proof {
                    lemma_diag_prefix(events@, i as int);
                    assert(logged@.map_values(|s: String| s@) =~= diag_texts(events@));
                }
                return DrainReport { logged, frames_read: i + 1, terminated: true };
            },
        }
    }
}

} // verus!
