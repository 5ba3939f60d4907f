//! The decisions of a streamed download: what each network or disk event
//! means for the transfer, and which progress report it produces.
use vstd::prelude::*;

verus! {

/// How far a transfer has come; `total_size` is 0 when the server declared no length.
#[derive(Clone, Copy, Debug, PartialEq, Eq, Structural)]
pub struct Progress {
    pub total_size: u64,
    pub downloaded: u64,
}

/// Why a transfer stopped before the body was complete.
#[derive(Debug)]
pub enum TransferError {
    /// The connection could not be made or broke off.
    Network(String),
    /// The server answered with a status other than success.
    Status(u16),
    /// The output file could not be opened or written.
    Write(String),
}

/// Something that happened to the transfer, as the caller observed it.
#[derive(Debug)]
pub enum TransferEvent {
    /// The response arrived, with the length it declared, if any.
    Opened { content_length: Option<u64> },
    /// `len` more bytes were received and written to the output file.
    Chunk { len: u64 },
    /// The body is exhausted.
    End,
    /// The request, the response or the output file failed.
    Failed { error: TransferError },
}

/// What the caller does next.
#[derive(Debug)]
pub enum TransferAction {
    /// Nothing to report: read on.
    Continue,
    /// Hand this progress to the progress callback, then read on.
    Report(Progress),
    /// The transfer succeeded after `downloaded` bytes.
    Complete { downloaded: u64 },
    /// The transfer failed; no more progress is reported.
    Abort(TransferError),
}

/// The stage a transfer is in.
#[derive(Clone, Copy, Debug, PartialEq, Eq, Structural)]
pub enum Phase {
    Connecting,
    Receiving,
    Complete,
    Failed,
}

/// The state of one transfer.
pub struct Transfer {
    pub phase: Phase,
    pub total_size: u64,
    pub downloaded: u64,
}

/// The state before the request is sent.
pub open spec fn initial_transfer() -> Transfer {
    Transfer { phase: Phase::Connecting, total_size: 0, downloaded: 0 }
}

/// Event `e` keeps the byte count of `s` within `u64`.
pub open spec fn fits(s: Transfer, e: TransferEvent) -> bool {
    match e {
        TransferEvent::Chunk { len } => s.downloaded + len <= u64::MAX,
        _ => true,
    }
}

/// The state after event `e`, and the action it calls for.
pub open spec fn next_state(s: Transfer, e: TransferEvent) -> (Transfer, TransferAction) {
    match s.phase {
        Phase::Connecting => match e {
            TransferEvent::Opened { content_length } => (
                Transfer {
                    phase: Phase::Receiving,
                    total_size: match content_length {
                        Some(n) => n,
                        None => 0,
                    },
                    downloaded: 0,
                },
                TransferAction::Continue,
            ),
            TransferEvent::Failed { error } => (
                Transfer { phase: Phase::Failed, ..s },
                TransferAction::Abort(error),
            ),
            _ => (s, TransferAction::Continue),
        },
        Phase::Receiving => match e {
            TransferEvent::Chunk { len } => {
                let d = (s.downloaded + len) as u64;
                (
                    Transfer { downloaded: d, ..s },
                    TransferAction::Report(Progress { total_size: s.total_size, downloaded: d }),
                )
            },
            TransferEvent::End => (
                Transfer { phase: Phase::Complete, ..s },
                TransferAction::Complete { downloaded: s.downloaded },
            ),
            TransferEvent::Failed { error } => (
                Transfer { phase: Phase::Failed, ..s },
                TransferAction::Abort(error),
            ),
            TransferEvent::Opened { .. } => (s, TransferAction::Continue),
        },
        Phase::Complete | Phase::Failed => (s, TransferAction::Continue),
    }
}

impl Transfer {
    /// A transfer whose request has not been answered yet.
    pub fn new() -> (r: Transfer)
        ensures
            r == initial_transfer(),
    {
        Transfer { phase: Phase::Connecting, total_size: 0, downloaded: 0 }
    }

    /// Takes in one event and says what to do next.
    pub fn step(&mut self, event: TransferEvent) -> (a: TransferAction)
        requires
            fits(*old(self), event),
        ensures
            (*final(self), a) == next_state(*old(self), event),
    {
        match self.phase {
            Phase::Connecting => match event {
                TransferEvent::Opened { content_length } => {
                    self.phase = Phase::Receiving;
                    self.total_size = match content_length {
                        Some(n) => n,
                        None => 0,
                    };
                    self.downloaded = 0;
                    TransferAction::Continue
                },
                TransferEvent::Failed { error } => {
                    self.phase = Phase::Failed;
                    TransferAction::Abort(error)
                },
                _ => TransferAction::Continue,
            },
            Phase::Receiving => match event {
                TransferEvent::Chunk { len } => {
                    self.downloaded = self.downloaded + len;
                    TransferAction::Report(
                        Progress { total_size: self.total_size, downloaded: self.downloaded },
                    )
                },
                TransferEvent::End => {
                    self.phase = Phase::Complete;
                    TransferAction::Complete { downloaded: self.downloaded }
                },
                TransferEvent::Failed { error } => {
                    self.phase = Phase::Failed;
                    TransferAction::Abort(error)
                },
                TransferEvent::Opened { .. } => TransferAction::Continue,
            },
            Phase::Complete | Phase::Failed => TransferAction::Continue,
        }
    }
}

/// The share of the declared size that has arrived, in percent: `None` when
/// the size is unknown, 100 once the declared size has been reached or passed.
pub open spec fn percent_of(p: Progress) -> Option<u64> {
    if p.total_size == 0 {
        None
    } else if p.downloaded >= p.total_size {
        Some(100)
    } else {
        Some(((100 * p.downloaded) / (p.total_size as int)) as u64)
    }
}

/// The completion percentage of `p`, guarded against an unknown total size.
pub fn percent(p: Progress) -> (r: Option<u64>)
    ensures
        r == percent_of(p),
{
    if p.total_size == 0 {
        None
    } else if p.downloaded >= p.total_size {
        Some(100)
    } else {
        let scaled: u128 = 100u128 * (p.downloaded as u128);
        let q: u128 = scaled / (p.total_size as u128);
        proof {
            assert(q <= 100) by (nonlinear_arith)
                requires
                    q == scaled / (p.total_size as u128),
                    scaled == 100 * p.downloaded,
                    p.downloaded < p.total_size,
                    p.total_size > 0,
            ;
        }
        Some(q as u64)
    }
}

/// The states passed through and the actions called for, event by event.
pub open spec fn run(s: Transfer, events: Seq<TransferEvent>) -> (Transfer, Seq<TransferAction>)
    decreases events.len(),
{
    if events.len() == 0 {
        (s, Seq::empty())
    } else {
        let (s1, a) = next_state(s, events[0]);
        let (s2, rest) = run(s1, events.drop_first());
        (s2, seq![a] + rest)
    }
}

/// The progress handed to the progress callback, in order.
pub open spec fn reported(actions: Seq<TransferAction>) -> Seq<Progress>
    decreases actions.len(),
{
    if actions.len() == 0 {
        Seq::empty()
    } else {
        let rest = reported(actions.drop_first());
        match actions[0] {
            TransferAction::Report(p) => seq![p] + rest,
            _ => rest,
        }
    }
}

/// The sizes of successive chunks, added up.
pub open spec fn total_of(lens: Seq<u64>) -> nat
    decreases lens.len(),
{
    if lens.len() == 0 {
        0
    } else {
        (lens[0] + total_of(lens.drop_first())) as nat
    }
}

/// One chunk event for each length.
pub open spec fn chunk_events(lens: Seq<u64>) -> Seq<TransferEvent> {
    lens.map_values(|len: u64| TransferEvent::Chunk { len })
}

/// A body read as chunks of sizes `lens`, then its end.
proof fn lemma_body_run(s: Transfer, lens: Seq<u64>)
    requires
        s.phase == Phase::Receiving,
        s.downloaded + total_of(lens) <= u64::MAX,
        forall|i: int| 0 <= i < lens.len() ==> lens[i] > 0,
    ensures
        ({
            let (fin, acts) = run(s, chunk_events(lens) + seq![TransferEvent::End]);
            let r = reported(acts);
            &&& r.len() == lens.len()
            &&& forall|i: int| 0 <= i < r.len() ==> (#[trigger] r[i]).total_size == s.total_size
            &&& forall|i: int|
                0 <= i < r.len() ==> (#[trigger] r[i]).downloaded == s.downloaded + total_of(
                    lens.take(i + 1),
                )
            &&& forall|i: int| 0 <= i < r.len() ==> (#[trigger] r[i]).downloaded > s.downloaded
            &&& forall|i: int, j: int|
                0 <= i < j < r.len() ==> (#[trigger] r[i]).downloaded < (#[trigger] r[j]).downloaded
            &&& lens.len() > 0 ==> r.last().downloaded == s.downloaded + total_of(lens)
            &&& fin.phase == Phase::Complete
            &&& fin.downloaded == s.downloaded + total_of(lens)
            &&& acts.last() == TransferAction::Complete { downloaded: fin.downloaded }
        }),
    decreases lens.len(),
{
    let evs = chunk_events(lens) + seq![TransferEvent::End];
    if lens.len() == 0 {
        assert(evs =~= seq![TransferEvent::End]);
        assert(evs.drop_first() =~= Seq::<TransferEvent>::empty());
        let s1 = Transfer { phase: Phase::Complete, ..s };
        assert(run(s1, evs.drop_first()) == (s1, Seq::<TransferAction>::empty()));
        let acts = run(s, evs).1;
        assert(acts =~= seq![TransferAction::Complete { downloaded: s.downloaded }]);
        assert(acts.drop_first() =~= Seq::<TransferAction>::empty());
        assert(reported(acts.drop_first()) == Seq::<Progress>::empty());
    } else {
        let tail = lens.drop_first();
        let s1 = Transfer { downloaded: (s.downloaded + lens[0]) as u64, ..s };
        let p0 = Progress { total_size: s.total_size, downloaded: s1.downloaded };
        assert(evs[0] == TransferEvent::Chunk { len: lens[0] });
        assert(evs.drop_first() =~= chunk_events(tail) + seq![TransferEvent::End]);
        lemma_body_run(s1, tail);
        let (fin, acts) = run(s, evs);
        let (_, rest) = run(s1, evs.drop_first());
        assert(acts == seq![TransferAction::Report(p0)] + rest);
        assert(acts.drop_first() =~= rest);
        let r = reported(acts);
        let r1 = reported(rest);
        assert(r =~= seq![p0] + r1);
        assert(acts.last() == rest.last());
        if lens.len() > 1 {
            assert(r.last() == r1.last());
        }
        assert forall|i: int| 0 <= i < r.len() implies (#[trigger] r[i]).downloaded
            == s.downloaded + total_of(lens.take(i + 1)) by {
            assert(lens.take(i + 1).drop_first() =~= tail.take(i));
            assert(lens.take(i + 1)[0] == lens[0]);
            assert(total_of(lens.take(i + 1)) == lens[0] + total_of(tail.take(i)));
            if i == 0 {
                assert(tail.take(0) =~= Seq::<u64>::empty());
                assert(total_of(tail.take(0)) == 0);
            } else {
                assert(r[i] == r1[i - 1]);
                assert(r1[i - 1].downloaded == s1.downloaded + total_of(tail.take(i)));
            }
        }
        assert forall|i: int, j: int| 0 <= i < j < r.len() implies (#[trigger] r[i]).downloaded
            < (#[trigger] r[j]).downloaded by {
            assert(r[j] == r1[j - 1]);
            if i > 0 {
                assert(r[i] == r1[i - 1]);
            }
        }
        assert forall|i: int| 0 <= i < r.len() implies (#[trigger] r[i]).downloaded > s.downloaded by {
            if i > 0 {
                assert(r[i] == r1[i - 1]);
            }
        }
        assert forall|i: int| 0 <= i < r.len() implies (#[trigger] r[i]).total_size == s.total_size by {
            if i > 0 {
                assert(r[i] == r1[i - 1]);
            }
        }
    }
}

/// A body of `total_of(lens)` bytes delivered in chunks of sizes `lens`: one
/// progress report per chunk, each with the declared size (0 when none was
/// declared) and with the running sum of the chunk sizes so far, so that the
/// counts grow strictly and end at the body's size; the transfer then
/// completes with exactly the body's size written.
pub proof fn lemma_progress_reaches_size(content_length: Option<u64>, lens: Seq<u64>)
    requires
        total_of(lens) <= u64::MAX,
        forall|i: int| 0 <= i < lens.len() ==> lens[i] > 0,
    ensures
        ({
            let events = seq![TransferEvent::Opened { content_length }] + chunk_events(lens)
                + seq![TransferEvent::End];
            let (fin, acts) = run(initial_transfer(), events);
            let r = reported(acts);
            let declared: u64 = match content_length {
                Some(n) => n,
                None => 0,
            };
            &&& r.len() == lens.len()
            &&& forall|i: int| 0 <= i < r.len() ==> (#[trigger] r[i]).total_size == declared
            &&& forall|i: int|
                0 <= i < r.len() ==> (#[trigger] r[i]).downloaded == total_of(lens.take(i + 1))
            &&& forall|i: int, j: int|
                0 <= i < j < r.len() ==> (#[trigger] r[i]).downloaded < (#[trigger] r[j]).downloaded
            &&& lens.len() > 0 ==> r.last().downloaded == total_of(lens)
            &&& fin.phase == Phase::Complete
            &&& fin.downloaded == total_of(lens)
            &&& acts.last() == TransferAction::Complete { downloaded: total_of(lens) as u64 }
        }),
{
    let events = seq![TransferEvent::Opened { content_length }] + chunk_events(lens)
        + seq![TransferEvent::End];
    let s1 = next_state(initial_transfer(), events[0]).0;
    assert(events.drop_first() =~= chunk_events(lens) + seq![TransferEvent::End]);
    lemma_body_run(s1, lens);
    let (fin, acts) = run(initial_transfer(), events);
    let (_, rest) = run(s1, events.drop_first());
    assert(acts.drop_first() =~= rest);
    assert(reported(acts) =~= reported(rest));
    assert(acts.last() == rest.last());
}

/// A finished or failed transfer ignores every further event.
proof fn lemma_settled_run(s: Transfer, events: Seq<TransferEvent>)
    requires
        s.phase == Phase::Failed || s.phase == Phase::Complete,
    ensures
        run(s, events).0 == s,
        reported(run(s, events).1).len() == 0,
    decreases events.len(),
{
    if events.len() > 0 {
        lemma_settled_run(s, events.drop_first());
        let acts = run(s, events).1;
        assert(acts.drop_first() =~= run(s, events.drop_first()).1);
    }
}

/// A failure before completion aborts the transfer with that error, and no
/// progress is reported for anything that comes after it.
pub proof fn lemma_failure_stops_progress(s: Transfer, error: TransferError, rest: Seq<TransferEvent>)
    requires
        s.phase == Phase::Connecting || s.phase == Phase::Receiving,
    ensures
        ({
            let (fin, acts) = run(s, seq![TransferEvent::Failed { error }] + rest);
            &&& acts[0] == TransferAction::Abort(error)
            &&& reported(acts).len() == 0
            &&& fin.phase == Phase::Failed
        }),
{
    let events = seq![TransferEvent::Failed { error }] + rest;
    let s1 = next_state(s, events[0]).0;
    assert(events.drop_first() =~= rest);
    lemma_settled_run(s1, rest);
    let acts = run(s, events).1;
    assert(acts.drop_first() =~= run(s1, rest).1);
}

/// A request that cannot be sent (an unreachable address) aborts with its error
/// and reports no progress at all.
pub proof fn lemma_unreachable_reports_nothing(error: TransferError, rest: Seq<TransferEvent>)
    ensures
        ({
            let (fin, acts) = run(initial_transfer(), seq![TransferEvent::Failed { error }] + rest);
            &&& acts[0] == TransferAction::Abort(error)
            &&& reported(acts).len() == 0
            &&& fin.phase == Phase::Failed
        }),
{
    lemma_failure_stops_progress(initial_transfer(), error, rest);
}

} // verus!
