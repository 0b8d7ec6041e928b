//! The decisions of one download: what each pulled item turns into, how the
//! verifier is fed, and the drain of the stream after a failed extraction. The
//! caller performs each returned action and reports the next event.
use vstd::prelude::*;
use bytes::Bytes;
use crate::error::{DownloadError, RemoteError};

verus! {

#[verifier::external_type_specification]
#[verifier::external_body]
pub struct ExBytes(Bytes);

/// An observer of every chunk of a download, in arrival order.
pub trait DataVerifier: Send + Sync {
    /// Digest input data. Called once per chunk, in the order the chunks arrive.
    fn update(&mut self, data: &Bytes);
}

/// One item pulled from the byte-stream source.
#[derive(Debug, PartialEq, Eq)]
pub enum Pulled {
    Chunk(Bytes),
    Failed(RemoteError),
    /// The source has ended.
    End,
}

/// Where a download stands.
#[derive(Debug, PartialEq, Eq)]
pub enum Phase {
    /// The extraction strategy is consuming the stream.
    Streaming,
    /// Extraction failed; the rest of the stream is being pulled for the verifier.
    Draining,
    /// The operation has its result.
    Done,
}

/// What the caller does next.
#[derive(Debug, PartialEq, Eq)]
pub enum Action {
    /// Hand the chunk to the verifier when `verify` holds, then to the extraction.
    Deliver { chunk: Bytes, verify: bool },
    /// Hand the failure to the extraction; the stream may go on.
    DeliverError(DownloadError),
    /// Tell the extraction that the stream has ended.
    DeliverEnd,
    /// Hand the chunk to the verifier, drop it and pull the next item.
    VerifyAndPull(Bytes),
    /// Pull the next item.
    Pull,
    /// The operation succeeded.
    Succeed,
    /// The operation failed with this error.
    Fail(DownloadError),
}

/// The abstract state of a download.
pub struct SessionView {
    pub has_verifier: bool,
    pub exhausted: bool,
    pub phase: Phase,
    /// The error held back while the stream drains.
    pub pending: Option<DownloadError>,
    /// Every chunk handed to the verifier so far, in order.
    pub observed: Seq<Bytes>,
}

/// The state after the caller reports a pulled item.
pub open spec fn after_item(v: SessionView, item: Pulled) -> SessionView {
    match item {
        Pulled::Chunk(b) => SessionView {
            observed: if v.has_verifier { v.observed.push(b) } else { v.observed },
            ..v
        },
        Pulled::Failed(_) => v,
        Pulled::End => SessionView {
            exhausted: true,
            phase: if v.phase is Draining { Phase::Done } else { v.phase },
            pending: if v.phase is Draining { None } else { v.pending },
            ..v
        },
    }
}

/// The action for a pulled item.
pub open spec fn action_for_item(v: SessionView, item: Pulled) -> Action {
    if v.phase is Draining {
        match item {
            Pulled::Chunk(b) => Action::VerifyAndPull(b),
            Pulled::Failed(_) => Action::Pull,
            Pulled::End => Action::Fail(v.pending.unwrap()),
        }
    } else {
        match item {
            Pulled::Chunk(b) => Action::Deliver { chunk: b, verify: v.has_verifier },
            Pulled::Failed(e) => Action::DeliverError(DownloadError::Remote(e)),
            Pulled::End => Action::DeliverEnd,
        }
    }
}

/// Whether the stream is drained after a failed extraction: only with a verifier
/// attached, and only while the source has not ended.
pub open spec fn drains(v: SessionView, res: Result<(), DownloadError>) -> bool {
    res is Err && v.has_verifier && !v.exhausted
}

/// The state after the extraction reports its result.
pub open spec fn after_extraction(v: SessionView, res: Result<(), DownloadError>) -> SessionView {
    if drains(v, res) {
        SessionView { phase: Phase::Draining, pending: Some(res->Err_0), ..v }
    } else {
        SessionView { phase: Phase::Done, ..v }
    }
}

/// The action once the extraction reports its result.
pub open spec fn action_for_extraction(v: SessionView, res: Result<(), DownloadError>) -> Action {
    match res {
        Ok(()) => Action::Succeed,
        Err(e) => if drains(v, Err(e)) { Action::Pull } else { Action::Fail(e) },
    }
}

/// The state of one download.
pub struct Session {
    has_verifier: bool,
    exhausted: bool,
    draining: bool,
    done: bool,
    pending: Option<DownloadError>,
    observed: Ghost<Seq<Bytes>>,
}

impl View for Session {
    type V = SessionView;

    closed spec fn view(&self) -> SessionView {
        SessionView {
            has_verifier: self.has_verifier,
            exhausted: self.exhausted,
            phase: if self.done {
                Phase::Done
            } else if self.draining {
                Phase::Draining
            } else {
                Phase::Streaming
            },
            pending: self.pending,
            observed: self.observed@,
        }
    }
}

impl Session {
    /// A drain happens only with a verifier attached, and holds back its error.
    pub open spec fn wf(&self) -> bool {
        self@.phase is Draining ==> self@.has_verifier && self@.pending is Some
    }

    /// A download that is about to stream, with or without a verifier.
    pub fn new(has_verifier: bool) -> (r: Session)
        ensures
            r.wf(),
            r@.has_verifier == has_verifier,
            !r@.exhausted,
            r@.phase is Streaming,
            r@.pending is None,
            r@.observed == Seq::<Bytes>::empty(),
    {
        Session {
            has_verifier,
            exhausted: false,
            draining: false,
            done: false,
            pending: None,
            observed: Ghost(Seq::empty()),
        }
    }

    /// Whether the source has ended; once it has, it is never pulled again.
    pub fn is_exhausted(&self) -> (r: bool)
        ensures
            r == self@.exhausted,
    {
        self.exhausted
    }

    /// Whether the operation has its result.
    pub fn is_done(&self) -> (r: bool)
        ensures
            r == self@.phase is Done,
    {
        self.done
    }

    /// Report an item pulled from the source.
    pub fn on_item(&mut self, item: Pulled) -> (r: Action)
        requires
            !(old(self)@.phase is Done),
            !old(self)@.exhausted,
            old(self).wf(),
        ensures
            final(self).wf(),
            final(self)@ == after_item(old(self)@, item),
            r == action_for_item(old(self)@, item),
    {
        if self.draining {
            match item {
                Pulled::Chunk(b) => {
                    self.observed = Ghost(self.observed@.push(b));
                    Action::VerifyAndPull(b)
                },
                Pulled::Failed(_) => Action::Pull,
                Pulled::End => {
                    self.exhausted = true;
                    self.done = true;
                    let mut held: Option<DownloadError> = None;
                    std::mem::swap(&mut held, &mut self.pending);
                    Action::Fail(held.unwrap())
                },
            }
        } else {
            match item {
                Pulled::Chunk(b) => {
                    if self.has_verifier {
                        self.observed = Ghost(self.observed@.push(b));
                    }
                    Action::Deliver { chunk: b, verify: self.has_verifier }
                },
                Pulled::Failed(e) => Action::DeliverError(DownloadError::Remote(e)),
                Pulled::End => {
                    self.exhausted = true;
                    Action::DeliverEnd
                },
            }
        }
    }

    /// Report the result of the extraction strategy.
    pub fn on_extraction(&mut self, res: Result<(), DownloadError>) -> (r: Action)
        requires
            old(self)@.phase is Streaming,
            old(self).wf(),
        ensures
            final(self).wf(),
            final(self)@ == after_extraction(old(self)@, res),
            r == action_for_extraction(old(self)@, res),
    {
        match res {
            Ok(()) => {
                self.done = true;
                Action::Succeed
            },
            Err(e) => {
                if self.has_verifier && !self.exhausted {
                    self.draining = true;
                    self.pending = Some(e);
                    Action::Pull
                } else {
                    self.done = true;
                    Action::Fail(e)
                }
            },
        }
    }
}

/// The chunks among `items`, in order.
pub open spec fn chunks(items: Seq<Pulled>) -> Seq<Bytes>
    decreases items.len(),
{
    if items.len() == 0 {
        Seq::empty()
    } else {
        let rest = chunks(items.drop_last());
        match items.last() {
            Pulled::Chunk(b) => rest.push(b),
            _ => rest,
        }
    }
}

/// The state after the caller reports each of `items` in turn.
pub open spec fn run_items(v: SessionView, items: Seq<Pulled>) -> SessionView
    decreases items.len(),
{
    if items.len() == 0 {
        v
    } else {
        after_item(run_items(v, items.drop_last()), items.last())
    }
}

/// Whether none of `items` ends the source.
pub open spec fn no_end(items: Seq<Pulled>) -> bool {
    forall|i: int| 0 <= i < items.len() ==> !(#[trigger] items[i] is End)
}

proof fn lemma_run_without_end(v: SessionView, items: Seq<Pulled>)
    requires
        no_end(items),
        v.has_verifier,
    ensures
        run_items(v, items) == (SessionView { observed: v.observed + chunks(items), ..v }),
    decreases items.len(),
{
    if items.len() == 0 {
        assert(v.observed + chunks(items) =~= v.observed);
    } else {
        let init = items.drop_last();
        assert(no_end(init)) by {
            assert forall|i: int| 0 <= i < init.len() implies !(#[trigger] init[i] is End) by {
                assert(init[i] == items[i]);
            }
        }
        lemma_run_without_end(v, init);
        assert(!(items[items.len() - 1] is End));
        match items.last() {
            Pulled::Chunk(b) => {
                assert(v.observed + chunks(init).push(b) =~= (v.observed + chunks(init)).push(b));
            },
            _ => {},
        }
    }
}

/// With a verifier attached, an extraction that fails after `before` was pulled
/// still lets the verifier see every chunk of the stream: the items `after`, up
/// to and including the end of the source, are drained, every chunk of `before`
/// and of `after` reaches the verifier in order, and the operation then fails
/// with the extraction's error.
pub proof fn lemma_drain_observes_all(
    v: SessionView,
    before: Seq<Pulled>,
    err: DownloadError,
    after: Seq<Pulled>,
)
    requires
        v.has_verifier,
        !v.exhausted,
        v.phase is Streaming,
        no_end(before),
        after.len() > 0,
        after.last() is End,
        no_end(after.drop_last()),
    ensures
        ({
            let v1 = run_items(v, before);
            let v2 = after_extraction(v1, Err(err));
            let v3 = run_items(v2, after.drop_last());
            &&& action_for_extraction(v1, Err(err)) == Action::Pull
            &&& v3.phase is Draining
            &&& action_for_item(v3, Pulled::End) == Action::Fail(err)
            &&& run_items(v2, after).phase is Done
            &&& run_items(v2, after).observed == v.observed + chunks(before) + chunks(after)
        }),
{
    let v1 = run_items(v, before);
    lemma_run_without_end(v, before);
    let v2 = after_extraction(v1, Err(err));
    let init = after.drop_last();
    lemma_run_without_end(v2, init);
    assert(after.drop_last() == init);
    assert(chunks(after) == chunks(init));
}

} // verus!
