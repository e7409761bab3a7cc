//! What each request records: one HTTP outcome labelled by its status, and
//! at most one cache hit or miss.
use vstd::prelude::*;
use crate::decimal::{decimal_text, u16_text};
use crate::errors::{ApiError, ApiErrorView};
use crate::request::{serve, Backends, CacheSignal, Run};

verus! {

/// The status of a reply: 200 for a body, the error's status otherwise.
pub open spec fn status_of<R>(reply: Result<R, ApiErrorView>) -> u16 {
    match reply {
        Ok(_) => 200,
        Err(e) => e.status(),
    }
}

pub open spec fn error_view<R>(reply: &Result<R, ApiError>) -> Result<(), ApiErrorView> {
    match reply {
        Ok(_) => Ok(()),
        Err(e) => Err(e@),
    }
}

/// The status to record for a reply.
pub fn reply_status<R>(reply: &Result<R, ApiError>) -> (r: u16)
    ensures
        r == status_of(error_view(reply)),
{
    match reply {
        Ok(_) => 200,
        Err(e) => e.status_code(),
    }
}

/// The `status` label value of the HTTP outcome counter.
pub fn status_label(status: u16) -> (r: String)
    ensures
        r@ == decimal_text(status as int),
{
    u16_text(status)
}

pub type Request<R> = (Result<i64, ApiErrorView>, Backends<R>);

/// Counts recorded for one route: replies by status and cache lookups by
/// outcome. Replies carry only the statuses 200, 401, 404 and 500.
#[derive(Clone, Copy, Debug, PartialEq, Eq, Structural)]
pub struct OutcomeTally {
    pub ok: u64,
    pub unauthorized: u64,
    pub not_found: u64,
    pub server_error: u64,
    pub hits: u64,
    pub misses: u64,
}

pub struct TallyView {
    pub ok: nat,
    pub unauthorized: nat,
    pub not_found: nat,
    pub server_error: nat,
    pub hits: nat,
    pub misses: nat,
}

impl View for OutcomeTally {
    type V = TallyView;

    open spec fn view(&self) -> TallyView {
        TallyView {
            ok: self.ok as nat,
            unauthorized: self.unauthorized as nat,
            not_found: self.not_found as nat,
            server_error: self.server_error as nat,
            hits: self.hits as nat,
            misses: self.misses as nat,
        }
    }
}

impl TallyView {
    pub open spec fn zero() -> TallyView {
        TallyView { ok: 0, unauthorized: 0, not_found: 0, server_error: 0, hits: 0, misses: 0 }
    }

    /// Replies recorded with the given status.
    pub open spec fn count(self, status: u16) -> nat {
        if status == 200 {
            self.ok
        } else if status == 401 {
            self.unauthorized
        } else if status == 404 {
            self.not_found
        } else if status == 500 {
            self.server_error
        } else {
            0
        }
    }

    pub open spec fn after_reply(self, status: u16) -> TallyView {
        if status == 200 {
            TallyView { ok: self.ok + 1, ..self }
        } else if status == 401 {
            TallyView { unauthorized: self.unauthorized + 1, ..self }
        } else if status == 404 {
            TallyView { not_found: self.not_found + 1, ..self }
        } else {
            TallyView { server_error: self.server_error + 1, ..self }
        }
    }

    pub open spec fn after_signal(self, signal: CacheSignal) -> TallyView {
        match signal {
            CacheSignal::Hit => TallyView { hits: self.hits + 1, ..self },
            CacheSignal::Miss => TallyView { misses: self.misses + 1, ..self },
            CacheSignal::Quiet => self,
        }
    }

    /// What one request adds: its cache signal and its reply.
    pub open spec fn after_run<R>(self, run: Run<R>) -> TallyView {
        let t = self.after_signal(run.signal);
        match run.reply {
            Some(reply) => t.after_reply(status_of(reply)),
            None => t,
        }
    }
}

impl OutcomeTally {
    /// An empty tally.
    pub fn new() -> (r: OutcomeTally)
        ensures
            r@ == TallyView::zero(),
    {
        OutcomeTally { ok: 0, unauthorized: 0, not_found: 0, server_error: 0, hits: 0, misses: 0 }
    }

    /// No counter is at its largest value, so one more record fits.
    pub open spec fn has_room(self) -> bool {
        &&& self.ok < u64::MAX
        &&& self.unauthorized < u64::MAX
        &&& self.not_found < u64::MAX
        &&& self.server_error < u64::MAX
        &&& self.hits < u64::MAX
        &&& self.misses < u64::MAX
    }

    pub fn can_record(&self) -> (r: bool)
        ensures
            r == self.has_room(),
    {
        self.ok < u64::MAX && self.unauthorized < u64::MAX && self.not_found < u64::MAX
            && self.server_error < u64::MAX && self.hits < u64::MAX && self.misses < u64::MAX
    }

    /// Records one reply under its status: exactly that count grows by one.
    pub fn record_reply<R>(&mut self, reply: &Result<R, ApiError>)
        requires
            old(self).has_room(),
        ensures
            final(self)@ == old(self)@.after_reply(status_of(error_view(reply))),
            final(self)@.count(status_of(error_view(reply))) == old(self)@.count(
                status_of(error_view(reply)),
            ) + 1,
    {
        let status = reply_status(reply);
        if status == 200 {
            self.ok = self.ok + 1;
        } else if status == 401 {
            self.unauthorized = self.unauthorized + 1;
        } else if status == 404 {
            self.not_found = self.not_found + 1;
        } else {
            self.server_error = self.server_error + 1;
        }
    }

    /// Records a transition's cache signal: a hit or a miss grows its count
    /// by one, a quiet step changes nothing.
    pub fn record_signal(&mut self, signal: CacheSignal)
        requires
            old(self).has_room(),
        ensures
            final(self)@ == old(self)@.after_signal(signal),
    {
        match signal {
            CacheSignal::Hit => {
                self.hits = self.hits + 1;
            },
            CacheSignal::Miss => {
                self.misses = self.misses + 1;
            },
            CacheSignal::Quiet => {},
        }
    }
}

/// The tally after recording each request of `reqs` in turn, from empty.
pub open spec fn tally_over<R>(reqs: Seq<Request<R>>) -> TallyView
    decreases reqs.len(),
{
    if reqs.len() == 0 {
        TallyView::zero()
    } else {
        let q = reqs.last();
        tally_over(reqs.drop_last()).after_run(serve(q.0, q.1))
    }
}

/// Requests answered with a body.
pub open spec fn succeeded<R>(reqs: Seq<Request<R>>) -> nat
    decreases reqs.len(),
{
    if reqs.len() == 0 {
        0
    } else {
        let q = reqs.last();
        let run = serve(q.0, q.1);
        succeeded(reqs.drop_last()) + if run.reply is Some && run.reply->0 is Ok {
            1nat
        } else {
            0nat
        }
    }
}

/// Requests answered with an error of the given status.
pub open spec fn failed_with<R>(reqs: Seq<Request<R>>, status: u16) -> nat
    decreases reqs.len(),
{
    if reqs.len() == 0 {
        0
    } else {
        let q = reqs.last();
        let run = serve(q.0, q.1);
        failed_with(reqs.drop_last(), status) + if run.reply is Some && run.reply->0 is Err
            && run.reply->0->Err_0.status() == status {
            1nat
        } else {
            0nat
        }
    }
}

/// Requests that passed authentication.
pub open spec fn authenticated<R>(reqs: Seq<Request<R>>) -> nat
    decreases reqs.len(),
{
    if reqs.len() == 0 {
        0
    } else {
        authenticated(reqs.drop_last()) + if reqs.last().0 is Ok {
            1nat
        } else {
            0nat
        }
    }
}

/// Recording a sequence of requests from an empty tally: the count under
/// status 200 is the number of successful requests, the count under any
/// other status is the number of requests that failed with it, and, where
/// the cache answers the reads of authenticated requests, hits plus misses
/// equal the authenticated requests.
pub proof fn lemma_recorded_counts<R>(reqs: Seq<Request<R>>, status: u16)
    requires
        status != 200,
    ensures
        tally_over(reqs).count(200) == succeeded(reqs),
        tally_over(reqs).count(status) == failed_with(reqs, status),
        (forall|i: int| 0 <= i < reqs.len() && (#[trigger] reqs[i]).0 is Ok ==> reqs[i].1.cache_up)
            ==> tally_over(reqs).hits + tally_over(reqs).misses == authenticated(reqs),
    decreases reqs.len(),
{
    if reqs.len() > 0 {
        let rest = reqs.drop_last();
        lemma_recorded_counts(rest, status);
        if forall|i: int| 0 <= i < reqs.len() && (#[trigger] reqs[i]).0 is Ok ==> reqs[i].1.cache_up {
            assert forall|i: int| 0 <= i < rest.len() && (#[trigger] rest[i]).0 is Ok implies rest[i].1.cache_up by {
                assert(rest[i] == reqs[i]);
            }
            assert(reqs.last() == reqs[reqs.len() - 1]);
        }
    }
}

} // verus!
