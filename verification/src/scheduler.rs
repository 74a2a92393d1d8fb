//! The order in which the URLs of a run are put under probe.
//!
//! Every URL is one unit of work. A unit holds a permit from the moment it is
//! dispatched until it is reported complete, pauses included, so the pool
//! bounds the number of URLs under probe, not the number of open requests.

use vstd::prelude::*;
use vstd::string::*;

use crate::config::{normalized, Config};
use crate::pool::{after_release, PermitPool};

verus! {

/// One URL to probe, with the configured method name.
#[derive(Debug)]
pub struct ProbeRequest {
    pub url: String,
    pub method: String,
}

/// A request as plain text.
pub struct RequestView {
    pub url: Seq<char>,
    pub method: Seq<char>,
}

impl View for ProbeRequest {
    type V = RequestView;

    open spec fn view(&self) -> RequestView {
        RequestView { url: self.url@, method: self.method@ }
    }
}

/// The views of a list of requests.
pub open spec fn request_views(v: Seq<ProbeRequest>) -> Seq<RequestView> {
    v.map_values(|r: ProbeRequest| r@)
}

/// The requests of a run: one for each configured URL, in the order of the
/// configuration, with the URL normalized.
pub open spec fn planned(urls: Seq<Seq<char>>, method: Seq<char>, force_http: bool) -> Seq<
    RequestView,
> {
    Seq::new(
        urls.len(),
        |i: int| RequestView { url: normalized(urls[i], force_http), method },
    )
}

/// The units of a run and the pool that bounds how many are under way.
pub struct Scheduler {
    requests: Vec<ProbeRequest>,
    dispatched: usize,
    pool: PermitPool,
}

impl Scheduler {
    #[verifier::type_invariant]
    spec fn counts_agree(&self) -> bool {
        &&& self.dispatched <= self.requests.len()
        &&& self.pool.held() <= self.dispatched
        &&& self.pool.held() <= self.pool.capacity()
    }

    /// The requests of the run, in the order of dispatch.
    pub closed spec fn requests(&self) -> Seq<RequestView> {
        request_views(self.requests@)
    }

    /// How many requests have been dispatched.
    pub closed spec fn dispatched(&self) -> nat {
        self.dispatched as nat
    }

    /// How many units are under way: dispatched and not yet complete.
    pub closed spec fn in_flight(&self) -> nat {
        self.pool.held()
    }

    /// How many units may be under way at once.
    pub closed spec fn capacity(&self) -> nat {
        self.pool.capacity()
    }

    /// A run over the URLs of `config`, with `config.concurrency` permits.
    pub fn new(config: &Config) -> (scheduler: Scheduler)
        ensures
            scheduler.requests() == planned(
                crate::text::views(config.urls@),
                config.method@,
                config.force_http,
            ),
            scheduler.capacity() == config.concurrency,
            scheduler.dispatched() == 0,
            scheduler.in_flight() == 0,
    {
        let ghost plan = planned(crate::text::views(config.urls@), config.method@, config.force_http);
        let mut requests: Vec<ProbeRequest> = Vec::new();
        let mut i: usize = 0;
        while i < config.urls.len()
            invariant
                i <= config.urls.len(),
                plan == planned(crate::text::views(config.urls@), config.method@, config.force_http),
                request_views(requests@) =~= plan.take(i as int),
            decreases config.urls.len() - i,
        {
            let request = ProbeRequest {
                url: config.normalize_url(config.urls[i].as_str()),
                method: config.method.clone(),
            };
            let ghost before = request_views(requests@);
            let ghost added = request@;
            requests.push(request);
            assert(request_views(requests@) =~= before.push(added));
            i += 1;
        }
        Scheduler { requests, dispatched: 0, pool: PermitPool::new(config.concurrency) }
    }

    /// Hands out the next request if one is left and a permit is free. The
    /// unit then holds its permit until `complete` is called for it.
    pub fn dispatch(&mut self) -> (next: Option<ProbeRequest>)
        ensures
            final(self).requests() == old(self).requests(),
            final(self).capacity() == old(self).capacity(),
            final(self).in_flight() <= final(self).capacity(),
            match next {
                Some(request) => {
                    &&& old(self).dispatched() < old(self).requests().len()
                    &&& old(self).in_flight() < old(self).capacity()
                    &&& request@ == old(self).requests()[old(self).dispatched() as int]
                    &&& final(self).dispatched() == old(self).dispatched() + 1
                    &&& final(self).in_flight() == old(self).in_flight() + 1
                },
                None => {
                    &&& (old(self).dispatched() == old(self).requests().len() || old(
                        self,
                    ).in_flight() == old(self).capacity())
                    &&& final(self).dispatched() == old(self).dispatched()
                    &&& final(self).in_flight() == old(self).in_flight()
                },
            },
    {
        proof {
            use_type_invariant(&*self);
        }
        if self.dispatched >= self.requests.len() {
            return None;
        }
        let mut pool = self.pool;
        if !pool.try_acquire() {
            return None;
        }
        let at = self.dispatched;
        let request = ProbeRequest {
            url: self.requests[at].url.clone(),
            method: self.requests[at].method.clone(),
        };
        self.dispatched = at + 1;
        self.pool = pool;
        Some(request)
    }

    /// Takes back the permit of a unit that is done, and says whether a unit
    /// was under way.
    pub fn complete(&mut self) -> (was_running: bool)
        ensures
            final(self).requests() == old(self).requests(),
            final(self).capacity() == old(self).capacity(),
            final(self).dispatched() == old(self).dispatched(),
            final(self).in_flight() <= final(self).capacity(),
            was_running == (old(self).in_flight() > 0),
            final(self).in_flight() == after_release(old(self).in_flight()),
    {
        proof {
            use_type_invariant(&*self);
        }
        let mut pool = self.pool;
        let was_running = pool.release();
        self.pool = pool;
        was_running
    }

    /// How many units are under way, which is never more than the run's
    /// concurrency.
    pub fn running(&self) -> (n: usize)
        ensures
            n == self.in_flight(),
            n <= self.capacity(),
            n <= self.dispatched(),
    {
        proof {
            use_type_invariant(self);
        }
        self.pool.in_use()
    }

    /// Whether every request has been dispatched and every unit is
    /// complete.
    pub fn is_done(&self) -> (done: bool)
        ensures
            done == (self.dispatched() == self.requests().len() && self.in_flight() == 0),
    {
        self.dispatched == self.requests.len() && self.pool.in_use() == 0
    }
}

} // verus!
