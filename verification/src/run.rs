//! A whole run: the units that are dispatched, the document that grows, and
//! the findings that are kept for the summary.
//!
//! The caller performs the probes and writes the document. The run decides
//! which request starts next, what text each outcome adds to the document,
//! and what happens when the run stops.

use vstd::prelude::*;
use vstd::string::*;

use crate::config::{CacheInfo, CacheInfoView, Config};
use crate::json::finding_text;
use crate::pool::after_release;
use crate::scheduler::{planned, ProbeRequest, RequestView, Scheduler};
use crate::sink::{
    chunk_of, closing, document_text, is_document, opening, shutdown, ResultSink, Shutdown, SinkCall,
    SinkError, StopReason,
};
use crate::text::views;

verus! {

/// The views of a list of findings.
pub open spec fn finding_views(v: Seq<CacheInfo>) -> Seq<CacheInfoView> {
    v.map_values(|info: CacheInfo| info@)
}

/// The state of a run.
pub struct Run {
    scheduler: Scheduler,
    sink: ResultSink,
    findings: Vec<CacheInfo>,
}

impl Run {
    /// The requests of the run, in the order of dispatch.
    pub closed spec fn requests(&self) -> Seq<RequestView> {
        self.scheduler.requests()
    }

    /// How many requests have been dispatched.
    pub closed spec fn dispatched(&self) -> nat {
        self.scheduler.dispatched()
    }

    /// How many units are under way.
    pub closed spec fn in_flight(&self) -> nat {
        self.scheduler.in_flight()
    }

    /// How many units may be under way at once.
    pub closed spec fn capacity(&self) -> nat {
        self.scheduler.capacity()
    }

    /// The elements of the document, in the order of writing.
    pub closed spec fn elements(&self) -> Seq<Seq<char>> {
        self.sink.elements()
    }

    /// Whether the document is closed.
    pub closed spec fn is_finalized(&self) -> bool {
        self.sink.is_finalized()
    }

    /// The document as written so far.
    pub open spec fn document(&self) -> Seq<char> {
        document_text(self.elements(), self.is_finalized())
    }

    /// The findings reported so far, in the order of their report.
    pub closed spec fn findings(&self) -> Seq<CacheInfoView> {
        finding_views(self.findings@)
    }

    /// A run over the URLs of `config`, and the text that opens its
    /// document.
    pub fn begin(config: &Config) -> (begun: (Run, String))
        ensures
            begun.0.requests() == planned(views(config.urls@), config.method@, config.force_http),
            begun.0.capacity() == config.concurrency,
            begun.0.dispatched() == 0,
            begun.0.in_flight() == 0,
            begun.0.elements() == Seq::<Seq<char>>::empty(),
            begun.0.findings() == Seq::<CacheInfoView>::empty(),
            !begun.0.is_finalized(),
            begun.1@ == opening(),
            begun.0.document() == begun.1@,
    {
        let scheduler = Scheduler::new(config);
        let (sink, text) = ResultSink::open();
        let run = Run { scheduler, sink, findings: Vec::new() };
        (run, text)
    }

    /// Hands out the next request if one is left and fewer units are under
    /// way than the run allows.
    pub fn dispatch(&mut self) -> (next: Option<ProbeRequest>)
        ensures
            final(self).requests() == old(self).requests(),
            final(self).capacity() == old(self).capacity(),
            final(self).elements() == old(self).elements(),
            final(self).is_finalized() == old(self).is_finalized(),
            final(self).document() == old(self).document(),
            final(self).findings() == old(self).findings(),
            final(self).in_flight() <= final(self).capacity(),
            match next {
                Some(request) => {
                    &&& old(self).dispatched() < old(self).requests().len()
                    &&& old(self).in_flight() < old(self).capacity()
                    &&& request@ == old(self).requests()[old(self).dispatched() as int]
                    &&& final(self).dispatched() == old(self).dispatched() + 1
                    &&& final(self).in_flight() == old(self).in_flight() + 1
                },
                None => {
                    &&& (old(self).dispatched() == old(self).requests().len() || old(
                        self,
                    ).in_flight() == old(self).capacity())
                    &&& final(self).dispatched() == old(self).dispatched()
                    &&& final(self).in_flight() == old(self).in_flight()
                },
            },
    {
        self.scheduler.dispatch()
    }

    /// Takes the outcome of a unit that is done. The unit gives its permit
    /// back. A finding goes two ways: into the document, for which the text
    /// to append is given back, and into the findings of the run. It is kept
    /// among the findings even where the document did not take it.
    pub fn record(&mut self, outcome: Option<CacheInfo>) -> (chunk: Result<Option<String>, SinkError>)
        ensures
            final(self).requests() == old(self).requests(),
            final(self).capacity() == old(self).capacity(),
            final(self).dispatched() == old(self).dispatched(),
            final(self).is_finalized() == old(self).is_finalized(),
            final(self).in_flight() <= final(self).capacity(),
            final(self).in_flight() == after_release(old(self).in_flight()),
            match outcome {
                None => {
                    &&& chunk == Ok::<Option<String>, SinkError>(None)
                    &&& final(self).findings() == old(self).findings()
                    &&& final(self).elements() == old(self).elements()
                    &&& final(self).document() == old(self).document()
                },
                Some(info) => {
                    &&& final(self).findings() == old(self).findings().push(info@)
                    &&& match chunk {
                        Ok(Some(text)) => {
                            &&& !old(self).is_finalized()
                            &&& finding_text(
                                info.url@,
                                info.headers.pairs(),
                                info.method@,
                            ) matches Some(element)
                            &&& final(self).elements() == old(self).elements().push(element)
                            &&& text@ == chunk_of(
                                old(self).elements(),
                                false,
                                SinkCall::Emit { element },
                            )
                            &&& final(self).document() == old(self).document() + text@
                        },
                        Ok(None) => false,
                        Err(e) => {
                            &&& final(self).elements() == old(self).elements()
                            &&& final(self).document() == old(self).document()
                            &&& e == (if old(self).is_finalized() {
                                SinkError::Finalized
                            } else {
                                SinkError::Encoding
                            })
                            &&& !old(self).is_finalized() ==> finding_text(
                                info.url@,
                                info.headers.pairs(),
                                info.method@,
                            ) is None
                        },
                    }
                },
            },
    {
        self.scheduler.complete();
        match outcome {
            None => Ok(None),
            Some(info) => {
                let chunk = self.sink.emit(&info);
                self.findings.push(info);
                match chunk {
                    Ok(text) => Ok(Some(text)),
                    Err(e) => Err(e),
                }
            },
        }
    }

    /// How many units are under way, which is never more than the run
    /// allows.
    pub fn running(&self) -> (n: usize)
        ensures
            n == self.in_flight(),
            n <= self.capacity(),
    {
        self.scheduler.running()
    }

    /// Whether every request has been dispatched and every unit is done.
    pub fn is_done(&self) -> (done: bool)
        ensures
            done == (self.dispatched() == self.requests().len() && self.in_flight() == 0),
    {
        self.scheduler.is_done()
    }

    /// The findings reported so far, in the order of their report.
    pub fn reported(&self) -> (findings: &Vec<CacheInfo>)
        ensures
            finding_views(findings@) == self.findings(),
    {
        &self.findings
    }

    /// Stops the run: closes the document if it is still open, and tells
    /// whether the process ends at once. Units under way stay as they are;
    /// what they find later is not written.
    pub fn stop(&mut self, reason: StopReason) -> (plan: Shutdown)
        ensures
            final(self).requests() == old(self).requests(),
            final(self).capacity() == old(self).capacity(),
            final(self).dispatched() == old(self).dispatched(),
            final(self).in_flight() == old(self).in_flight(),
            final(self).findings() == old(self).findings(),
            final(self).elements() == old(self).elements(),
            final(self).is_finalized(),
            is_document(final(self).document()),
            plan.exit_now == (reason == StopReason::Interrupt),
            match plan.closing {
                Some(text) => {
                    &&& !old(self).is_finalized()
                    &&& text@ == closing()
                    &&& final(self).document() == old(self).document() + text@
                },
                None => old(self).is_finalized() && final(self).document() == old(self).document(),
            },
    {
        shutdown(&mut self.sink, reason)
    }
}

} // verus!
