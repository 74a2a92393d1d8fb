//! The output document of a run: a JSON array that grows by one element for
//! each finding and is closed exactly once.
//!
//! The sink owns what decides the framing: whether an element has been
//! written yet, and whether the array is closed. It never touches a file.
//! Each call gives back the text to append to the document; the caller
//! appends it before it calls the sink again.

use vstd::prelude::*;
use vstd::string::*;

use crate::config::CacheInfo;
use crate::json::{finding_text, is_finding_object, joined};

verus! {

/// The text that opens the document.
pub open spec fn opening() -> Seq<char> {
    "[\n"@
}

/// The text that closes the document.
pub open spec fn closing() -> Seq<char> {
    "]\n"@
}

/// The document that holds `elements`, closed or still open.
pub open spec fn document_text(elements: Seq<Seq<char>>, closed: bool) -> Seq<char> {
    opening() + joined(elements, ","@) + (if closed {
        closing()
    } else {
        Seq::<char>::empty()
    })
}

/// Whether `text` is a complete document, a JSON array of findings: an
/// opening bracket and a line break, the JSON objects of some findings with
/// one comma between each two, a closing bracket and a line break.
pub open spec fn is_document(text: Seq<char>) -> bool {
    exists|elements: Seq<Seq<char>>|
        {
            &&& forall|i: int| 0 <= i < elements.len() ==> is_finding_object(#[trigger] elements[i])
            &&& text == #[trigger] document_text(elements, true)
        }
}

/// Why the sink took no element.
#[derive(Clone, Copy, Debug, PartialEq, Eq, Structural)]
pub enum SinkError {
    /// The document is closed. The finding is lost.
    Finalized,
    /// A string of the finding has no token.
    Encoding,
}

/// Why a run stops.
#[derive(Clone, Copy, Debug, PartialEq, Eq, Structural)]
pub enum StopReason {
    /// An interrupt came in.
    Interrupt,
    /// Every probe is done and every finding is written.
    Completion,
}

/// What to do when a run stops.
#[derive(Debug)]
pub struct Shutdown {
    /// The text to append to the document, if the document is still open.
    pub closing: Option<String>,
    /// Whether the process ends at once, without the summary of the run.
    pub exit_now: bool,
}

/// The writer's side of the output document.
pub struct ResultSink {
    first: bool,
    finalized: bool,
    elements: Ghost<Seq<Seq<char>>>,
}

impl ResultSink {
    #[verifier::type_invariant]
    spec fn framing_agrees(&self) -> bool {
        &&& self.first == (self.elements@.len() == 0)
        &&& forall|i: int|
            0 <= i < self.elements@.len() ==> is_finding_object(#[trigger] self.elements@[i])
    }

    /// The elements written so far, in the order of writing.
    pub closed spec fn elements(&self) -> Seq<Seq<char>> {
        self.elements@
    }

    /// Whether the document is closed.
    pub closed spec fn is_finalized(&self) -> bool {
        self.finalized
    }

    /// The document as written so far.
    pub open spec fn document(&self) -> Seq<char> {
        document_text(self.elements(), self.is_finalized())
    }

    /// A sink for a new document, and the text that opens the document.
    pub fn open() -> (opened: (ResultSink, String))
        ensures
            opened.0.elements() == Seq::<Seq<char>>::empty(),
            !opened.0.is_finalized(),
            opened.1@ == opening(),
            opened.0.document() == opened.1@,
    {
        let sink = ResultSink { first: true, finalized: false, elements: Ghost(Seq::empty()) };
        let text = String::from_str("[\n");
        (sink, text)
    }

    /// Whether the document is closed.
    pub fn closed(&self) -> (r: bool)
        ensures
            r == self.is_finalized(),
    {
        self.finalized
    }

    /// Takes a finding into the document: gives back the text to append, the
    /// object of the finding with a comma in front unless it is the first
    /// element. A closed document takes nothing.
    pub fn emit(&mut self, result: &CacheInfo) -> (chunk: Result<String, SinkError>)
        ensures
            final(self).is_finalized() == old(self).is_finalized(),
            match chunk {
                Ok(text) => {
                    &&& !old(self).is_finalized()
                    &&& finding_text(result.url@, result.headers.pairs(), result.method@) matches Some(
                        element,
                    )
                    &&& final(self).elements() == old(self).elements().push(element)
                    &&& text@ == chunk_of(old(self).elements(), false, SinkCall::Emit { element })
                    &&& final(self).document() == old(self).document() + text@
                },
                Err(e) => {
                    &&& final(self).elements() == old(self).elements()
                    &&& e == (if old(self).is_finalized() {
                        SinkError::Finalized
                    } else {
                        SinkError::Encoding
                    })
                    &&& !old(self).is_finalized() ==> finding_text(
                        result.url@,
                        result.headers.pairs(),
                        result.method@,
                    ) is None
                },
            },
    {
        proof {
            use_type_invariant(&*self);
        }
        if self.finalized {
            return Err(SinkError::Finalized);
        }
        match result.to_json() {
            None => Err(SinkError::Encoding),
            Some(element) => {
                let ghost before = self.elements@;
                let ghost after = before.push(element@);
                let text = if self.first {
                    element
                } else {
                    String::from_str(",").concat(element.as_str())
                };
                assert(after.drop_last() =~= before);
                *self = ResultSink { first: false, finalized: false, elements: Ghost(after) };
                Ok(text)
            },
        }
    }

    /// Closes the document: gives back the closing text the first time, and
    /// nothing after that. The closed document is complete, however many
    /// findings it took.
    pub fn finalize(&mut self) -> (chunk: Option<String>)
        ensures
            final(self).is_finalized(),
            final(self).elements() == old(self).elements(),
            is_document(final(self).document()),
            match chunk {
                Some(text) => {
                    &&& !old(self).is_finalized()
                    &&& text@ == closing()
                    &&& final(self).document() == old(self).document() + text@
                },
                None => old(self).is_finalized() && final(self).document() == old(self).document(),
            },
    {
        proof {
            use_type_invariant(&*self);
        }
        if self.finalized {
            None
        } else {
            self.finalized = true;
            Some(String::from_str("]\n"))
        }
    }
}

/// Ends a run: closes the document if it is still open, and tells whether
/// the process ends at once. After an interrupt it does; units under way are
/// left behind and the summary of the run is skipped. At the end of a
/// complete run it does not.
pub fn shutdown(sink: &mut ResultSink, reason: StopReason) -> (plan: Shutdown)
    ensures
        final(sink).is_finalized(),
        final(sink).elements() == old(sink).elements(),
        is_document(final(sink).document()),
        plan.exit_now == (reason == StopReason::Interrupt),
        match plan.closing {
            Some(text) => {
                &&& !old(sink).is_finalized()
                &&& text@ == closing()
                &&& final(sink).document() == old(sink).document() + text@
            },
            None => old(sink).is_finalized() && final(sink).document() == old(sink).document(),
        },
{
    let closing = sink.finalize();
    let exit_now = match reason {
        StopReason::Interrupt => true,
        StopReason::Completion => false,
    };
    Shutdown { closing, exit_now }
}

/// A call that changes the document: an element is handed in, or the
/// document is closed.
pub enum SinkCall {
    Emit { element: Seq<char> },
    Finalize,
}

/// What a series of calls leaves behind: the elements taken, whether the
/// document is closed, and all the text given back, in the order of the
/// calls.
pub struct Written {
    pub elements: Seq<Seq<char>>,
    pub closed: bool,
    pub text: Seq<char>,
}

/// The text that a call gives back. A closed document gives back nothing.
pub open spec fn chunk_of(elements: Seq<Seq<char>>, closed: bool, call: SinkCall) -> Seq<char> {
    if closed {
        Seq::<char>::empty()
    } else {
        match call {
            SinkCall::Emit { element } => if elements.len() == 0 {
                element
            } else {
                ","@ + element
            },
            SinkCall::Finalize => closing(),
        }
    }
}

/// What the calls leave behind when they are made one after another on a
/// new sink, whose opening text is written first.
pub open spec fn written(calls: Seq<SinkCall>) -> Written
    decreases calls.len(),
{
    if calls.len() == 0 {
        Written { elements: Seq::<Seq<char>>::empty(), closed: false, text: opening() }
    } else {
        let before = written(calls.drop_last());
        Written {
            elements: match calls.last() {
                SinkCall::Emit { element } => if before.closed {
                    before.elements
                } else {
                    before.elements.push(element)
                },
                SinkCall::Finalize => before.elements,
            },
            closed: before.closed || calls.last() is Finalize,
            text: before.text + chunk_of(before.elements, before.closed, calls.last()),
        }
    }
}

/// Whatever calls are made and wherever the series stops, the text written
/// is the document of the elements taken so far; and from the first
/// `Finalize` on it is a complete document that no later call changes.
pub proof fn law_document_framed(calls: Seq<SinkCall>)
    requires
        forall|i: int|
            0 <= i < calls.len() ==> (#[trigger] calls[i] matches SinkCall::Emit { element }
                ==> is_finding_object(element)),
    ensures
        written(calls).text == document_text(written(calls).elements, written(calls).closed),
        forall|i: int|
            0 <= i < written(calls).elements.len() ==> is_finding_object(
                #[trigger] written(calls).elements[i],
            ),
        written(calls).closed ==> is_document(written(calls).text),
        calls.len() > 0 && written(calls.drop_last()).closed ==> written(calls).text == written(
            calls.drop_last(),
        ).text,
    decreases calls.len(),
{
    if calls.len() > 0 {
        let earlier = calls.drop_last();
        law_document_framed(earlier);
        let before = written(earlier);
        let after = written(calls);
        if !before.closed {
            match calls.last() {
                SinkCall::Emit { element } => {
                    assert(after.elements.drop_last() =~= before.elements);
                },
                SinkCall::Finalize => {
                    assert(after.text =~= document_text(after.elements, true));
                },
            }
        }
    }
}

} // verus!
