//! The messages and replies that pass between the root, the ingress phase
//! and the NOTA decoder.

use vstd::prelude::*;

use crate::trace::{ActorTrace, TraceAction};

verus! {

/// Asks the root to serve a NOTA request text.
#[derive(Debug, PartialEq, Eq)]
pub struct SubmitText {
    pub text: String,
}

/// Asks the ingress phase to serve a NOTA request text.
#[derive(Debug, PartialEq, Eq)]
pub struct AcceptText {
    pub text: String,
    pub trace: ActorTrace,
}

/// Asks the decoder to decode a NOTA request text.
#[derive(Debug, PartialEq, Eq)]
pub struct DecodeText {
    pub text: String,
    pub trace: ActorTrace,
}

/// The NOTA decoder's setting: whether input must end after the request.
#[derive(Debug, Clone, Copy, PartialEq, Eq, Structural)]
pub struct NotaDecoder {
    strict_end: bool,
}

impl NotaDecoder {
    pub closed spec fn spec_strict_end(self) -> bool {
        self.strict_end
    }

    pub fn new(strict_end: bool) -> (decoder: Self)
        ensures
            decoder.spec_strict_end() == strict_end,
    {
        NotaDecoder { strict_end }
    }

    pub fn strict_end(self) -> (strict: bool)
        ensures
            strict == self.spec_strict_end(),
    {
        self.strict_end
    }
}

impl Default for NotaDecoder {
    /// Input must end after the request.
    fn default() -> (decoder: Self)
        ensures
            decoder.spec_strict_end(),
    {
        NotaDecoder { strict_end: true }
    }
}

/// The root's reply to a text request: the reply text and the trace.
#[derive(Debug, PartialEq, Eq)]
pub struct RootTextReply {
    text: String,
    trace: ActorTrace,
}

impl RootTextReply {
    pub closed spec fn spec_text(&self) -> Seq<char> {
        self.text@
    }

    pub closed spec fn spec_trace(&self) -> Seq<(Seq<char>, TraceAction)> {
        self.trace@
    }

    /// The reply to a request whose encoded reply text is `text` and whose
    /// trace so far is `trace`; the root records its reply.
    pub fn new(text: String, trace: ActorTrace) -> (reply: Self)
        ensures
            reply.spec_text() == text@,
            reply.spec_trace() == trace@.push(("SpiritRoot"@, TraceAction::MessageReplied)),
    {
        let mut trace = trace;
        trace.record(crate::trace::TraceNode::spirit_root(), TraceAction::MessageReplied);
        RootTextReply { text, trace }
    }

    pub fn text(&self) -> (text: &str)
        ensures
            text@ == self.spec_text(),
    {
        self.text.as_str()
    }

    pub fn trace(&self) -> (trace: &ActorTrace)
        ensures
            trace@ == self.spec_trace(),
    {
        &self.trace
    }

    pub fn into_text(self) -> (text: String)
        ensures
            text@ == self.spec_text(),
    {
        self.text
    }
}

} // verus!
