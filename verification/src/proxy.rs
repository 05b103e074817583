//! The filtering pipeline: inspect a collected body, decide between
//! rejecting and forwarding, and say what is to be logged.

use crate::json::{body_fault, body_tree, canonical_text, canonicalize, ParseError};
use crate::message::{
    bare_response, EventView, InboundRequest, LogEvent, OutboundRequest, OutboundView,
    ProxyError, ProxyResponse, ResponseView, MALFORMED_BODY_STATUS, REJECTION_STATUS,
};
use crate::pattern::{has_marker, PatternMatcher};
use vstd::prelude::*;
use vstd::utf8::encode_utf8;

verus! {

/// The outcome of inspecting one body.
#[derive(Clone, Debug, PartialEq, Eq)]
pub enum Verdict {
    /// The canonical text is free of the marker and is to be sent on.
    Forward(String),
    /// The canonical text holds the marker.
    Reject,
}

/// What a `Verdict` holds, as mathematical text.
pub enum VerdictView {
    Forward(Seq<char>),
    Reject,
}

impl View for Verdict {
    type V = VerdictView;

    open spec fn view(&self) -> VerdictView {
        match self {
            Verdict::Forward(text) => VerdictView::Forward(text@),
            Verdict::Reject => VerdictView::Reject,
        }
    }
}

/// The verdict on a canonical text, given whether the marker was found in it.
pub open spec fn verdict_given(canonical: Seq<char>, malicious: bool) -> VerdictView {
    if malicious {
        VerdictView::Reject
    } else {
        VerdictView::Forward(canonical)
    }
}

/// The verdict on a canonical text: a function of the text alone.
pub open spec fn verdict_of(canonical: Seq<char>) -> VerdictView {
    verdict_given(canonical, has_marker(canonical))
}

/// The result of inspecting a body: the verdict on its canonical text, or
/// the reason why it has none.
pub open spec fn inspection(body: Seq<u8>) -> Result<VerdictView, ParseError> {
    match canonical_text(body) {
        Some(text) => Ok(verdict_of(text)),
        None => Err(body_fault(body)),
    }
}

/// What the result of `inspect` holds.
pub open spec fn inspection_view(r: Result<Verdict, ParseError>) -> Result<
    VerdictView,
    ParseError,
> {
    match r {
        Ok(verdict) => Ok(verdict@),
        Err(fault) => Err(fault),
    }
}

/// Searches the whole of `suspicious` for the marker pattern.
pub fn malicious_intent(matcher: &PatternMatcher, suspicious: &str) -> (r: bool)
    ensures
        r == has_marker(suspicious@),
{
    matcher.is_match(suspicious)
}

/// The verdict once the search has been made: a match rejects, anything else
/// forwards the canonical text unchanged.
pub fn classify(canonical: String, malicious: bool) -> (r: Verdict)
    ensures
        r@ == verdict_given(canonical@, malicious),
{
    if malicious {
        Verdict::Reject
    } else {
        Verdict::Forward(canonical)
    }
}

/// Inspects a text that is already canonical.
pub fn judge(matcher: &PatternMatcher, canonical: String) -> (r: Verdict)
    ensures
        r@ == verdict_of(canonical@),
{
    let malicious = malicious_intent(matcher, canonical.as_str());
    classify(canonical, malicious)
}

/// Inspects a collected body: parses it as JSON, renders it in canonical
/// form and searches that text for the marker. A body that is not a JSON
/// document is refused with the reason.
pub fn inspect(matcher: &PatternMatcher, body: &[u8]) -> (r: Result<Verdict, ParseError>)
    ensures
        inspection_view(r) == inspection(body@),
{
    match canonicalize(body) {
        Ok(canonical) => Ok(judge(matcher, canonical)),
        Err(fault) => Err(fault),
    }
}

/// What is done with a request once its body has been looked at.
#[derive(Clone, Debug, PartialEq, Eq)]
pub enum Decision {
    /// Answer the client at once; the backend is not contacted.
    Respond(ProxyResponse),
    /// Send this request to the backend.
    Forward(OutboundRequest),
}

/// What a `Decision` holds.
pub enum DecisionView {
    Respond(ResponseView),
    Forward(OutboundView),
}

impl View for Decision {
    type V = DecisionView;

    open spec fn view(&self) -> DecisionView {
        match self {
            Decision::Respond(response) => DecisionView::Respond(response@),
            Decision::Forward(request) => DecisionView::Forward(request@),
        }
    }
}

/// The request sent on for a forwarded body: the inbound method, the backend
/// base followed by the inbound path and query, and the canonical text.
pub open spec fn outbound_for(
    proxy: Seq<char>,
    method: Seq<char>,
    uri: Seq<char>,
    canonical: Seq<char>,
) -> OutboundView {
    OutboundView { method, uri: proxy + uri, body: canonical }
}

/// The decision that follows from a verdict.
pub open spec fn decision_of(
    verdict: VerdictView,
    proxy: Seq<char>,
    method: Seq<char>,
    uri: Seq<char>,
) -> DecisionView {
    match verdict {
        VerdictView::Reject => DecisionView::Respond(bare_response(REJECTION_STATUS)),
        VerdictView::Forward(text) => DecisionView::Forward(outbound_for(proxy, method, uri, text)),
    }
}

/// The response to a request found malicious: the rejection status, no
/// headers, no body.
pub fn return_forbidden() -> (r: ProxyResponse)
    ensures
        r@ == bare_response(REJECTION_STATUS),
{
    ProxyResponse::bare(REJECTION_STATUS)
}

/// Maps a verdict to what is done next: a rejection is answered with the
/// forbidden response, anything else is rebuilt for the backend at `proxy`.
pub fn decide(verdict: Verdict, proxy: &str, method: &str, uri: &str) -> (r: Decision)
    ensures
        r@ == decision_of(verdict@, proxy@, method@, uri@),
{
    match verdict {
        Verdict::Reject => Decision::Respond(return_forbidden()),
        Verdict::Forward(body) => {
            let mut target = proxy.to_owned();
            target.append(uri);
            Decision::Forward(OutboundRequest { method: method.to_owned(), uri: target, body })
        },
    }
}

/// What `filter` hands back: the decision, and the event to be logged with
/// it, if there is one.
#[derive(Clone, Debug, PartialEq, Eq)]
pub struct FilterOutcome {
    pub decision: Decision,
    pub event: Option<LogEvent>,
}

/// What a `FilterOutcome` holds.
pub struct OutcomeView {
    pub decision: DecisionView,
    pub event: Option<EventView>,
}

impl View for FilterOutcome {
    type V = OutcomeView;

    open spec fn view(&self) -> OutcomeView {
        OutcomeView {
            decision: self.decision@,
            event: match self.event {
                Some(event) => Some(event@),
                None => None,
            },
        }
    }
}

/// The outcome of filtering a request with the given method, URI and body,
/// for the backend at `proxy`.
pub open spec fn filtered(
    proxy: Seq<char>,
    method: Seq<char>,
    uri: Seq<char>,
    body: Seq<u8>,
) -> OutcomeView {
    match canonical_text(body) {
        None => OutcomeView {
            decision: DecisionView::Respond(bare_response(MALFORMED_BODY_STATUS)),
            event: None,
        },
        Some(text) => OutcomeView {
            decision: decision_of(verdict_of(text), proxy, method, uri),
            event: Some(
                if has_marker(text) {
                    EventView::Rejected { body: text }
                } else {
                    EventView::Forwarding { uri: proxy + uri }
                },
            ),
        },
    }
}

/// Filters one request whose body has been collected.
///
/// A body that is not a JSON document is answered with the malformed-body
/// status. A body whose canonical text holds the marker is answered with the
/// rejection status, and the text goes to the audit log. Any other body is
/// rebuilt for the backend: same method, `proxy` followed by the inbound URI,
/// the canonical text as body. In the first two cases nothing is sent to the
/// backend.
pub fn filter(proxy: &str, req: &InboundRequest, matcher: &PatternMatcher) -> (r: FilterOutcome)
    ensures
        r@ == filtered(proxy@, req.method@, req.uri@, req.body@),
        canonical_text(req.body@) is None ==> r@.decision == DecisionView::Respond(
            bare_response(MALFORMED_BODY_STATUS),
        ),
        canonical_text(req.body@) matches Some(text) ==> (has_marker(text) ==> r@.decision
            == DecisionView::Respond(bare_response(REJECTION_STATUS))),
        canonical_text(req.body@) matches Some(text) ==> (!has_marker(text) ==> r@.decision
            == DecisionView::Forward(outbound_for(proxy@, req.method@, req.uri@, text))),
{
    match canonicalize(req.body.as_slice()) {
        Err(_) => FilterOutcome {
            decision: Decision::Respond(ProxyError::MalformedBody.response()),
            event: None,
        },
        Ok(canonical) => {
            if malicious_intent(matcher, canonical.as_str()) {
                let decision = decide(
                    Verdict::Reject,
                    proxy,
                    req.method.as_str(),
                    req.uri.as_str(),
                );
                FilterOutcome { decision, event: Some(LogEvent::Rejected { body: canonical }) }
            } else {
                let decision = decide(
                    Verdict::Forward(canonical),
                    proxy,
                    req.method.as_str(),
                    req.uri.as_str(),
                );
                let mut target = proxy.to_owned();
                target.append(req.uri.as_str());
                FilterOutcome { decision, event: Some(LogEvent::Forwarding { uri: target }) }
            }
        },
    }
}

/// A body whose canonical text holds the marker is answered with the
/// rejection status, wherever in the document the marker stands, and nothing
/// is sent to the backend.
pub proof fn lemma_marked_body_is_rejected(
    proxy: Seq<char>,
    method: Seq<char>,
    uri: Seq<char>,
    body: Seq<u8>,
)
    requires
        canonical_text(body) is Some,
        has_marker(canonical_text(body)->0),
    ensures
        filtered(proxy, method, uri, body).decision == DecisionView::Respond(
            bare_response(REJECTION_STATUS),
        ),
        !(filtered(proxy, method, uri, body).decision is Forward),
        filtered(proxy, method, uri, body).event == Some(
            EventView::Rejected { body: canonical_text(body)->0 },
        ),
{
}

/// A body whose canonical text is free of the marker is forwarded: the
/// backend gets the inbound method, the backend base followed by the inbound
/// URI, and the canonical text.
pub proof fn lemma_clean_body_is_forwarded(
    proxy: Seq<char>,
    method: Seq<char>,
    uri: Seq<char>,
    body: Seq<u8>,
)
    requires
        canonical_text(body) is Some,
        !has_marker(canonical_text(body)->0),
    ensures
        filtered(proxy, method, uri, body).decision == DecisionView::Forward(
            OutboundView { method, uri: proxy + uri, body: canonical_text(body)->0 },
        ),
        filtered(proxy, method, uri, body).event == Some(
            EventView::Forwarding { uri: proxy + uri },
        ),
{
}

/// A body that is not a JSON document is answered with a client error that
/// is not the rejection status, and nothing is sent to the backend.
pub proof fn lemma_malformed_body_is_refused(
    proxy: Seq<char>,
    method: Seq<char>,
    uri: Seq<char>,
    body: Seq<u8>,
)
    requires
        canonical_text(body) is None,
    ensures
        inspection(body) is Err,
        filtered(proxy, method, uri, body).decision == DecisionView::Respond(
            bare_response(MALFORMED_BODY_STATUS),
        ),
        400 <= MALFORMED_BODY_STATUS < 500,
        MALFORMED_BODY_STATUS != REJECTION_STATUS,
{
}

/// The verdict is a function of the canonical text: whenever the same text
/// is inspected again, the verdict holds what it held the first time.
pub proof fn lemma_same_text_same_verdict(text: Seq<char>, first: Verdict, second: Verdict)
    requires
        first@ == verdict_of(text),
        second@ == verdict_of(text),
    ensures
        first@ == second@,
        first is Reject <==> second is Reject,
        first is Reject <==> has_marker(text),
{
}

/// Inspection sees the canonical form and nothing of the wire format: two
/// bodies with the same canonical text meet the same verdict.
pub proof fn lemma_inspection_follows_canonical_text(first: Seq<u8>, second: Seq<u8>)
    requires
        canonical_text(first) is Some,
        canonical_text(first) == canonical_text(second),
    ensures
        inspection(first) == inspection(second),
{
}

/// Two bodies that hold the same document are filtered alike, however each
/// was laid out on the wire: both are rejected, or both are forwarded with
/// the same outbound request, and the same event is logged.
pub proof fn lemma_same_document_same_outcome(
    proxy: Seq<char>,
    method: Seq<char>,
    uri: Seq<char>,
    first: Seq<u8>,
    second: Seq<u8>,
)
    requires
        body_tree(first) is Some,
        body_tree(first) == body_tree(second),
    ensures
        canonical_text(first) == canonical_text(second),
        inspection(first) == inspection(second),
        filtered(proxy, method, uri, first) == filtered(proxy, method, uri, second),
{
}

/// A body's canonical text, sent again as a body, is filtered as the body
/// itself was, wherever that text is its own canonical text.
pub proof fn lemma_resent_canonical_text_is_filtered_alike(
    proxy: Seq<char>,
    method: Seq<char>,
    uri: Seq<char>,
    body: Seq<u8>,
)
    requires
        canonical_text(body) is Some,
        canonical_text(encode_utf8(canonical_text(body)->0)) == canonical_text(body),
    ensures
        filtered(proxy, method, uri, encode_utf8(canonical_text(body)->0)) == filtered(
            proxy,
            method,
            uri,
            body,
        ),
{
}

/// Inspecting a body's canonical text once more gives the verdict the body
/// itself got, wherever that text is its own canonical text.
pub proof fn lemma_reinspection_agrees(body: Seq<u8>)
    requires
        canonical_text(body) is Some,
        canonical_text(encode_utf8(canonical_text(body)->0)) == canonical_text(body),
    ensures
        inspection(encode_utf8(canonical_text(body)->0)) == inspection(body),
{
    lemma_inspection_follows_canonical_text(body, encode_utf8(canonical_text(body)->0));
}

} // verus!
