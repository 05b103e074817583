//! The path of one request through the proxy, as a state machine. The caller
//! does the outside work (reading the body, calling the backend) and reports
//! each result to the task, which says what to do next.

use crate::json::canonical_text;
use crate::message::{
    bare_response, EventView, InboundRequest, LogEvent, ProxyError, ProxyResponse,
    FORWARD_FAILURE_STATUS, MALFORMED_BODY_STATUS, READ_FAILURE_STATUS, REJECTION_STATUS,
};
use crate::pattern::{has_marker, PatternMatcher};
use crate::proxy::{filter, filtered, Decision, DecisionView, FilterOutcome};
use crate::tracker::{observed, repeats, DuplicateTracker};
use vstd::prelude::*;

verus! {

/// Where a request stands.
#[derive(Clone, Copy, Debug, PartialEq, Eq, Structural)]
pub enum Phase {
    /// The request has arrived.
    Received,
    /// The duplicate tracker has seen it.
    TrackerChecked,
    /// The inbound body could not be read. Final.
    ReadFailed,
    /// The body has been collected.
    BodyCollected,
    /// The body is not a JSON document. Final.
    ParseFailed,
    /// The body has been inspected and a verdict reached.
    Inspected,
    /// The request was found malicious and refused. Final.
    Rejected,
    /// The request was rebuilt and is on its way to the backend.
    ForwardAttempted,
    /// The backend answered. Final.
    Forwarded,
    /// The backend could not be reached. Final.
    ForwardFailed,
}

impl Phase {
    /// Whether a request in this phase has met its outcome.
    pub open spec fn is_final(self) -> bool {
        self == Phase::ReadFailed || self == Phase::ParseFailed || self == Phase::Rejected || self
            == Phase::Forwarded || self == Phase::ForwardFailed
    }

    /// Whether a request may move from this phase straight to `next`.
    pub open spec fn steps_to(self, next: Phase) -> bool {
        match self {
            Phase::Received => next == Phase::TrackerChecked,
            Phase::TrackerChecked => next == Phase::BodyCollected || next == Phase::ReadFailed,
            Phase::BodyCollected => next == Phase::ParseFailed || next == Phase::Inspected,
            Phase::Inspected => next == Phase::Rejected || next == Phase::ForwardAttempted,
            Phase::ForwardAttempted => next == Phase::Forwarded || next == Phase::ForwardFailed,
            _ => false,
        }
    }

    /// How many steps a request in this phase has taken.
    pub open spec fn depth(self) -> nat {
        match self {
            Phase::Received => 0,
            Phase::TrackerChecked => 1,
            Phase::ReadFailed => 2,
            Phase::BodyCollected => 2,
            Phase::ParseFailed => 3,
            Phase::Inspected => 3,
            Phase::Rejected => 4,
            Phase::ForwardAttempted => 4,
            Phase::Forwarded => 5,
            Phase::ForwardFailed => 5,
        }
    }

    /// Whether a request in this phase has met its outcome.
    pub fn terminal(&self) -> (r: bool)
        ensures
            r == self.is_final(),
    {
        match self {
            Phase::ReadFailed => true,
            Phase::ParseFailed => true,
            Phase::Rejected => true,
            Phase::Forwarded => true,
            Phase::ForwardFailed => true,
            _ => false,
        }
    }
}

/// Whether each phase of `path` leads straight to the one after it.
pub open spec fn is_path(path: Seq<Phase>) -> bool {
    forall|i: int| 0 <= i < path.len() - 1 ==> (#[trigger] path[i]).steps_to(path[i + 1])
}

/// Whether a request in phase `from` can come to phase `to`: it is there
/// already, or a path of steps leads there.
pub open spec fn leads_to(from: Phase, to: Phase) -> bool {
    exists|path: Seq<Phase>|
        #[trigger] is_path(path) && path.len() > 0 && path.first() == from && path.last() == to
}

/// Every step takes a request further from its arrival.
pub proof fn lemma_steps_go_forward(from: Phase, to: Phase)
    requires
        from.steps_to(to),
    ensures
        to.depth() == from.depth() + 1,
{
}

/// A final phase is left by no step, and every other phase by at least one.
pub proof fn lemma_final_phases_end_the_path(phase: Phase)
    ensures
        phase.is_final() <==> forall|next: Phase| !phase.steps_to(next),
{
    if !phase.is_final() {
        let next = match phase {
            Phase::Received => Phase::TrackerChecked,
            Phase::TrackerChecked => Phase::BodyCollected,
            Phase::BodyCollected => Phase::Inspected,
            Phase::Inspected => Phase::ForwardAttempted,
            _ => Phase::Forwarded,
        };
        assert(phase.steps_to(next));
    }
}

/// Along a path the depth grows with every step.
pub proof fn lemma_depth_along_path(path: Seq<Phase>, i: int, j: int)
    requires
        is_path(path),
        0 <= i <= j < path.len(),
    ensures
        path[j].depth() == path[i].depth() + (j - i),
    decreases j - i,
{
    if i < j {
        lemma_depth_along_path(path, i, j - 1);
        assert(path[j - 1].steps_to(path[j - 1 + 1]));
    }
}

/// No request comes back to a phase it has left, and no path is longer than
/// six phases.
pub proof fn lemma_no_phase_is_revisited(path: Seq<Phase>)
    requires
        is_path(path),
    ensures
        forall|i: int, j: int| 0 <= i < j < path.len() ==> path[i] != path[j],
        path.len() <= 6,
{
    assert forall|i: int, j: int| 0 <= i < j < path.len() implies path[i] != path[j] by {
        lemma_depth_along_path(path, i, j);
    }
    if path.len() > 0 {
        lemma_depth_along_path(path, 0, path.len() - 1);
    }
}

/// A request that has come from one phase to another has moved forward: the
/// two phases are the same, or the later one lies deeper.
pub proof fn lemma_requests_only_move_forward(from: Phase, to: Phase)
    requires
        leads_to(from, to),
    ensures
        from == to || from.depth() < to.depth(),
        from.is_final() ==> to == from,
{
    let path = choose|path: Seq<Phase>|
        #[trigger] is_path(path) && path.len() > 0 && path.first() == from && path.last() == to;
    lemma_depth_along_path(path, 0, path.len() - 1);
    if path.len() > 1 {
        assert(path[0].steps_to(path[0int + 1]));
    }
}

/// Every phase leads to itself.
pub proof fn lemma_leads_to_itself(phase: Phase)
    ensures
        leads_to(phase, phase),
{
    let path = seq![phase];
    assert(is_path(path) && path.len() > 0 && path.first() == phase && path.last() == phase);
}

/// Where one phase leads to a second, and a step goes from the second to a
/// third, the first leads to the third.
pub proof fn lemma_leads_on(from: Phase, middle: Phase, to: Phase)
    requires
        leads_to(from, middle),
        middle.steps_to(to),
    ensures
        leads_to(from, to),
{
    let path = choose|path: Seq<Phase>|
        #[trigger] is_path(path) && path.len() > 0 && path.first() == from && path.last() == middle;
    let longer = path.push(to);
    assert forall|i: int| 0 <= i < longer.len() - 1 implies (#[trigger] longer[i]).steps_to(
        longer[i + 1],
    ) by {
        if i < path.len() - 1 {
            assert(path[i].steps_to(path[i + 1]));
        }
    }
    assert(is_path(longer) && longer.len() > 0 && longer.first() == from && longer.last() == to);
}

/// One request on its way through the proxy.
pub struct RequestTask {
    phase: Phase,
    method: String,
    uri: String,
    target: String,
}

impl RequestTask {
    /// The phase the request is in.
    pub closed spec fn phase(&self) -> Phase {
        self.phase
    }

    /// The request's method.
    pub closed spec fn method(&self) -> Seq<char> {
        self.method@
    }

    /// The request's URI: path and query, as they arrived.
    pub closed spec fn uri(&self) -> Seq<char> {
        self.uri@
    }

    /// The URI the request is forwarded to. Empty until it is forwarded.
    pub closed spec fn target(&self) -> Seq<char> {
        self.target@
    }

    /// Whether two tasks are for the same request.
    pub open spec fn same_request(&self, other: &RequestTask) -> bool {
        self.method() == other.method() && self.uri() == other.uri()
    }

    /// A task for a request that has just arrived.
    pub fn new(method: String, uri: String) -> (r: RequestTask)
        ensures
            r.phase() == Phase::Received,
            r.method() == method@,
            r.uri() == uri@,
            r.target() == Seq::<char>::empty(),
    {
        RequestTask { phase: Phase::Received, method, uri, target: String::new() }
    }

    /// The phase the request is in.
    pub fn current_phase(&self) -> (r: Phase)
        ensures
            r == self.phase(),
    {
        self.phase
    }

    /// Whether the request has met its outcome.
    pub fn is_done(&self) -> (r: bool)
        ensures
            r == self.phase().is_final(),
    {
        self.phase.terminal()
    }

    /// Moves the task along one arrow of the state machine. Whatever phase
    /// led to the old phase leads to the new one as well.
    fn enter(&mut self, next: Phase, Ghost(start): Ghost<Phase>)
        requires
            old(self).phase.steps_to(next),
            leads_to(start, old(self).phase),
        ensures
            final(self).phase == next,
            final(self).method == old(self).method,
            final(self).uri == old(self).uri,
            final(self).target == old(self).target,
            leads_to(start, next),
    {
        proof {
            lemma_leads_on(start, self.phase, next);
        }
        self.phase = next;
    }

    /// Shows the request to the duplicate tracker, which notes it whatever
    /// comes of it later. The event handed back is the duplicate warning, if
    /// one is due. Called in any phase but the first, this does nothing.
    pub fn check_tracker(&mut self, tracker: &mut DuplicateTracker) -> (r: Option<LogEvent>)
        ensures
            final(self).same_request(old(self)),
            final(self).target() == old(self).target(),
            leads_to(old(self).phase(), final(self).phase()),
            old(self).phase() == Phase::Received ==> {
                &&& final(self).phase() == Phase::TrackerChecked
                &&& final(tracker)@ == observed(old(tracker)@, old(self).uri(), old(self).method())
                &&& r is Some <==> repeats(old(tracker)@, old(self).uri(), old(self).method())
                &&& r matches Some(event) ==> event@ == (EventView::Duplicate {
                    uri: old(self).uri(),
                    method: old(self).method(),
                })
            },
            old(self).phase() != Phase::Received ==> {
                &&& final(self).phase() == old(self).phase()
                &&& final(tracker)@ == old(tracker)@
                &&& r is None
            },
    {
        let ghost start = self.phase;
        proof {
            lemma_leads_to_itself(start);
        }
        if self.phase == Phase::Received {
            let warning = tracker.observe(self.uri.as_str(), self.method.as_str());
            self.enter(Phase::TrackerChecked, Ghost(start));
            warning
        } else {
            None
        }
    }

    /// Reports that the inbound body could not be read. The request ends
    /// with the read-failure response. Called out of turn, this does nothing
    /// and hands back `None`.
    pub fn body_failed(&mut self) -> (r: Option<FilterOutcome>)
        ensures
            final(self).same_request(old(self)),
            final(self).target() == old(self).target(),
            leads_to(old(self).phase(), final(self).phase()),
            old(self).phase() == Phase::TrackerChecked ==> {
                &&& final(self).phase() == Phase::ReadFailed
                &&& r matches Some(outcome)
                &&& outcome@.decision == DecisionView::Respond(bare_response(READ_FAILURE_STATUS))
                &&& outcome@.event is None
            },
            old(self).phase() != Phase::TrackerChecked ==> {
                &&& final(self).phase() == old(self).phase()
                &&& r is None
            },
    {
        let ghost start = self.phase;
        proof {
            lemma_leads_to_itself(start);
        }
        if self.phase == Phase::TrackerChecked {
            self.enter(Phase::ReadFailed, Ghost(start));
            Some(
                FilterOutcome {
                    decision: Decision::Respond(ProxyError::TransportRead.response()),
                    event: None,
                },
            )
        } else {
            None
        }
    }

    /// Reports the collected body. The body is filtered, and the request
    /// either ends (malformed body, or rejection) or is on its way to the
    /// backend at `proxy` with the request handed back. Called out of turn,
    /// this does nothing and hands back `None`.
    pub fn body_collected(
        &mut self,
        proxy: &str,
        matcher: &PatternMatcher,
        body: Vec<u8>,
    ) -> (r: Option<FilterOutcome>)
        ensures
            final(self).same_request(old(self)),
            leads_to(old(self).phase(), final(self).phase()),
            old(self).phase() == Phase::TrackerChecked ==> {
                &&& r matches Some(outcome)
                &&& outcome@ == filtered(proxy@, old(self).method(), old(self).uri(), body@)
                &&& final(self).phase() == match canonical_text(body@) {
                    None => Phase::ParseFailed,
                    Some(text) => if has_marker(text) {
                        Phase::Rejected
                    } else {
                        Phase::ForwardAttempted
                    },
                }
                &&& final(self).phase() == Phase::ForwardAttempted ==> final(self).target()
                    == proxy@ + old(self).uri()
                &&& final(self).phase() != Phase::ForwardAttempted ==> final(self).target()
                    == old(self).target()
                &&& outcome.decision is Respond <==> final(self).phase().is_final()
            },
            old(self).phase() != Phase::TrackerChecked ==> {
                &&& final(self).phase() == old(self).phase()
                &&& final(self).target() == old(self).target()
                &&& r is None
            },
    {
        let ghost start = self.phase;
        proof {
            lemma_leads_to_itself(start);
        }
        if self.phase != Phase::TrackerChecked {
            return None;
        }
        self.enter(Phase::BodyCollected, Ghost(start));
        let request = InboundRequest { method: self.method.clone(), uri: self.uri.clone(), body };
        let outcome = filter(proxy, &request, matcher);
        match &outcome.decision {
            Decision::Forward(outbound) => {
                self.enter(Phase::Inspected, Ghost(start));
                self.enter(Phase::ForwardAttempted, Ghost(start));
                self.target = outbound.uri.clone();
            },
            Decision::Respond(response) => {
                if response.status == REJECTION_STATUS {
                    self.enter(Phase::Inspected, Ghost(start));
                    self.enter(Phase::Rejected, Ghost(start));
                } else {
                    self.enter(Phase::ParseFailed, Ghost(start));
                }
            },
        }
        Some(outcome)
    }

    /// Reports the backend's response. It is handed back untouched (status,
    /// headers and body, whatever the status says), and the request ends.
    /// Called out of turn, this does nothing and hands back `None`.
    pub fn backend_replied(&mut self, response: ProxyResponse) -> (r: Option<FilterOutcome>)
        ensures
            final(self).same_request(old(self)),
            final(self).target() == old(self).target(),
            leads_to(old(self).phase(), final(self).phase()),
            old(self).phase() == Phase::ForwardAttempted ==> {
                &&& final(self).phase() == Phase::Forwarded
                &&& r == Some(FilterOutcome { decision: Decision::Respond(response), event: None })
            },
            old(self).phase() != Phase::ForwardAttempted ==> {
                &&& final(self).phase() == old(self).phase()
                &&& r is None
            },
    {
        let ghost start = self.phase;
        proof {
            lemma_leads_to_itself(start);
        }
        if self.phase == Phase::ForwardAttempted {
            self.enter(Phase::Forwarded, Ghost(start));
            Some(FilterOutcome { decision: Decision::Respond(response), event: None })
        } else {
            None
        }
    }

    /// Reports that the backend could not be reached. The request ends with
    /// the forward-failure response, and the event to log names the target
    /// and the cause. Called out of turn, this does nothing and hands back
    /// `None`.
    pub fn backend_failed(&mut self, cause: String) -> (r: Option<FilterOutcome>)
        ensures
            final(self).same_request(old(self)),
            final(self).target() == old(self).target(),
            leads_to(old(self).phase(), final(self).phase()),
            old(self).phase() == Phase::ForwardAttempted ==> {
                &&& final(self).phase() == Phase::ForwardFailed
                &&& r matches Some(outcome)
                &&& outcome@.decision == DecisionView::Respond(
                    bare_response(FORWARD_FAILURE_STATUS),
                )
                &&& outcome@.event == Some(
                    EventView::ForwardFailed { uri: old(self).target(), cause: cause@ },
                )
            },
            old(self).phase() != Phase::ForwardAttempted ==> {
                &&& final(self).phase() == old(self).phase()
                &&& r is None
            },
    {
        let ghost start = self.phase;
        proof {
            lemma_leads_to_itself(start);
        }
        if self.phase == Phase::ForwardAttempted {
            self.enter(Phase::ForwardFailed, Ghost(start));
            Some(
                FilterOutcome {
                    decision: Decision::Respond(ProxyError::ForwardTransport.response()),
                    event: Some(LogEvent::ForwardFailed { uri: self.target.clone(), cause }),
                },
            )
        } else {
            None
        }
    }
}

} // verus!
