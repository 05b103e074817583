//! The duplicate tracker: for every URI seen so far, the method it was last
//! seen with. Entries are never removed, so the record grows for as long as
//! the tracker lives.

use crate::message::{EventView, LogEvent};
use vstd::hash_map::StringHashMap;
use vstd::prelude::*;

verus! {

/// Whether a request for `uri` with `method` repeats what the record holds:
/// the URI was seen before, and last with the same method.
pub open spec fn repeats(
    seen: Map<Seq<char>, Seq<char>>,
    uri: Seq<char>,
    method: Seq<char>,
) -> bool {
    seen.contains_key(uri) && seen[uri] == method
}

/// The record after a request for `uri` with `method` has been observed.
pub open spec fn observed(
    seen: Map<Seq<char>, Seq<char>>,
    uri: Seq<char>,
    method: Seq<char>,
) -> Map<Seq<char>, Seq<char>> {
    seen.insert(uri, method)
}

/// The record of the last method seen for each URI. The exact URI text is
/// the key, query string included.
pub struct DuplicateTracker {
    seen: StringHashMap<String>,
}

impl View for DuplicateTracker {
    type V = Map<Seq<char>, Seq<char>>;

    closed spec fn view(&self) -> Map<Seq<char>, Seq<char>> {
        self.seen@.map_values(|method: String| method@)
    }
}

impl DuplicateTracker {
    /// A tracker that has seen nothing.
    pub fn new() -> (r: DuplicateTracker)
        ensures
            r@ == Map::<Seq<char>, Seq<char>>::empty(),
    {
        let r = DuplicateTracker { seen: StringHashMap::new() };
        assert(r@ =~= Map::<Seq<char>, Seq<char>>::empty());
        r
    }

    /// The number of distinct URIs seen so far.
    pub fn len(&self) -> (r: usize)
        ensures
            r == self@.len(),
    {
        assert(self@.dom() =~= self.seen@.dom());
        self.seen.len()
    }

    /// The method `uri` was last seen with, if it was seen at all.
    pub fn last_method(&self, uri: &str) -> (r: Option<String>)
        ensures
            match r {
                Some(method) => self@.contains_key(uri@) && self@[uri@] == method@,
                None => !self@.contains_key(uri@),
            },
    {
        match self.seen.get(uri) {
            Some(method) => Some(method.clone()),
            None => None,
        }
    }

    /// Observes one inbound request: checks it against the record and then
    /// overwrites the entry for `uri` with `method`, whatever the check
    /// found. The event handed back is the warning to log; there is one
    /// exactly when the request repeats the record.
    pub fn observe(&mut self, uri: &str, method: &str) -> (r: Option<LogEvent>)
        ensures
            final(self)@ == observed(old(self)@, uri@, method@),
            r is Some <==> repeats(old(self)@, uri@, method@),
            r matches Some(event) ==> event@ == (EventView::Duplicate {
                uri: uri@,
                method: method@,
            }),
    {
        let current = method.to_owned();
        let repeated = match self.seen.get(uri) {
            Some(previous) => *previous == current,
            None => false,
        };
        self.seen.insert(uri.to_owned(), current.clone());
        assert(self@ =~= observed(old(self)@, uri@, method@));
        if repeated {
            Some(LogEvent::Duplicate { uri: uri.to_owned(), method: current })
        } else {
            None
        }
    }
}

/// A request that follows an identical one is flagged: once a URI has been
/// observed with a method, observing the same pair again repeats the record.
pub proof fn lemma_second_of_a_pair_repeats(
    seen: Map<Seq<char>, Seq<char>>,
    uri: Seq<char>,
    method: Seq<char>,
)
    ensures
        repeats(observed(seen, uri, method), uri, method),
{
}

/// Of two identical requests in a row only the second is flagged, as long as
/// the first does not itself repeat an earlier one.
pub proof fn lemma_only_the_second_is_flagged(
    seen: Map<Seq<char>, Seq<char>>,
    uri: Seq<char>,
    method: Seq<char>,
)
    requires
        !seen.contains_key(uri) || seen[uri] != method,
    ensures
        !repeats(seen, uri, method),
        repeats(observed(seen, uri, method), uri, method),
{
}

/// A request with another method is not a duplicate, and takes the entry
/// over: the next request is compared with it.
pub proof fn lemma_other_method_is_no_repeat(
    seen: Map<Seq<char>, Seq<char>>,
    uri: Seq<char>,
    first: Seq<char>,
    second: Seq<char>,
)
    requires
        first != second,
    ensures
        !repeats(observed(seen, uri, first), uri, second),
        observed(observed(seen, uri, first), uri, second)[uri] == second,
{
}

/// Observing never removes an entry, and touches no URI but the one
/// observed.
pub proof fn lemma_entries_persist(
    seen: Map<Seq<char>, Seq<char>>,
    uri: Seq<char>,
    method: Seq<char>,
    other: Seq<char>,
)
    requires
        seen.contains_key(other),
    ensures
        observed(seen, uri, method).contains_key(other),
        other != uri ==> observed(seen, uri, method)[other] == seen[other],
{
}

} // verus!
