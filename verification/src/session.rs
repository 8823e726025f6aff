use vstd::prelude::*;

use crate::endpoints::ENDPOINT_COUNT;
use crate::endpoints::endpoint_url;
use crate::endpoints::endpoint_url_spec;
use crate::errors::FetchError;

verus! {

/// One run of the program: the three fixed endpoints are fetched one after
/// the other, each fully resolved before the next begins, and the first
/// failure ends the run. A failed run keeps no partial results for output.
pub struct Session {
    results: Vec<serde_json::Value>,
    failure: Option<FetchError>,
}

impl Session {
    /// How many fetches have succeeded so far.
    pub closed spec fn fetched(&self) -> nat {
        self.results@.len()
    }

    /// The values fetched so far, in call order.
    pub closed spec fn results_view(&self) -> Seq<serde_json::Value> {
        self.results@
    }

    /// Whether a fetch has failed; a failed run issues no further request.
    pub closed spec fn failed(&self) -> bool {
        self.failure is Some
    }

    /// The error that ended the run, if one did.
    pub closed spec fn failure_view(&self) -> Option<FetchError> {
        self.failure
    }

    /// Whether the run still owes a request: nothing has failed and fewer
    /// than three fetches have succeeded.
    pub open spec fn has_pending(&self) -> bool {
        !self.failed() && self.fetched() < ENDPOINT_COUNT
    }

    /// A run never holds more results than there are endpoints; every
    /// session this module hands out satisfies this.
    pub open spec fn wf(&self) -> bool {
        self.fetched() <= ENDPOINT_COUNT
    }

    /// A fresh run: nothing fetched, nothing failed.
    pub fn new() -> (s: Session)
        ensures
            s.fetched() == 0,
            s.results_view() == Seq::<serde_json::Value>::empty(),
            !s.failed(),
            s.wf(),
    {
        Session { results: Vec::new(), failure: None }
    }

    /// The URL the run contacts next, or None once the run is over. The
    /// order is fixed: dog breeds, then cat facts, then the echo endpoint.
    /// After a failure no URL is ever pending again: the remaining endpoints
    /// are never contacted.
    pub fn pending_url(&self) -> (r: Option<&'static str>)
        ensures
            r is Some <==> self.has_pending(),
            r matches Some(u) ==> u@ == endpoint_url_spec(self.fetched() as int),
    {
        if self.failure.is_none() && self.results.len() < ENDPOINT_COUNT {
            Some(endpoint_url(self.results.len()))
        } else {
            None
        }
    }

    /// Record the outcome of the pending fetch: a success appends its value
    /// in call order, a failure ends the run and keeps the results as they
    /// were, never to be output.
    pub fn record(&mut self, outcome: Result<serde_json::Value, FetchError>)
        requires
            old(self).has_pending(),
        ensures
            final (self).wf(),
            outcome matches Ok(v) ==> {
                &&& !final (self).failed()
                &&& final (self).fetched() == old(self).fetched() + 1
                &&& final (self).results_view() == old(self).results_view().push(v)
            },
            outcome matches Err(e) ==> {
                &&& final (self).failed()
                &&& final (self).failure_view() == Some(e)
                &&& final (self).results_view() == old(self).results_view()
            },
    {
        match outcome {
            Ok(value) => self.results.push(value),
            Err(error) => self.failure = Some(error),
        }
    }

    /// True once a fetch has failed.
    pub fn is_failed(&self) -> (r: bool)
        ensures
            r == self.failed(),
    {
        self.failure.is_some()
    }

    /// How many fetches have succeeded so far.
    pub fn fetched_count(&self) -> (r: usize)
        ensures
            r == self.fetched(),
    {
        self.results.len()
    }

    /// End the run. A run that failed yields the error that ended it and
    /// discards any values already fetched; a full run yields exactly the
    /// three fetched values, in call order.
    pub fn finish(self) -> (r: Result<Vec<serde_json::Value>, FetchError>)
        requires
            self.wf(),
            !self.has_pending(),
        ensures
            self.failed() ==> (r matches Err(e) && Some(e) == self.failure_view()),
            !self.failed() ==> (r matches Ok(v) && v@ == self.results_view() && v@.len()
                == ENDPOINT_COUNT),
    {
        match self.failure {
            Some(error) => Err(error),
            None => Ok(self.results),
        }
    }
}

/// Once a fetch has failed, the run is over for good: a failed run has no
/// pending request, so the remaining endpoints are never contacted and no
/// output is owed.
pub proof fn lemma_failure_halts(s: Session)
    requires
        s.failed(),
    ensures
        !s.has_pending(),
{
}

} // verus!
