use vstd::prelude::*;

verus! {

/// Collects visit observations and says when a batch of them is due to be
/// applied: with a limit, the first `limit` once that many are pending;
/// without one, all that are pending, on every addition.
pub struct ManyVisitObservations<T> {
    pending_observations: Vec<T>,
    limit: Option<usize>,
}

impl<T> ManyVisitObservations<T> {
    /// The observations waiting for a batch.
    pub closed spec fn spec_pending(&self) -> Seq<T> {
        self.pending_observations@
    }

    /// The batch size, if any.
    pub closed spec fn spec_limit(&self) -> Option<usize> {
        self.limit
    }

    pub fn new() -> (r: Self)
        ensures
            r.spec_pending() == Seq::<T>::empty(),
            r.spec_limit().is_none(),
    {
        ManyVisitObservations { pending_observations: Vec::new(), limit: None }
    }

    pub fn with_limit(limit: usize) -> (r: Self)
        ensures
            r.spec_pending() == Seq::<T>::empty(),
            r.spec_limit() == Some(limit),
    {
        ManyVisitObservations { pending_observations: Vec::new(), limit: Some(limit) }
    }

    /// The observations waiting for a batch.
    pub fn pending(&self) -> (r: &Vec<T>)
        ensures
            r@ == self.spec_pending(),
    {
        &self.pending_observations
    }

    /// Queues `visits` and says how many of the pending observations are due
    /// to be applied now, counted from the front. With a limit, the visits
    /// are queued and, once at least `limit` are pending, the first `limit`
    /// are due; they stay queued. Without a limit, the visits are not queued,
    /// and everything already pending is due.
    pub fn add(&mut self, visits: Vec<T>) -> (r: Option<usize>)
        ensures
            final(self).spec_limit() == old(self).spec_limit(),
            match old(self).spec_limit() {
                Some(limit) => {
                    &&& final(self).spec_pending() == old(self).spec_pending() + visits@
                    &&& r == if final(self).spec_pending().len() < limit {
                        None::<usize>
                    } else {
                        Some(limit)
                    }
                },
                None => final(self).spec_pending() == old(self).spec_pending() && r == Some(
                    old(self).spec_pending().len() as usize,
                ),
            },
    {
        match self.limit {
            Some(limit) => {
                let mut visits = visits;
                self.pending_observations.append(&mut visits);
                if self.pending_observations.len() < limit {
                    None
                } else {
                    Some(limit)
                }
            },
            None => Some(self.pending_observations.len()),
        }
    }

    /// Hands out everything still pending.
    pub fn flush(self) -> (r: Vec<T>)
        ensures
            r@ == self.spec_pending(),
    {
        self.pending_observations
    }
}

} // verus!
