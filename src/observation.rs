use crate::types::{Timestamp, VisitTransition};
use vstd::prelude::*;

verus! {

/// What a page row records of its history.
#[derive(Debug, Clone)]
pub struct PageCounts {
    pub title: String,
    pub hidden: bool,
    pub typed: u32,
    pub visit_count_local: i32,
    pub visit_count_remote: i32,
    pub last_visit_date_local: Timestamp,
    pub last_visit_date_remote: Timestamp,
}

impl PageCounts {
    /// A page seen for the first time: hidden until a visible visit comes.
    pub fn new_page() -> (r: PageCounts)
        ensures
            r.title@ == Seq::<char>::empty(),
            r.hidden,
            r.typed == 0,
            r.visit_count_local == 0 && r.visit_count_remote == 0,
            r.last_visit_date_local == Timestamp(0) && r.last_visit_date_remote == Timestamp(0),
    {
        PageCounts {
            title: String::new(),
            hidden: true,
            typed: 0,
            visit_count_local: 0,
            visit_count_remote: 0,
            last_visit_date_local: Timestamp(0),
            last_visit_date_remote: Timestamp(0),
        }
    }
}

/// One observation of a page: a new title, a visit, or both.
#[derive(Debug, Clone)]
pub struct VisitObservation {
    pub title: Option<String>,
    /// Present when the observation is a visit.
    pub visit_type: Option<VisitTransition>,
    pub is_hidden: bool,
    pub was_typed: bool,
    /// When the visit happened; absent means now.
    pub at: Option<Timestamp>,
    pub is_remote: bool,
    pub is_error: bool,
}

/// What applying an observation does to a page.
#[derive(Debug, Clone)]
pub struct ObservationEffect {
    pub page: PageCounts,
    /// The page columns to write, in order.
    pub columns: Vec<&'static str>,
    /// The visit to record: its time and type, and whether it is remote.
    pub visit: Option<(Timestamp, VisitTransition, bool)>,
    /// Whether the page's frecency is to be recomputed.
    pub update_frecency: bool,
}

pub open spec fn later(a: Timestamp, b: Timestamp) -> Timestamp {
    if a.0 >= b.0 {
        a
    } else {
        b
    }
}

/// The columns an observation writes, in order.
pub open spec fn observed_columns(obs: VisitObservation) -> Seq<&'static str> {
    let t = if obs.title is Some {
        seq!["title"]
    } else {
        Seq::empty()
    };
    match obs.visit_type {
        None => t,
        Some(_) => {
            let h = if !obs.is_hidden {
                t.push("hidden")
            } else {
                t
            };
            let ty = if obs.was_typed {
                h.push("typed")
            } else {
                h
            };
            if obs.is_remote {
                ty.push("visit_count_remote").push("last_visit_date_remote")
            } else {
                ty.push("visit_count_local").push("last_visit_date_local")
            }
        },
    }
}

/// Applies one observation to a page: a title replaces the page's; a visit
/// makes a page visible unless hidden, counts a typed visit, and counts the
/// visit on its side (local or remote), keeping the latest visit date; a
/// visit that is not an error calls for new frecency.
pub fn apply_observation(page: PageCounts, obs: &VisitObservation, now: Timestamp) -> (r:
    ObservationEffect)
    requires
        obs.visit_type is Some ==> {
            &&& page.typed < u32::MAX
            &&& page.visit_count_local < i32::MAX
            &&& page.visit_count_remote < i32::MAX
        },
    ensures
        r.columns@ == observed_columns(*obs),
        r.page.title@ == match obs.title {
            Some(t) => t@,
            None => page.title@,
        },
        match obs.visit_type {
            None => {
                &&& r.visit.is_none() && !r.update_frecency
                &&& r.page.hidden == page.hidden && r.page.typed == page.typed
                &&& r.page.visit_count_local == page.visit_count_local
                &&& r.page.visit_count_remote == page.visit_count_remote
                &&& r.page.last_visit_date_local == page.last_visit_date_local
                &&& r.page.last_visit_date_remote == page.last_visit_date_remote
            },
            Some(vt) => {
                let at = match obs.at {
                    Some(a) => a,
                    None => now,
                };
                &&& r.visit == Some((at, vt, obs.is_remote))
                &&& r.update_frecency == !obs.is_error
                &&& r.page.hidden == (page.hidden && obs.is_hidden)
                &&& r.page.typed == if obs.was_typed {
                    (page.typed + 1) as u32
                } else {
                    page.typed
                }
                &&& if obs.is_remote {
                    &&& r.page.visit_count_remote == page.visit_count_remote + 1
                    &&& r.page.last_visit_date_remote == later(at, page.last_visit_date_remote)
                    &&& r.page.visit_count_local == page.visit_count_local
                    &&& r.page.last_visit_date_local == page.last_visit_date_local
                } else {
                    &&& r.page.visit_count_local == page.visit_count_local + 1
                    &&& r.page.last_visit_date_local == later(at, page.last_visit_date_local)
                    &&& r.page.visit_count_remote == page.visit_count_remote
                    &&& r.page.last_visit_date_remote == page.last_visit_date_remote
                }
            },
        },
{
    let mut page = page;
    let mut columns: Vec<&'static str> = Vec::new();
    if let Some(title) = &obs.title {
        page.title = title.clone();
        columns.push("title");
    }
    let mut visit = None;
    let mut update_frecency = false;
    if let Some(visit_type) = obs.visit_type {
        if !obs.is_hidden {
            page.hidden = false;
            columns.push("hidden");
        }
        if obs.was_typed {
            page.typed = page.typed + 1;
            columns.push("typed");
        }
        let at = match obs.at {
            Some(a) => a,
            None => now,
        };
        visit = Some((at, visit_type, obs.is_remote));
        if obs.is_remote {
            page.visit_count_remote = page.visit_count_remote + 1;
            columns.push("visit_count_remote");
            if at.0 >= page.last_visit_date_remote.0 {
                page.last_visit_date_remote = at;
            }
            columns.push("last_visit_date_remote");
        } else {
            page.visit_count_local = page.visit_count_local + 1;
            columns.push("visit_count_local");
            if at.0 >= page.last_visit_date_local.0 {
                page.last_visit_date_local = at;
            }
            columns.push("last_visit_date_local");
        }
        if !obs.is_error {
            update_frecency = true;
        }
    }
    proof {
        assert(columns@ =~= observed_columns(*obs));
    }
    ObservationEffect { page, columns, visit, update_frecency }
}

} // verus!
