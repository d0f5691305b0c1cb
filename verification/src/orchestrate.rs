use vstd::prelude::*;
use crate::model::Domain;

verus! {

/// The identifiers of the domains that carry one, in source order.
pub open spec fn present_ids(ds: Seq<Domain>) -> Seq<u64>
    decreases ds.len(),
{
    if ds.len() == 0 {
        Seq::empty()
    } else {
        let rest = present_ids(ds.drop_last());
        match ds.last().saas_customer_id {
            Some(id) => rest.push(id),
            None => rest,
        }
    }
}

/// The positions of the domains that lack an identifier, in source order.
pub open spec fn missing_positions(ds: Seq<Domain>) -> Seq<int>
    decreases ds.len(),
{
    if ds.len() == 0 {
        Seq::empty()
    } else {
        let rest = missing_positions(ds.drop_last());
        match ds.last().saas_customer_id {
            Some(id) => rest,
            None => rest.push(ds.len() - 1),
        }
    }
}

/// How one domain listing fans out: the identifiers to fetch, one task
/// each, and the positions of the entries that were skipped for lack of an
/// identifier.
pub struct DomainPlan {
    pub fetch_ids: Vec<u64>,
    pub skipped: Vec<usize>,
}

/// Splits a domain listing into the identifiers to fetch and the positions
/// of the entries with a missing identifier, which are skipped and logged,
/// never fatal.
pub fn plan_domains(domains: &Vec<Domain>) -> (p: DomainPlan)
    ensures
        p.fetch_ids@ == present_ids(domains@),
        p.skipped@.map_values(|u: usize| u as int) == missing_positions(domains@),
{
    let mut fetch_ids: Vec<u64> = Vec::new();
    let mut skipped: Vec<usize> = Vec::new();
    let n = domains.len();
    for i in 0..n
        invariant
            n == domains@.len(),
            fetch_ids@ == present_ids(domains@.take(i as int)),
            skipped@.map_values(|u: usize| u as int) == missing_positions(
                domains@.take(i as int),
            ),
    {
        proof {
            assert(domains@.take(i as int + 1).drop_last() =~= domains@.take(i as int));
            assert(domains@.take(i as int + 1).last() == domains@[i as int]);
        }
        match domains[i].saas_customer_id {
            Some(id) => {
                fetch_ids.push(id);
            },
            None => {
                skipped.push(i);
                proof {
                    assert(skipped@.map_values(|u: usize| u as int) =~= missing_positions(
                        domains@.take(i as int + 1),
                    ));
                }
            },
        }
    }
    proof {
        assert(domains@.take(n as int) =~= domains@);
    }
    DomainPlan { fetch_ids, skipped }
}

/// The phase one run is in: listing domains, fanning out per-domain
/// fetches, or finished. Failed is reached only when the domain listing
/// itself fails; a per-domain fetch failure is absorbed locally.
#[derive(Clone, Copy, PartialEq, Eq, Structural, Debug)]
pub enum RunPhase {
    ListingDomains,
    Fetching { remaining: usize },
    Done,
    Failed,
}

/// A fresh run starts by listing the monitored domains.
pub fn start_run() -> (p: RunPhase)
    ensures
        p == RunPhase::ListingDomains,
{
    RunPhase::ListingDomains
}

/// Decides the whole run's fate from the domain-listing outcome. A
/// non-success response fails the run with nothing to fetch; a success fans
/// out one fetch per present identifier and skips entries without one.
pub fn on_domains_response(phase: RunPhase, success: bool, domains: &Vec<Domain>) -> (r: (
    RunPhase,
    DomainPlan,
))
    requires
        phase == RunPhase::ListingDomains,
    ensures
        !success ==> r.0 == RunPhase::Failed && r.1.fetch_ids@ == Seq::<u64>::empty()
            && r.1.skipped@ == Seq::<usize>::empty(),
        success ==> r.1.fetch_ids@ == present_ids(domains@)
            && r.1.skipped@.map_values(|u: usize| u as int) == missing_positions(domains@),
        success && present_ids(domains@).len() == 0 ==> r.0 == RunPhase::Done,
        success && present_ids(domains@).len() > 0 ==> r.0 == (RunPhase::Fetching {
            remaining: present_ids(domains@).len() as usize,
        }),
{
    if !success {
        return (RunPhase::Failed, DomainPlan { fetch_ids: Vec::new(), skipped: Vec::new() });
    }
    let plan = plan_domains(domains);
    let count = plan.fetch_ids.len();
    if count == 0 {
        (RunPhase::Done, plan)
    } else {
        (RunPhase::Fetching { remaining: count }, plan)
    }
}

/// Records that one per-domain fetch finished. A fetch that failed was
/// handled locally (logged and skipped) and still counts as finished: it
/// never aborts the sibling fetches. The run is done when the last fetch
/// completes.
pub fn on_fetch_complete(phase: RunPhase) -> (r: RunPhase)
    requires
        phase matches RunPhase::Fetching { remaining } && remaining > 0,
    ensures
        r == (match phase {
            RunPhase::Fetching { remaining } => {
                if remaining == 1 {
                    RunPhase::Done
                } else {
                    RunPhase::Fetching { remaining: (remaining - 1) as usize }
                }
            },
            _ => phase,
        }),
{
    match phase {
        RunPhase::Fetching { remaining } => {
            if remaining == 1 {
                RunPhase::Done
            } else {
                RunPhase::Fetching { remaining: remaining - 1 }
            }
        },
        _ => RunPhase::Failed,
    }
}

} // verus!
