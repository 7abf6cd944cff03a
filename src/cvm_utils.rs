//! Cheapest-instance discovery and instance readiness.
//!
//! The caller lists each candidate region's zones, asks the provider for one
//! price per entry of `price_queries` (all at once), and hands the outcomes
//! back in query order to `find_cheapest`. While a new instance boots, each
//! description of the region's instances goes to `poll_address`, which says
//! whether to wait, fail, or use the address.

use vstd::prelude::*;
use itertools::Itertools;
use crate::constant::{InstanceType, Region};
use crate::error::PSMError;
use crate::text::{contains_ci, find_ignore_case, same_text};

verus! {

/// One price query: an instance type in a zone of a region.
#[derive(Debug, Clone, PartialEq, Eq)]
pub struct PriceQuery {
    pub region: Region,
    pub zone: String,
    pub instance_type: InstanceType,
}

impl View for PriceQuery {
    type V = (Region, Seq<char>, InstanceType);

    open spec fn view(&self) -> (Region, Seq<char>, InstanceType) {
        (self.region, self.zone@, self.instance_type)
    }
}

/// Hourly prices, in millionths of the billing currency.
#[derive(Debug, Clone, Copy, PartialEq, Eq, Structural)]
pub struct Price {
    /// Price of the instance per hour.
    pub instance_price: u64,
    /// Price of traffic per GB.
    pub bandwidth_price: u64,
}

/// The outcome of one price query: the price, or `None` when the provider
/// refused it (a sold-out or unsupported combination).
#[derive(Debug, Clone, PartialEq, Eq)]
pub struct PriceResult {
    pub query: PriceQuery,
    pub price: Option<Price>,
}

/// A priced, concrete place to create an instance.
#[derive(Debug, Clone, PartialEq, Eq)]
pub struct Quote {
    pub price: Price,
    pub region: Region,
    pub zone: String,
    pub instance_type: InstanceType,
}

impl View for Quote {
    type V = (Price, Region, Seq<char>, InstanceType);

    open spec fn view(&self) -> (Price, Region, Seq<char>, InstanceType) {
        (self.price, self.region, self.zone@, self.instance_type)
    }
}

impl Quote {
    /// A copy of this quote.
    pub fn copy(&self) -> (r: Quote)
        ensures
            r@ == self@,
    {
        Quote {
            price: self.price,
            region: self.region,
            zone: self.zone.clone(),
            instance_type: self.instance_type,
        }
    }
}

/// Relies on itertools' `Itertools::cartesian_product`: every (zone, type)
/// pair, zone-major (for each zone in order, every type in order).
#[verifier::external_body]
fn zone_type_pairs(zones: &Vec<String>, types: &Vec<InstanceType>) -> (r: Vec<(String, InstanceType)>)
    ensures
        r@.len() == zones@.len() * types@.len(),
        forall|k: int|
            0 <= k < r@.len() ==> (#[trigger] r@[k]).0@ == zones@[k / types@.len() as int]@
                && r@[k].1 == types@[k % types@.len() as int],
{
    zones.iter().cartesian_product(types.iter()).map(|(z, t)| (z.clone(), *t)).collect()
}

/// The queries of one region: its zones crossed with the types, zone-major.
pub open spec fn region_grid(region: Region, zones: Seq<Seq<char>>, types: Seq<InstanceType>) -> Seq<
    (Region, Seq<char>, InstanceType),
> {
    Seq::new(
        zones.len() * types.len(),
        |k: int| (region, zones[k / types.len() as int], types[k % types.len() as int]),
    )
}

/// The queries of all regions, region by region.
pub open spec fn query_grid(
    zones_by_region: Seq<(Region, Seq<Seq<char>>)>,
    types: Seq<InstanceType>,
) -> Seq<(Region, Seq<char>, InstanceType)>
    decreases zones_by_region.len(),
{
    if zones_by_region.len() == 0 {
        Seq::empty()
    } else {
        let last = zones_by_region.last();
        query_grid(zones_by_region.drop_last(), types) + region_grid(last.0, last.1, types)
    }
}

/// The zones of each region, as plain values.
pub open spec fn zones_view(zones_by_region: Seq<(Region, Vec<String>)>) -> Seq<
    (Region, Seq<Seq<char>>),
> {
    zones_by_region.map_values(
        |p: (Region, Vec<String>)| (p.0, p.1@.map_values(|z: String| z@)),
    )
}

proof fn lemma_grid_position(j: int, n: int, m: int)
    requires
        0 <= j < n * m,
        n >= 0,
    ensures
        0 <= j / m < n,
        0 <= j % m < m,
{
    assert(m > 0) by (nonlinear_arith)
        requires
            0 <= j < n * m,
            n >= 0,
    ;
    assert(0 <= j / m < n) by (nonlinear_arith)
        requires
            0 <= j < n * m,
            m > 0,
    ;
    assert(0 <= j % m < m) by (nonlinear_arith)
        requires
            m > 0,
    ;
}

/// Every price query to make: for each region in order, each of its zones
/// crossed with each acceptable type.
pub fn price_queries(zones_by_region: &Vec<(Region, Vec<String>)>, types: &Vec<InstanceType>) -> (r:
    Vec<PriceQuery>)
    ensures
        r@.map_values(|q: PriceQuery| q@) == query_grid(zones_view(zones_by_region@), types@),
{
    let ghost rz = zones_view(zones_by_region@);
    let mut out: Vec<PriceQuery> = Vec::new();
    let mut i: usize = 0;
    while i < zones_by_region.len()
        invariant
            i <= zones_by_region.len(),
            rz == zones_view(zones_by_region@),
            rz.len() == zones_by_region@.len(),
            out@.map_values(|q: PriceQuery| q@) == query_grid(rz.subrange(0, i as int), types@),
        decreases zones_by_region.len() - i,
    {
        let region = zones_by_region[i].0;
        let pairs = zone_type_pairs(&zones_by_region[i].1, types);
        let ghost before = out@.map_values(|q: PriceQuery| q@);
        let ghost grid = region_grid(rz[i as int].0, rz[i as int].1, types@);
        assert(rz[i as int].1 == zones_by_region@[i as int].1@.map_values(|z: String| z@));
        proof {
            let n = zones_by_region@[i as int].1@.len() as int;
            let m = types@.len() as int;
            assert forall|j: int| 0 <= j < pairs@.len() implies (#[trigger] pairs@[j]).0@ == grid[j].1
                && pairs@[j].1 == grid[j].2 by {
                lemma_grid_position(j, n, m);
            }
        }
        let mut k: usize = 0;
        while k < pairs.len()
            invariant
                k <= pairs.len(),
                i < rz.len(),
                grid == region_grid(rz[i as int].0, rz[i as int].1, types@),
                pairs@.len() == grid.len(),
                region == rz[i as int].0,
                forall|j: int|
                    0 <= j < pairs@.len() ==> (#[trigger] pairs@[j]).0@ == grid[j].1
                        && pairs@[j].1 == grid[j].2,
                out@.map_values(|q: PriceQuery| q@) == before + grid.subrange(0, k as int),
            decreases pairs.len() - k,
        {
            let q = PriceQuery {
                region,
                zone: pairs[k].0.clone(),
                instance_type: pairs[k].1,
            };
            assert(q@ == grid[k as int]);
            let ghost old_out = out@;
            let ghost qv = q@;
            out.push(q);
            assert(out@.map_values(|q: PriceQuery| q@) =~= old_out.map_values(|q: PriceQuery| q@).push(
                qv,
            ));
            assert(grid.subrange(0, k + 1) =~= grid.subrange(0, k as int).push(qv));
            assert(out@.map_values(|q: PriceQuery| q@) =~= before + grid.subrange(0, k + 1));
            k = k + 1;
        }
        assert(grid.subrange(0, k as int) =~= grid);
        assert(rz.subrange(0, i + 1).drop_last() =~= rz.subrange(0, i as int));
        i = i + 1;
    }
    assert(rz.subrange(0, i as int) =~= rz);
    out
}

/// Position `k` of `results` holds a price, and it is the lowest of all, and
/// no earlier position holds that same lowest price.
pub open spec fn is_cheapest_at(results: Seq<PriceResult>, k: int) -> bool {
    &&& 0 <= k < results.len()
    &&& results[k].price is Some
    &&& forall|j: int|
        0 <= j < results.len() && (#[trigger] results[j]).price is Some ==> results[k].price->0.instance_price
            <= results[j].price->0.instance_price
    &&& forall|j: int|
        0 <= j < k && (#[trigger] results[j]).price is Some ==> results[k].price->0.instance_price
            < results[j].price->0.instance_price
}

/// The quote of one priced result.
pub open spec fn quote_of(r: PriceResult) -> (Price, Region, Seq<char>, InstanceType) {
    (r.price->0, r.query.region, r.query.zone@, r.query.instance_type)
}

/// The cheapest quote among the results, given in query order: lowest hourly
/// instance price, the earliest query on a tie; `NoAvailableInstance` when no
/// query produced a price.
pub fn find_cheapest(results: &Vec<PriceResult>) -> (r: Result<Quote, PSMError>)
    ensures
        (forall|j: int| 0 <= j < results@.len() ==> (#[trigger] results@[j]).price is None) <==> r
            is Err,
        r is Err ==> r == Err::<Quote, PSMError>(PSMError::NoAvailableInstance),
        r matches Ok(q) ==> exists|k: int|
            is_cheapest_at(results@, k) && quote_of(results@[k]) == (
                q.price,
                q.region,
                q.zone@,
                q.instance_type,
            ),
{
    let mut best: Option<usize> = None;
    let mut i: usize = 0;
    while i < results.len()
        invariant
            i <= results.len(),
            match best {
                None => forall|j: int| 0 <= j < i ==> (#[trigger] results@[j]).price is None,
                Some(b) => b < i && is_cheapest_at(results@.subrange(0, i as int), b as int),
            },
        decreases results.len() - i,
    {
        let ghost pre = results@.subrange(0, i as int);
        let ghost post = results@.subrange(0, i + 1);
        assert(forall|j: int| 0 <= j < i ==> post[j] == pre[j]);
        match &results[i].price {
            Some(p) => {
                let take = match best {
                    None => true,
                    Some(b) => match &results[b].price {
                        Some(bp) => p.instance_price < bp.instance_price,
                        None => false,
                    },
                };
                if take {
                    best = Some(i);
                    proof {
                        assert forall|j: int|
                            0 <= j < post.len() && (#[trigger] post[j]).price is Some implies post[i as int].price->0.instance_price
                            <= post[j].price->0.instance_price by {
                            if j < i {
                                assert(pre[j] == post[j]);
                            }
                        }
                    }
                    assert(is_cheapest_at(post, i as int));
                } else {
                    proof {
                        let b = best->0;
                        assert(pre[b as int] == post[b as int]);
                        assert forall|j: int|
                            0 <= j < post.len() && (#[trigger] post[j]).price is Some implies post[b as int].price->0.instance_price
                            <= post[j].price->0.instance_price by {
                            if j < i {
                                assert(pre[j] == post[j]);
                            }
                        }
                        assert forall|j: int|
                            0 <= j < b && (#[trigger] post[j]).price is Some implies post[b as int].price->0.instance_price
                            < post[j].price->0.instance_price by {
                            assert(pre[j] == post[j]);
                        }
                    }
                }
            },
            None => {
                proof {
                    if let Some(b) = best {
                        assert(pre[b as int] == post[b as int]);
                        assert forall|j: int|
                            0 <= j < post.len() && (#[trigger] post[j]).price is Some implies post[b as int].price->0.instance_price
                            <= post[j].price->0.instance_price by {
                            if j < i {
                                assert(pre[j] == post[j]);
                            }
                        }
                        assert forall|j: int|
                            0 <= j < b && (#[trigger] post[j]).price is Some implies post[b as int].price->0.instance_price
                            < post[j].price->0.instance_price by {
                            assert(pre[j] == post[j]);
                        }
                    }
                }
            },
        }
        i = i + 1;
    }
    assert(results@.subrange(0, i as int) =~= results@);
    match best {
        None => Err(PSMError::NoAvailableInstance),
        Some(b) => {
            let r = &results[b];
            let price = match r.price {
                Some(p) => p,
                None => {
                    assert(false);
                    Price { instance_price: 0, bandwidth_price: 0 }
                },
            };
            let q = Quote {
                price,
                region: r.query.region,
                zone: r.query.zone.clone(),
                instance_type: r.query.instance_type,
            };
            assert(is_cheapest_at(results@, b as int));
            assert(results@[b as int].price is Some);
            Ok(q)
        },
    }
}

/// What the provider reports of one instance.
#[derive(Debug, Clone, PartialEq, Eq)]
pub struct InstanceStatus {
    pub instance_id: String,
    /// Whether the instance is in the running state.
    pub running: bool,
    pub public_ips: Option<Vec<String>>,
}

/// `k` is the first running instance with id `id`.
pub open spec fn is_first_running(insts: Seq<InstanceStatus>, id: Seq<char>, k: int) -> bool {
    &&& 0 <= k < insts.len()
    &&& insts[k].instance_id@ == id && insts[k].running
    &&& forall|j: int| 0 <= j < k ==> !((#[trigger] insts[j]).instance_id@ == id && insts[j].running)
}

/// Position of the first running instance with id `id`.
pub open spec fn running_index(insts: Seq<InstanceStatus>, id: Seq<char>) -> Option<int> {
    if exists|k: int| is_first_running(insts, id, k) {
        Some(choose|k: int| is_first_running(insts, id, k))
    } else {
        None
    }
}

proof fn lemma_running_index_is(insts: Seq<InstanceStatus>, id: Seq<char>, k: int)
    requires
        is_first_running(insts, id, k),
    ensures
        running_index(insts, id) == Some(k),
{
    let c = choose|c: int| is_first_running(insts, id, c);
    assert(is_first_running(insts, id, c));
    if c < k {
        assert(!(insts[c].instance_id@ == id && insts[c].running));
    } else if k < c {
        assert(!(insts[k].instance_id@ == id && insts[k].running));
    }
}

/// How long and how often to wait for a new instance's address.
#[derive(Debug, Clone, Copy, PartialEq, Eq, Structural)]
pub struct PollPolicy {
    pub timeout_secs: u64,
    pub interval_secs: u64,
}

impl PollPolicy {
    /// Give a new instance a minute (62 s) to report an address, asking every 5 s.
    pub fn instance_ready() -> (r: PollPolicy)
        ensures
            r.timeout_secs == 62 && r.interval_secs == 5,
    {
        PollPolicy { timeout_secs: 62, interval_secs: 5 }
    }
}

/// What to do after one description of a region's instances.
#[derive(Debug, Clone, PartialEq, Eq)]
pub enum AddressPoll {
    /// The instance runs at this public address.
    Ready(String),
    /// Stop waiting: the instance has no address, or time is up.
    Failed(PSMError),
    /// Ask again after this many seconds.
    Wait(u64),
}

/// The decision after describing the instances, `elapsed_secs` after the
/// wait began: the first public address of the first running instance with
/// that id; `NoPublicAddress` when it has none; otherwise `Timeout` once the
/// policy's timeout has passed, else wait one interval.
pub open spec fn poll_spec(
    insts: Seq<InstanceStatus>,
    id: Seq<char>,
    elapsed_secs: u64,
    policy: PollPolicy,
    r: AddressPoll,
) -> bool {
    match running_index(insts, id) {
        Some(k) => match insts[k].public_ips {
            Some(ips) if ips@.len() > 0 => r matches AddressPoll::Ready(a) && a@ == ips@[0]@,
            _ => r == AddressPoll::Failed(PSMError::NoPublicAddress),
        },
        None => if elapsed_secs >= policy.timeout_secs {
            r == AddressPoll::Failed(PSMError::Timeout)
        } else {
            r == AddressPoll::Wait(policy.interval_secs)
        },
    }
}

/// One step of waiting for a new instance's address (see `poll_spec`).
pub fn poll_address(
    instances: &Vec<InstanceStatus>,
    instance_id: &str,
    elapsed_secs: u64,
    policy: &PollPolicy,
) -> (r: AddressPoll)
    ensures
        poll_spec(instances@, instance_id@, elapsed_secs, *policy, r),
{
    let mut k: usize = 0;
    while k < instances.len()
        invariant
            k <= instances.len(),
            forall|j: int|
                0 <= j < k ==> !((#[trigger] instances@[j]).instance_id@ == instance_id@
                    && instances@[j].running),
        decreases instances.len() - k,
    {
        let inst = &instances[k];
        if inst.running && same_text(inst.instance_id.as_str(), instance_id) {
            proof {
                lemma_running_index_is(instances@, instance_id@, k as int);
            }
            return match &inst.public_ips {
                Some(ips) => {
                    if ips.len() > 0 {
                        AddressPoll::Ready(ips[0].clone())
                    } else {
                        AddressPoll::Failed(PSMError::NoPublicAddress)
                    }
                },
                None => AddressPoll::Failed(PSMError::NoPublicAddress),
            };
        }
        k = k + 1;
    }
    assert(!exists|j: int| is_first_running(instances@, instance_id@, j));
    if elapsed_secs >= policy.timeout_secs {
        AddressPoll::Failed(PSMError::Timeout)
    } else {
        AddressPoll::Wait(policy.interval_secs)
    }
}

/// A security group as the provider lists it.
#[derive(Debug, Clone, PartialEq, Eq)]
pub struct SecurityGroup {
    pub security_group_id: String,
    pub security_group_name: String,
}

/// The tag that marks the security groups of this workload.
pub open spec fn workload_tag() -> Seq<char> {
    "palworld"@
}

/// Ids of the groups whose name holds the workload tag (ignoring ASCII
/// case), in listing order.
pub open spec fn tagged_group_ids(groups: Seq<SecurityGroup>) -> Seq<Seq<char>>
    decreases groups.len(),
{
    if groups.len() == 0 {
        Seq::empty()
    } else {
        let prev = tagged_group_ids(groups.drop_last());
        if contains_ci(groups.last().security_group_name@, workload_tag()) {
            prev.push(groups.last().security_group_id@)
        } else {
            prev
        }
    }
}

/// Ids of the security groups tagged for this workload (see `tagged_group_ids`).
pub fn workload_security_groups(groups: &Vec<SecurityGroup>) -> (r: Vec<String>)
    ensures
        r@.map_values(|s: String| s@) == tagged_group_ids(groups@),
{
    let mut out: Vec<String> = Vec::new();
    let mut i: usize = 0;
    while i < groups.len()
        invariant
            i <= groups.len(),
            out@.map_values(|s: String| s@) == tagged_group_ids(groups@.subrange(0, i as int)),
        decreases groups.len() - i,
    {
        let g = &groups[i];
        assert(groups@.subrange(0, i + 1).drop_last() =~= groups@.subrange(0, i as int));
        if find_ignore_case(g.security_group_name.as_str(), "palworld") {
            let ghost old_out = out@;
            let id = g.security_group_id.clone();
            let ghost idv = id@;
            out.push(id);
            assert(out@.map_values(|s: String| s@) =~= old_out.map_values(|s: String| s@).push(
                idv,
            ));
        }
        i = i + 1;
    }
    assert(groups@.subrange(0, i as int) =~= groups@);
    out
}

} // verus!
