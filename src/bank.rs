use vstd::prelude::*;
use arrayvec::ArrayVec;
use crate::kinds::FilterOrder;

verus! {

/// Room for one-pole sections in one pass: the low-pass and the high-pass band.
pub const MAX_ONE_POLE_FILTERS: usize = 2;
/// Room for second-order sections in one pass over a block.
pub const MAX_SVF_FILTERS: usize = 8;
/// The owner of the low-pass band's sections in a route.
pub const LOW_PASS_OWNER: usize = 0;
/// The owner of the high-pass band's sections in a route.
pub const HIGH_PASS_OWNER: usize = 1;
/// Peaking band `i` owns its section as owner `PEAK_OWNER_BASE + i`.
pub const PEAK_OWNER_BASE: usize = 2;

#[verifier::external_type_specification]
#[verifier::external_body]
#[verifier::reject_recursive_types(T)]
pub struct ExArrayVec<T, const CAP: usize>(ArrayVec<T, CAP>);

/// The routes an `ArrayVec` holds, in order: each is `(owner, section)`.
pub uninterp spec fn routes(v: ArrayVec<(usize, usize), MAX_SVF_FILTERS>) -> Seq<(usize, usize)>;

/// Relies on `ArrayVec::new`: a new vector is empty.
#[verifier::external_body]
fn new_routes() -> (r: ArrayVec<(usize, usize), MAX_SVF_FILTERS>)
    ensures
        routes(r) == Seq::<(usize, usize)>::empty(),
{
    ArrayVec::new()
}

/// Relies on `ArrayVec::push`: below capacity it appends the element.
#[verifier::external_body]
fn push_route(v: &mut ArrayVec<(usize, usize), MAX_SVF_FILTERS>, route: (usize, usize))
    requires
        routes(*old(v)).len() < MAX_SVF_FILTERS,
    ensures
        routes(*final(v)) == routes(*old(v)).push(route),
{
    v.push(route)
}

/// The low-pass or high-pass band of the fixed equalizer, as far as routing
/// is concerned.
#[derive(PartialEq, Eq, Structural, Debug, Clone, Copy)]
pub struct PassBand {
    pub enabled: bool,
    pub order: FilterOrder,
}

/// The second-order sections of an order: none for the one-pole order, one
/// per pole pair otherwise.
pub open spec fn svf_sections(order: FilterOrder) -> nat {
    match order {
        FilterOrder::X1 => 0,
        FilterOrder::X2 => 1,
        FilterOrder::X4 => 2,
        FilterOrder::X6 => 3,
        FilterOrder::X8 => 4,
    }
}

impl FilterOrder {
    /// The number of second-order sections this order runs.
    pub fn svf_sections(&self) -> (r: usize)
        ensures
            r == svf_sections(*self),
    {
        match self {
            FilterOrder::X1 => 0,
            FilterOrder::X2 => 1,
            FilterOrder::X4 => 2,
            FilterOrder::X6 => 3,
            FilterOrder::X8 => 4,
        }
    }
}

/// The second-order routes of a pass band: its sections in order, if enabled.
pub open spec fn pass_svf_routes(owner: usize, p: PassBand) -> Seq<(usize, usize)> {
    if p.enabled {
        Seq::new(svf_sections(p.order), |s: int| (owner, s as usize))
    } else {
        Seq::empty()
    }
}

/// The one-pole route of a pass band: its one section, if enabled at order one.
pub open spec fn pass_pole_routes(owner: usize, p: PassBand) -> Seq<(usize, usize)> {
    if p.enabled && p.order == FilterOrder::X1 {
        seq![(owner, 0usize)]
    } else {
        Seq::empty()
    }
}

/// The routes of the peaking bands: the one section of each enabled band, in
/// band order.
pub open spec fn peak_routes(enabled: Seq<bool>) -> Seq<(usize, usize)>
    decreases enabled.len(),
{
    if enabled.len() == 0 {
        Seq::empty()
    } else {
        let rest = peak_routes(enabled.drop_last());
        if enabled.last() {
            rest.push(((PEAK_OWNER_BASE + enabled.len() - 1) as usize, 0usize))
        } else {
            rest
        }
    }
}

/// The one-pole sections of a pass, in processing order.
pub open spec fn pole_plan(lp: PassBand, hp: PassBand) -> Seq<(usize, usize)> {
    pass_pole_routes(LOW_PASS_OWNER, lp) + pass_pole_routes(HIGH_PASS_OWNER, hp)
}

/// The second-order sections of a pass, in processing order: low-pass,
/// high-pass, then the enabled peaking bands.
pub open spec fn svf_plan(lp: PassBand, hp: PassBand, enabled: Seq<bool>) -> Seq<(usize, usize)> {
    pass_svf_routes(LOW_PASS_OWNER, lp) + pass_svf_routes(HIGH_PASS_OWNER, hp) + peak_routes(
        enabled,
    )
}

/// Every route of the peaking bands names section 0 of a band in range, and
/// the owners strictly increase.
proof fn lemma_peak_routes_ordered(enabled: Seq<bool>)
    requires
        PEAK_OWNER_BASE + enabled.len() <= usize::MAX,
    ensures
        peak_routes(enabled).len() <= enabled.len(),
        forall|j: int|
            0 <= j < peak_routes(enabled).len() ==> {
                &&& PEAK_OWNER_BASE <= (#[trigger] peak_routes(enabled)[j]).0 < PEAK_OWNER_BASE
                    + enabled.len()
                &&& peak_routes(enabled)[j].1 == 0
            },
        forall|j: int, k: int|
            0 <= j < k < peak_routes(enabled).len() ==> (#[trigger] peak_routes(enabled)[j]).0
                < (#[trigger] peak_routes(enabled)[k]).0,
    decreases enabled.len(),
{
    if enabled.len() > 0 {
        let rest = peak_routes(enabled.drop_last());
        lemma_peak_routes_ordered(enabled.drop_last());
        if enabled.last() {
            let last = ((PEAK_OWNER_BASE + enabled.len() - 1) as usize, 0usize);
            let all = rest.push(last);
            assert(peak_routes(enabled) == all);
            assert forall|j: int| 0 <= j < all.len() implies #[trigger] all[j] == if j < rest.len() {
                rest[j]
            } else {
                last
            } by {}
        }
    }
}

/// No section is routed twice, so scattering the processed registers back
/// writes each section exactly once.
pub proof fn lemma_routes_distinct(lp: PassBand, hp: PassBand, enabled: Seq<bool>)
    requires
        PEAK_OWNER_BASE + enabled.len() <= usize::MAX,
    ensures
        svf_plan(lp, hp, enabled).no_duplicates(),
        pole_plan(lp, hp).no_duplicates(),
        pole_plan(lp, hp).len() <= MAX_ONE_POLE_FILTERS,
{
    lemma_peak_routes_ordered(enabled);
    let a = pass_svf_routes(LOW_PASS_OWNER, lp);
    let b = pass_svf_routes(HIGH_PASS_OWNER, hp);
    let c = peak_routes(enabled);
    let s = svf_plan(lp, hp, enabled);
    assert forall|j: int, k: int| 0 <= j < s.len() && 0 <= k < s.len() && j != k implies s[j]
        != s[k] by {
        if j < a.len() {
            assert(s[j] == a[j]);
        } else if j < a.len() + b.len() {
            assert(s[j] == b[j - a.len()]);
        } else {
            assert(s[j] == c[j - a.len() - b.len()]);
        }
        if k < a.len() {
            assert(s[k] == a[k]);
        } else if k < a.len() + b.len() {
            assert(s[k] == b[k - a.len()]);
        } else {
            assert(s[k] == c[k - a.len() - b.len()]);
        }
        if j >= a.len() + b.len() && k >= a.len() + b.len() {
            if j < k {
                assert(c[j - a.len() - b.len()].0 < c[k - a.len() - b.len()].0);
            } else {
                assert(c[k - a.len() - b.len()].0 < c[j - a.len() - b.len()].0);
            }
        }
    }
}

/// The routes of the first `i + 1` bands extend those of the first `i` by
/// band `i`'s section when it is enabled.
proof fn lemma_peak_take_step(enabled: Seq<bool>, i: int)
    requires
        0 <= i < enabled.len(),
    ensures
        peak_routes(enabled.take(i + 1)) == if enabled[i] {
            peak_routes(enabled.take(i)).push(((PEAK_OWNER_BASE + i) as usize, 0usize))
        } else {
            peak_routes(enabled.take(i))
        },
{
    assert(enabled.take(i + 1).drop_last() =~= enabled.take(i));
}

/// The bands of a prefix never route more sections than all the bands.
proof fn lemma_peak_prefix_len(enabled: Seq<bool>, i: int)
    requires
        0 <= i <= enabled.len(),
    ensures
        peak_routes(enabled.take(i)).len() <= peak_routes(enabled).len(),
    decreases enabled.len(),
{
    if i == enabled.len() {
        assert(enabled.take(i) =~= enabled);
    } else {
        assert(enabled.take(i) =~= enabled.drop_last().take(i));
        lemma_peak_prefix_len(enabled.drop_last(), i);
    }
}

/// Whether one pass over these bands fits the fixed lists. This is checked
/// when the equalizer is configured, never while a block is processed.
pub fn fits_capacity(lp: PassBand, hp: PassBand, enabled: &Vec<bool>) -> (r: bool)
    ensures
        r == (svf_plan(lp, hp, enabled@).len() <= MAX_SVF_FILTERS),
{
    let lp_n: usize = if lp.enabled { lp.order.svf_sections() } else { 0 };
    let hp_n: usize = if hp.enabled { hp.order.svf_sections() } else { 0 };
    let room: usize = MAX_SVF_FILTERS - lp_n - hp_n;
    let mut count: usize = 0;
    let mut i: usize = 0;
    while i < enabled.len()
        invariant
            i <= enabled@.len(),
            count == peak_routes(enabled@.take(i as int)).len(),
            count <= i,
        decreases enabled@.len() - i,
    {
        proof {
            lemma_peak_take_step(enabled@, i as int);
        }
        if enabled[i] {
            count = count + 1;
        }
        i = i + 1;
    }
    assert(enabled@.take(i as int) =~= enabled@);
    count <= room
}

/// Appends the second-order sections of a pass band, in order.
fn push_pass_sections(owner: usize, p: PassBand, list: &mut ArrayVec<(usize, usize), MAX_SVF_FILTERS>)
    requires
        routes(*old(list)).len() + pass_svf_routes(owner, p).len() <= MAX_SVF_FILTERS,
    ensures
        routes(*final(list)) == routes(*old(list)) + pass_svf_routes(owner, p),
{
    if !p.enabled {
        assert(routes(*list) + pass_svf_routes(owner, p) =~= routes(*list));
        return;
    }
    let n = p.order.svf_sections();
    let mut s: usize = 0;
    while s < n
        invariant
            s <= n,
            n == svf_sections(p.order),
            p.enabled,
            routes(*old(list)).len() + n <= MAX_SVF_FILTERS,
            routes(*list) == routes(*old(list)) + Seq::new(s as nat, |k: int| (owner, k as usize)),
        decreases n - s,
    {
        push_route(list, (owner, s));
        assert(Seq::new(s as nat, |k: int| (owner, k as usize)).push((owner, s)) =~= Seq::new(
            (s + 1) as nat,
            |k: int| (owner, k as usize),
        ));
        s = s + 1;
    }
}

/// Flattens the active sections of a pass into the two fixed lists: the
/// one-pole sections of the pass bands, and the second-order sections of the
/// low-pass, the high-pass and each enabled peaking band, in that order.
/// Each route is `(owner, section)`; the registers a pass leaves go back to
/// their sections by the same routes.
pub fn gather_routes(lp: PassBand, hp: PassBand, enabled: &Vec<bool>) -> (r: (
    ArrayVec<(usize, usize), MAX_SVF_FILTERS>,
    ArrayVec<(usize, usize), MAX_SVF_FILTERS>,
))
    requires
        svf_plan(lp, hp, enabled@).len() <= MAX_SVF_FILTERS,
        PEAK_OWNER_BASE + enabled@.len() <= usize::MAX,
    ensures
        routes(r.0) == pole_plan(lp, hp),
        routes(r.1) == svf_plan(lp, hp, enabled@),
        routes(r.0).len() <= MAX_ONE_POLE_FILTERS,
        routes(r.0).no_duplicates(),
        routes(r.1).no_duplicates(),
{
    proof {
        lemma_routes_distinct(lp, hp, enabled@);
    }
    let mut poles = new_routes();
    if lp.enabled && lp.order == FilterOrder::X1 {
        push_route(&mut poles, (LOW_PASS_OWNER, 0));
    }
    if hp.enabled && hp.order == FilterOrder::X1 {
        push_route(&mut poles, (HIGH_PASS_OWNER, 0));
    }
    assert(routes(poles) =~= pole_plan(lp, hp));
    let mut svf = new_routes();
    push_pass_sections(LOW_PASS_OWNER, lp, &mut svf);
    push_pass_sections(HIGH_PASS_OWNER, hp, &mut svf);
    let ghost head = routes(svf);
    assert(enabled@.take(0) =~= Seq::<bool>::empty());
    let mut i: usize = 0;
    while i < enabled.len()
        invariant
            i <= enabled@.len(),
            PEAK_OWNER_BASE + enabled@.len() <= usize::MAX,
            head == pass_svf_routes(LOW_PASS_OWNER, lp) + pass_svf_routes(HIGH_PASS_OWNER, hp),
            head.len() + peak_routes(enabled@).len() <= MAX_SVF_FILTERS,
            routes(svf) == head + peak_routes(enabled@.take(i as int)),
        decreases enabled@.len() - i,
    {
        proof {
            lemma_peak_take_step(enabled@, i as int);
            lemma_peak_prefix_len(enabled@, i as int + 1);
        }
        if enabled[i] {
            push_route(&mut svf, (PEAK_OWNER_BASE + i, 0));
        }
        i = i + 1;
    }
    assert(enabled@.take(i as int) =~= enabled@);
    (poles, svf)
}

} // verus!
