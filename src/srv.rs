use vstd::prelude::*;

verus! {

/// One candidate endpoint of a service, as an SRV answer gives it.
#[derive(Clone, Debug)]
pub struct SrvRecord {
    pub target: String,
    pub port: u16,
    pub priority: u16,
    pub weight: u16,
}

/// The weight used for selection: a weight of 0 counts as the smallest
/// weight that can still be chosen.
pub open spec fn effective_weight(w: u16) -> nat {
    if w == 0 {
        1
    } else {
        w as nat
    }
}

/// `p` is the lowest priority among the records.
pub open spec fn is_lowest_priority(rs: Seq<SrvRecord>, p: u16) -> bool {
    &&& exists|i: int| 0 <= i < rs.len() && #[trigger] rs[i].priority == p
    &&& forall|j: int| 0 <= j < rs.len() ==> p <= #[trigger] rs[j].priority
}

/// The summed effective weight of the records of priority `p` among the first `k`.
pub open spec fn band_weight(rs: Seq<SrvRecord>, p: u16, k: int) -> nat
    decreases k,
{
    if k <= 0 {
        0
    } else {
        band_weight(rs, p, k - 1) + if rs[k - 1].priority == p {
            effective_weight(rs[k - 1].weight)
        } else {
            0
        }
    }
}

/// Record `i` is the one selected by the random value `draw`: it has the
/// lowest priority, and `draw`, reduced modulo the summed weight of that
/// priority, falls in the slice of the weight line that record `i` covers.
pub open spec fn selects(rs: Seq<SrvRecord>, draw: u64, i: int) -> bool {
    let p = rs[i].priority;
    let total = band_weight(rs, p, rs.len() as int);
    &&& 0 <= i < rs.len()
    &&& is_lowest_priority(rs, p)
    &&& band_weight(rs, p, i) <= (draw as nat) % total < band_weight(rs, p, i) + effective_weight(
        rs[i].weight,
    )
}

proof fn lemma_band_monotone(rs: Seq<SrvRecord>, p: u16, a: int, b: int)
    requires
        0 <= a <= b <= rs.len(),
    ensures
        band_weight(rs, p, a) <= band_weight(rs, p, b),
    decreases b - a,
{
    if a < b {
        lemma_band_monotone(rs, p, a, b - 1);
    }
}

proof fn lemma_band_bound(rs: Seq<SrvRecord>, p: u16, k: int)
    requires
        0 <= k <= rs.len(),
    ensures
        band_weight(rs, p, k) <= 65535 * k,
    decreases k,
{
    if k > 0 {
        lemma_band_bound(rs, p, k - 1);
    }
}

proof fn lemma_band_positive(rs: Seq<SrvRecord>, p: u16, i: int)
    requires
        0 <= i < rs.len(),
        rs[i].priority == p,
    ensures
        band_weight(rs, p, rs.len() as int) >= band_weight(rs, p, i) + effective_weight(rs[i].weight),
        band_weight(rs, p, rs.len() as int) > 0,
{
    lemma_band_monotone(rs, p, i + 1, rs.len() as int);
}

/// At most one record is selected by a given random value.
pub proof fn lemma_selection_unique(rs: Seq<SrvRecord>, draw: u64, i: int, k: int)
    requires
        selects(rs, draw, i),
        selects(rs, draw, k),
    ensures
        i == k,
{
    let p = rs[i].priority;
    assert(rs[k].priority == p);
    if i < k {
        lemma_band_monotone(rs, p, i + 1, k);
    } else if k < i {
        lemma_band_monotone(rs, p, k + 1, i);
    }
}

/// A record of a priority other than the lowest is never selected, whatever
/// the random value.
pub proof fn lemma_lowest_priority_wins(rs: Seq<SrvRecord>, draw: u64, i: int)
    requires
        selects(rs, draw, i),
    ensures
        forall|j: int| 0 <= j < rs.len() ==> rs[i].priority <= #[trigger] rs[j].priority,
{
}

/// Weighted choice among the lowest priority: the random values below the
/// summed weight that select a record of that priority are exactly a run as
/// long as its effective weight, so over uniformly drawn values each record is
/// chosen in proportion to its weight.
pub proof fn lemma_weighted_share(rs: Seq<SrvRecord>, i: int, draw: u64)
    requires
        0 <= i < rs.len(),
        is_lowest_priority(rs, rs[i].priority),
        (draw as nat) < band_weight(rs, rs[i].priority, rs.len() as int),
    ensures
        selects(rs, draw, i) <==> band_weight(rs, rs[i].priority, i) <= draw < band_weight(
            rs,
            rs[i].priority,
            i,
        ) + effective_weight(rs[i].weight),
{
    let total = band_weight(rs, rs[i].priority, rs.len() as int);
    vstd::arithmetic::div_mod::lemma_small_mod(draw as nat, total);
}

/// Picks the record to connect to: the lowest priority wins, and among the
/// records of that priority the choice is weighted, driven by `draw`.
pub fn select_srv(records: &Vec<SrvRecord>, draw: u64) -> (r: usize)
    requires
        records.len() > 0,
    ensures
        selects(records@, draw, r as int),
{
    let ghost rs = records@;
    let n = records.len();
    let mut lowest: u16 = records[0].priority;
    let mut i: usize = 1;
    while i < n
        invariant
            n == rs.len(),
            rs == records@,
            1 <= i <= n,
            exists|j: int| 0 <= j < i && #[trigger] rs[j].priority == lowest,
            forall|j: int| 0 <= j < i ==> lowest <= #[trigger] rs[j].priority,
        decreases n - i,
    {
        if records[i].priority < lowest {
            lowest = records[i].priority;
        }
        i = i + 1;
    }
    let mut total: u128 = 0;
    let mut i: usize = 0;
    while i < n
        invariant
            n == rs.len(),
            rs == records@,
            i <= n,
            total == band_weight(rs, lowest, i as int),
        decreases n - i,
    {
        proof {
            lemma_band_bound(rs, lowest, i as int + 1);
            assert(65535 * (i as int + 1) <= 65535 * 0x1_0000_0000_0000_0000) by (nonlinear_arith)
                requires i < 0x1_0000_0000_0000_0000;
        }
        let r = &records[i];
        if r.priority == lowest {
            let w: u128 = if r.weight == 0 { 1 } else { r.weight as u128 };
            total = total + w;
        }
        i = i + 1;
    }
    proof {
        let j = choose|j: int| 0 <= j < n && #[trigger] rs[j].priority == lowest;
        lemma_band_positive(rs, lowest, j);
    }
    let point: u128 = (draw as u128) % total;
    let mut acc: u128 = 0;
    let mut i: usize = 0;
    while i < n
        invariant
            n == rs.len(),
            rs == records@,
            i <= n,
            is_lowest_priority(rs, lowest),
            total == band_weight(rs, lowest, n as int),
            acc == band_weight(rs, lowest, i as int),
            point == (draw as nat) % (total as nat),
            acc <= point,
        decreases n - i,
    {
        let r = &records[i];
        if r.priority == lowest {
            let w: u128 = if r.weight == 0 { 1 } else { r.weight as u128 };
            proof {
                lemma_band_monotone(rs, lowest, i as int + 1, n as int);
            }
            if point < acc + w {
                return i;
            }
            acc = acc + w;
        }
        i = i + 1;
    }
    0
}

} // verus!
