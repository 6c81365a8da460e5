//! Euclidean rhythm patterns.
//!
//! A Euclidean rhythm spreads `pulses` hits over `steps` slots as evenly as
//! pairwise grouping allows. The pattern is stated in closed form by
//! [`euclid_pattern`]; [`EuclideanPattern::generate_pattern`] builds it by
//! repeated pairing and is proved to arrive at exactly that sequence.

use vstd::arithmetic::div_mod::{
    lemma_fundamental_div_mod,
    lemma_fundamental_div_mod_converse_mod,
    lemma_mod_bound,
};
use vstd::prelude::*;

verus! {

/// Rests that every hit is followed by: the rests shared out evenly.
pub open spec fn rest_quota(pulses: int, steps: int) -> int {
    (steps - pulses) / pulses
}

/// Number of leading hits that are followed by one rest more than the quota.
pub open spec fn rest_surplus(pulses: int, steps: int) -> int {
    (steps - pulses) % pulses
}

/// Whether slot `j` is a hit, for `0 < pulses < steps`.
///
/// The pattern is a row of groups, each one hit followed by its rests. The
/// first `rest_surplus` groups are one slot longer than the others, so a
/// slot is a hit exactly where a group begins.
pub open spec fn euclid_hit(pulses: int, steps: int, j: int) -> bool {
    let short = rest_quota(pulses, steps) + 1;
    let long = short + 1;
    let head = rest_surplus(pulses, steps) * long;
    if j < head {
        j % long == 0
    } else {
        (j - head) % short == 0
    }
}

/// The rhythm for `pulses` hits over `steps` slots.
///
/// No pulses gives all rests, at least as many pulses as steps gives all
/// hits, and no steps gives the empty pattern.
pub open spec fn euclid_pattern(pulses: nat, steps: nat) -> Seq<bool> {
    Seq::new(
        steps,
        |j: int| pulses != 0 && (pulses >= steps || euclid_hit(pulses as int, steps as int, j)),
    )
}

/// Number of hits in a pattern.
pub open spec fn count_hits(pattern: Seq<bool>) -> nat
    decreases pattern.len(),
{
    if pattern.len() == 0 {
        0
    } else {
        count_hits(pattern.drop_last()) + if pattern.last() {
            1nat
        } else {
            0nat
        }
    }
}

/// Slot at which group `i` begins.
pub open spec fn group_start(pulses: int, steps: int, i: int) -> int {
    let surplus = rest_surplus(pulses, steps);
    i * (rest_quota(pulses, steps) + 1) + if i < surplus {
        i
    } else {
        surplus
    }
}

/// Number of rests that follow the hit of group `i`.
pub open spec fn group_rests(pulses: int, steps: int, i: int) -> int {
    rest_quota(pulses, steps) + if i < rest_surplus(pulses, steps) {
        1int
    } else {
        0int
    }
}

/// One hit followed by `rests` rests.
pub open spec fn hit_group(rests: int) -> Seq<bool> {
    Seq::new((rests + 1) as nat, |k: int| k == 0)
}

/// A group that holds a single rest.
pub open spec fn rest_group() -> Seq<bool> {
    seq![false]
}

/// The shape of the group list while pairing is under way: `pulses` hit
/// groups, each with `base` rests and the first `extra` of them with one
/// more, followed by `spare` rests that are still unpaired.
pub open spec fn paired(
    groups: Seq<Vec<bool>>,
    pulses: int,
    base: int,
    extra: int,
    spare: int,
) -> bool {
    &&& groups.len() == pulses + spare
    &&& forall|i: int|
        0 <= i < pulses ==> (#[trigger] groups[i])@ == hit_group(
            base + if i < extra {
                1int
            } else {
                0int
            },
        )
    &&& forall|i: int| pulses <= i < pulses + spare ==> (#[trigger] groups[i])@ == rest_group()
}

/// The quota and the surplus are the only way to share the rests out.
pub proof fn lemma_quota_unique(pulses: int, steps: int, base: int, extra: int)
    requires
        0 < pulses < steps,
        0 <= extra < pulses,
        pulses * base + extra == steps - pulses,
    ensures
        base == rest_quota(pulses, steps),
        extra == rest_surplus(pulses, steps),
        base >= 0,
{
    let z = steps - pulses;
    assert(z == base * pulses + extra) by (nonlinear_arith)
        requires
            pulses * base + extra == z,
    ;
    vstd::arithmetic::div_mod::lemma_fundamental_div_mod_converse(z, pulses, base, extra);
    vstd::arithmetic::div_mod::lemma_div_pos_is_pos(z, pulses);
}

/// Group `i` occupies the slots from its start up to the next group's
/// start, and only the first of them is a hit. The last group ends at
/// `steps`.
pub proof fn lemma_group_slots(pulses: int, steps: int, i: int, k: int)
    requires
        0 < pulses < steps,
        0 <= i < pulses,
        0 <= k <= group_rests(pulses, steps, i),
    ensures
        0 <= group_rests(pulses, steps, i),
        0 <= group_start(pulses, steps, i),
        group_start(pulses, steps, i + 1) == group_start(pulses, steps, i) + group_rests(
            pulses,
            steps,
            i,
        ) + 1,
        group_start(pulses, steps, i + 1) <= steps,
        group_start(pulses, steps, pulses) == steps,
        euclid_hit(pulses, steps, group_start(pulses, steps, i) + k) == (k == 0),
{
    let z = steps - pulses;
    let q = rest_quota(pulses, steps);
    let r = rest_surplus(pulses, steps);
    let short = q + 1;
    let long = q + 2;
    let head = r * long;
    lemma_fundamental_div_mod(z, pulses);
    lemma_mod_bound(z, pulses);
    vstd::arithmetic::div_mod::lemma_div_pos_is_pos(z, pulses);
    assert(0 <= r < pulses);
    assert(q >= 0);
    assert(z == pulses * q + r);
    let s = group_start(pulses, steps, i);
    let j = s + k;
    assert(i * short >= 0) by (nonlinear_arith)
        requires
            i >= 0,
            short >= 0,
    ;
    assert((i + 1) * short == i * short + short) by (nonlinear_arith);
    assert(group_start(pulses, steps, pulses) == steps) by {
        assert(pulses * (q + 1) == pulses * q + pulses) by (nonlinear_arith);
    }
    assert(group_start(pulses, steps, i + 1) <= steps) by {
        assert((i + 1) * short <= pulses * short) by (nonlinear_arith)
            requires
                i + 1 <= pulses,
                short >= 0,
        ;
        assert(pulses * short == pulses * q + pulses) by (nonlinear_arith)
            requires
                short == q + 1,
        ;
    }
    if i < r {
        assert(s == i * long) by (nonlinear_arith)
            requires
                s == i * short + i,
                long == short + 1,
        ;
        assert(j < head) by (nonlinear_arith)
            requires
                j == i * long + k,
                k < long,
                i + 1 <= r,
                head == r * long,
                long > 0,
        ;
        lemma_fundamental_div_mod_converse_mod(j, long, i, k);
    } else {
        assert(j - head == (i - r) * short + k) by (nonlinear_arith)
            requires
                j == i * short + r + k,
                head == r * long,
                long == short + 1,
        ;
        assert(j >= head) by (nonlinear_arith)
            requires
                j - head == (i - r) * short + k,
                i >= r,
                short >= 0,
                k >= 0,
        ;
        lemma_fundamental_div_mod_converse_mod(j - head, short, i - r, k);
    }
}

/// With no pulses every slot is a rest.
pub proof fn lemma_no_pulses_all_rests(steps: nat)
    ensures
        euclid_pattern(0, steps).len() == steps,
        forall|j: int| 0 <= j < steps ==> !(#[trigger] euclid_pattern(0, steps)[j]),
{
}

/// With at least as many pulses as steps every slot is a hit.
pub proof fn lemma_full_all_hits(pulses: nat, steps: nat)
    requires
        pulses >= steps,
        pulses > 0,
    ensures
        euclid_pattern(pulses, steps).len() == steps,
        forall|j: int| 0 <= j < steps ==> #[trigger] euclid_pattern(pulses, steps)[j],
{
}

/// Extending a prefix by one slot adds that slot's hit to the count.
pub proof fn lemma_count_step(pattern: Seq<bool>, m: int)
    requires
        0 <= m < pattern.len(),
    ensures
        count_hits(pattern.take(m + 1)) == count_hits(pattern.take(m)) + if pattern[m] {
            1nat
        } else {
            0nat
        },
{
    assert(pattern.take(m + 1).drop_last() =~= pattern.take(m));
}

/// A pattern whose slots all hold the same value counts all or nothing.
pub proof fn lemma_count_uniform(pattern: Seq<bool>, value: bool)
    requires
        forall|j: int| 0 <= j < pattern.len() ==> pattern[j] == value,
    ensures
        count_hits(pattern) == if value {
            pattern.len()
        } else {
            0
        },
    decreases pattern.len(),
{
    if pattern.len() > 0 {
        lemma_count_uniform(pattern.drop_last(), value);
    }
}

/// The slots up to and including slot `k` of group `i` hold `i + 1` hits.
proof fn lemma_hits_through(pulses: int, steps: int, i: int, k: int)
    requires
        0 < pulses < steps,
        0 <= i < pulses,
        0 <= k <= group_rests(pulses, steps, i),
    ensures
        group_start(pulses, steps, i) + k < steps,
        count_hits(
            euclid_pattern(pulses as nat, steps as nat).take(
                group_start(pulses, steps, i) + k + 1,
            ),
        ) == i + 1,
    decreases i, k,
{
    let rhythm = euclid_pattern(pulses as nat, steps as nat);
    let slot = group_start(pulses, steps, i) + k;
    lemma_group_slots(pulses, steps, i, k);
    lemma_count_step(rhythm, slot);
    assert(rhythm[slot] == (k == 0));
    if k > 0 {
        lemma_hits_through(pulses, steps, i, k - 1);
    } else if i > 0 {
        lemma_group_slots(pulses, steps, i - 1, 0);
        lemma_hits_through(pulses, steps, i - 1, group_rests(pulses, steps, i - 1));
    } else {
        lemma_mod_bound(steps - pulses, pulses);
        assert(i * (rest_quota(pulses, steps) + 1) == 0) by (nonlinear_arith)
            requires
                i == 0,
        ;
        assert(rhythm.take(0).len() == 0);
        assert(count_hits(rhythm.take(0)) == 0);
    }
}

/// A rhythm is `steps` slots long and holds exactly `pulses` hits, or
/// `steps` of them where more pulses are asked for than there are steps.
pub proof fn lemma_hit_count(pulses: nat, steps: nat)
    ensures
        euclid_pattern(pulses, steps).len() == steps,
        count_hits(euclid_pattern(pulses, steps)) == if pulses <= steps {
            pulses
        } else {
            steps
        },
{
    let rhythm = euclid_pattern(pulses, steps);
    if pulses == 0 {
        lemma_count_uniform(rhythm, false);
    } else if pulses >= steps {
        lemma_count_uniform(rhythm, true);
    } else {
        let p = pulses as int;
        let n = steps as int;
        let last = group_rests(p, n, p - 1);
        lemma_group_slots(p, n, p - 1, 0);
        lemma_hits_through(p, n, p - 1, last);
        assert(rhythm.take(n) =~= rhythm);
    }
}

/// Euclidean rhythm pattern generator.
///
/// Holds the pattern for its pulse and step counts together with a
/// playback position that cycles through it.
#[derive(Debug, Clone)]
pub struct EuclideanPattern {
    /// Total steps in the pattern
    steps: usize,
    /// Number of pulses (hits)
    pulses: usize,
    /// Current position in the pattern
    position: usize,
    /// Pre-computed pattern
    pattern: Vec<bool>,
}

/// What a pattern generator is, seen from outside.
pub struct PatternState {
    pub steps: nat,
    pub pulses: nat,
    pub position: nat,
}

impl PatternState {
    /// The rhythm being played.
    pub open spec fn rhythm(self) -> Seq<bool> {
        euclid_pattern(self.pulses, self.steps)
    }

    /// The value at the playback position; a rest when there are no steps.
    pub open spec fn current(self) -> bool {
        if self.position < self.steps {
            self.rhythm()[self.position as int]
        } else {
            false
        }
    }

    /// The position after one step: forward by one, wrapping at `steps`.
    pub open spec fn next_position(self) -> nat {
        if self.steps == 0 {
            0
        } else {
            ((self.position + 1) as int % self.steps as int) as nat
        }
    }
}

/// The state after `count` steps of playback.
pub open spec fn after_steps(state: PatternState, count: nat) -> PatternState
    decreases count,
{
    if count == 0 {
        state
    } else {
        let before = after_steps(state, (count - 1) as nat);
        PatternState { position: before.next_position(), ..before }
    }
}

/// Playback walks the pattern in a circle: `count` steps move the
/// position forward by `count` modulo the number of steps.
pub proof fn lemma_playback_advances(state: PatternState, count: nat)
    requires
        state.position < state.steps,
    ensures
        after_steps(state, count).steps == state.steps,
        after_steps(state, count).pulses == state.pulses,
        after_steps(state, count).position == (state.position + count) as int % state.steps as int,
    decreases count,
{
    let n = state.steps as int;
    let p = state.position as int;
    if count == 0 {
        vstd::arithmetic::div_mod::lemma_small_mod(state.position, state.steps);
    } else {
        lemma_playback_advances(state, (count - 1) as nat);
        let before = (p + count - 1) % n;
        lemma_mod_bound(p + count - 1, n);
        vstd::arithmetic::div_mod::lemma_add_mod_noop(p + count - 1, 1, n);
        if n == 1 {
            assert((p + count) % 1 == 0);
            assert((before + 1) % 1 == 0);
        } else {
            vstd::arithmetic::div_mod::lemma_small_mod(1, state.steps);
        }
        assert((before + 1) % n == (p + count) % n);
    }
}

/// After as many steps as the pattern has, playback is back where it was.
pub proof fn lemma_playback_cycles(state: PatternState)
    requires
        state.position < state.steps,
    ensures
        after_steps(state, state.steps) == state,
{
    let n = state.steps as int;
    let p = state.position as int;
    lemma_playback_advances(state, state.steps);
    vstd::arithmetic::div_mod::lemma_mod_add_multiples_vanish(p, n);
    vstd::arithmetic::div_mod::lemma_small_mod(state.position, state.steps);
    assert(n + p == p + n);
}

impl View for EuclideanPattern {
    type V = PatternState;

    closed spec fn view(&self) -> PatternState {
        PatternState {
            steps: self.steps as nat,
            pulses: self.pulses as nat,
            position: self.position as nat,
        }
    }
}

/// Whether a group holds a hit.
fn contains_hit(group: &Vec<bool>) -> (found: bool)
    ensures
        found == group@.contains(true),
{
    let mut k: usize = 0;
    while k < group.len()
        invariant
            k <= group.len(),
            forall|m: int| 0 <= m < k ==> !group@[m],
        decreases group.len() - k,
    {
        if group[k] {
            return true;
        }
        k += 1;
    }
    false
}

/// Copies the groups that hold a hit into one list and the others into a
/// second, keeping their order.
fn split_groups(
    groups: &Vec<Vec<bool>>,
    Ghost(pulses): Ghost<int>,
    Ghost(base): Ghost<int>,
    Ghost(extra): Ghost<int>,
    Ghost(spare): Ghost<int>,
) -> (parts: (Vec<Vec<bool>>, Vec<Vec<bool>>))
    requires
        0 <= pulses,
        0 <= base,
        0 <= spare,
        paired(groups@, pulses, base, extra, spare),
    ensures
        paired(parts.0@, pulses, base, extra, 0),
        paired(parts.1@, 0, 0, 0, spare),
{
    let mut ones: Vec<Vec<bool>> = Vec::new();
    let mut zeros: Vec<Vec<bool>> = Vec::new();
    let mut i: usize = 0;
    while i < groups.len()
        invariant
            0 <= pulses,
            0 <= base,
            0 <= spare,
            i <= groups.len(),
            paired(groups@, pulses, base, extra, spare),
            ones@.len() == if i <= pulses {
                i as int
            } else {
                pulses
            },
            zeros@.len() == i - ones@.len(),
            forall|m: int| 0 <= m < ones@.len() ==> (#[trigger] ones@[m])@ == groups@[m]@,
            forall|m: int| 0 <= m < zeros@.len() ==> (#[trigger] zeros@[m])@ == rest_group(),
        decreases groups.len() - i,
    {
        let group = &groups[i];
        let hit = contains_hit(group);
        proof {
            if i < pulses {
                assert(group@ == hit_group(base + if i < extra { 1int } else { 0int }));
                assert(group@[0] == true);
            } else {
                assert(group@ == rest_group());
                assert(!group@.contains(true));
            }
        }
        let copy = group.clone();
        assert(copy@ =~= group@);
        if hit {
            ones.push(copy);
        } else {
            zeros.push(copy);
        }
        i += 1;
    }
    (ones, zeros)
}

/// Joins each hit group with one spare rest, pair by pair, and appends the
/// groups of the longer list that found no partner.
fn pair_groups(
    ones: &Vec<Vec<bool>>,
    zeros: &Vec<Vec<bool>>,
    Ghost(pulses): Ghost<int>,
    Ghost(base): Ghost<int>,
    Ghost(spare): Ghost<int>,
) -> (joined: Vec<Vec<bool>>)
    requires
        0 < pulses,
        0 <= base,
        0 < spare,
        paired(ones@, pulses, base, 0, 0),
        paired(zeros@, 0, 0, 0, spare),
    ensures
        spare >= pulses ==> paired(joined@, pulses, base + 1, 0, spare - pulses),
        spare < pulses ==> paired(joined@, pulses, base, spare, 0),
{
    let min_len = if ones.len() < zeros.len() {
        ones.len()
    } else {
        zeros.len()
    };
    let mut new_groups: Vec<Vec<bool>> = Vec::new();
    let mut i: usize = 0;
    while i < min_len
        invariant
            i <= min_len,
            min_len <= ones.len(),
            min_len <= zeros.len(),
            0 <= base,
            paired(ones@, pulses, base, 0, 0),
            paired(zeros@, 0, 0, 0, spare),
            new_groups@.len() == i,
            forall|m: int| 0 <= m < i ==> (#[trigger] new_groups@[m])@ == hit_group(base + 1),
        decreases min_len - i,
    {
        let mut merged = ones[i].clone();
        assert(merged@ =~= ones@[i as int]@);
        let rest = &zeros[i];
        merged.extend_from_slice(rest.as_slice());
        assert(merged@ =~= hit_group(base + 1)) by {
            assert(ones@[i as int]@ == hit_group(base));
            assert(zeros@[i as int]@ == rest_group());
        }
        new_groups.push(merged);
        i += 1;
    }
    if ones.len() > zeros.len() {
        let mut m: usize = min_len;
        while m < ones.len()
            invariant
                min_len <= m <= ones.len(),
                min_len == zeros.len(),
                min_len == spare,
                spare < pulses,
                0 <= base,
                paired(ones@, pulses, base, 0, 0),
                new_groups@.len() == m,
                forall|t: int|
                    0 <= t < m ==> (#[trigger] new_groups@[t])@ == hit_group(
                        base + if t < spare {
                            1int
                        } else {
                            0int
                        },
                    ),
            decreases ones.len() - m,
        {
            let copy = ones[m].clone();
            assert(copy@ =~= ones@[m as int]@);
            new_groups.push(copy);
            m += 1;
        }
    } else {
        let mut m: usize = min_len;
        while m < zeros.len()
            invariant
                min_len <= m <= zeros.len(),
                min_len == ones.len(),
                min_len == pulses,
                spare >= pulses,
                paired(zeros@, 0, 0, 0, spare),
                new_groups@.len() == m,
                forall|t: int|
                    0 <= t < pulses ==> (#[trigger] new_groups@[t])@ == hit_group(base + 1),
                forall|t: int| pulses <= t < m ==> (#[trigger] new_groups@[t])@ == rest_group(),
            decreases zeros.len() - m,
        {
            let copy = zeros[m].clone();
            assert(copy@ =~= zeros@[m as int]@);
            new_groups.push(copy);
            m += 1;
        }
    }
    new_groups
}

/// Whether every group is as long as the first.
fn same_length(groups: &Vec<Vec<bool>>) -> (uniform: bool)
    requires
        groups@.len() > 0,
    ensures
        uniform == forall|i: int|
            0 <= i < groups@.len() ==> (#[trigger] groups@[i])@.len() == groups@[0]@.len(),
{
    let first = groups[0].len();
    let mut i: usize = 0;
    while i < groups.len()
        invariant
            i <= groups.len(),
            groups@.len() > 0,
            first == groups@[0]@.len(),
            forall|m: int| 0 <= m < i ==> (#[trigger] groups@[m])@.len() == first,
        decreases groups.len() - i,
    {
        if groups[i].len() != first {
            return false;
        }
        i += 1;
    }
    true
}

impl EuclideanPattern {
    /// The invariant of a pattern generator: the stored pattern is the
    /// rhythm of its counts, and the position lies inside it.
    pub closed spec fn wf(&self) -> bool {
        &&& self.pattern@ == euclid_pattern(self.pulses as nat, self.steps as nat)
        &&& (self.position < self.steps || self.position == 0)
    }

    /// Create a new Euclidean rhythm pattern with `pulses` hits over
    /// `steps` steps, positioned at its start.
    pub fn new(pulses: usize, steps: usize) -> (created: Self)
        ensures
            created.wf(),
            created@ == (PatternState { steps: steps as nat, pulses: pulses as nat, position: 0 }),
    {
        let pattern = Self::generate_pattern(pulses, steps);
        EuclideanPattern { steps, pulses, position: 0, pattern }
    }

    /// Generate the pattern by pairwise grouping.
    ///
    /// Starts from one group per hit and one per rest, then repeatedly
    /// joins a hit group with a spare rest until no rest is left over,
    /// and lays the groups out in a row.
    pub fn generate_pattern(pulses: usize, steps: usize) -> (pattern: Vec<bool>)
        ensures
            pattern@ == euclid_pattern(pulses as nat, steps as nat),
    {
        if steps == 0 {
            let empty: Vec<bool> = Vec::new();
            assert(empty@ =~= euclid_pattern(pulses as nat, steps as nat));
            return empty;
        }
        if pulses == 0 {
            let rests = vec![false; steps];
            assert(rests@ =~= euclid_pattern(pulses as nat, steps as nat));
            return rests;
        }
        if pulses >= steps {
            let hits = vec![true; steps];
            assert(hits@ =~= euclid_pattern(pulses as nat, steps as nat));
            return hits;
        }
        let ghost p = pulses as int;
        let ghost n = steps as int;
        let mut pattern: Vec<bool> = Vec::with_capacity(steps);

        // Start with one group per hit and one per rest.
        let mut groups: Vec<Vec<bool>> = Vec::new();
        let mut seeded: usize = 0;
        while seeded < pulses
            invariant
                seeded <= pulses,
                groups@.len() == seeded,
                forall|i: int| 0 <= i < seeded ==> (#[trigger] groups@[i])@ == hit_group(0),
            decreases pulses - seeded,
        {
            let group = vec![true];
            assert(group@ =~= hit_group(0));
            groups.push(group);
            seeded += 1;
        }
        seeded = 0;
        while seeded < steps - pulses
            invariant
                pulses < steps,
                seeded <= steps - pulses,
                groups@.len() == pulses + seeded,
                forall|i: int| 0 <= i < pulses ==> (#[trigger] groups@[i])@ == hit_group(0),
                forall|i: int|
                    pulses <= i < pulses + seeded ==> (#[trigger] groups@[i])@ == rest_group(),
            decreases steps - pulses - seeded,
        {
            let group = vec![false];
            assert(group@ =~= rest_group());
            groups.push(group);
            seeded += 1;
        }

        // Pair hit groups with spare rests until none is left.
        let ghost mut base: int = 0;
        let ghost mut extra: int = 0;
        let ghost mut spare: int = n - p;
        assert(p * 0 == 0) by (nonlinear_arith);
        while groups.len() > 1
            invariant
                0 < p < n,
                p == pulses,
                0 <= base,
                0 <= extra < p,
                0 <= spare,
                extra > 0 ==> spare == 0,
                p * base + extra + spare == n - p,
                paired(groups@, p, base, extra, spare),
            ensures
                0 <= base,
                0 <= extra < p,
                p * base + extra == n - p,
                paired(groups@, p, base, extra, 0),
            decreases spare,
        {
            let (ones, zeros) = split_groups(
                &groups,
                Ghost(p),
                Ghost(base),
                Ghost(extra),
                Ghost(spare),
            );
            if zeros.is_empty() || ones.is_empty() {
                break ;
            }
            let new_groups = pair_groups(&ones, &zeros, Ghost(p), Ghost(base), Ghost(spare));
            proof {
                if spare >= p {
                    assert(p * (base + 1) == p * base + p) by (nonlinear_arith);
                    base = base + 1;
                    spare = spare - p;
                } else {
                    extra = spare;
                    spare = 0;
                }
            }
            groups = new_groups;

            // Stop once the groups are even and no rest is left to share out.
            if same_length(&groups) && groups.len() <= pulses {
                break ;
            }
        }

        // Lay the groups out in a row.
        proof {
            lemma_quota_unique(p, n, base, extra);
        }
        let mut laid: usize = 0;
        while laid < groups.len()
            invariant
                0 < p < n,
                p == pulses,
                n == steps,
                base == rest_quota(p, n),
                extra == rest_surplus(p, n),
                paired(groups@, p, base, extra, 0),
                laid <= groups.len(),
                pattern@.len() == group_start(p, n, laid as int),
                pattern@.len() <= n,
                forall|j: int| 0 <= j < pattern@.len() ==> pattern@[j] == euclid_hit(p, n, j),
            decreases groups.len() - laid,
        {
            let group = &groups[laid];
            let ghost before = pattern@;
            pattern.extend_from_slice(group.as_slice());
            proof {
                let i = laid as int;
                lemma_group_slots(p, n, i, 0);
                assert(group@ == hit_group(group_rests(p, n, i)));
                assert forall|j: int| 0 <= j < pattern@.len() implies pattern@[j] == euclid_hit(
                    p,
                    n,
                    j,
                ) by {
                    if j >= before.len() {
                        let k = j - before.len();
                        lemma_group_slots(p, n, i, k);
                        assert(group@[k] == (k == 0));
                    }
                }
            }
            laid += 1;
        }
        proof {
            lemma_group_slots(p, n, 0, 0);
        }

        // The row is `steps` long already; cut or fill with rests otherwise.
        pattern.truncate(steps);
        while pattern.len() < steps
            invariant
                pattern@.len() == steps,
                forall|j: int| 0 <= j < pattern@.len() ==> pattern@[j] == euclid_hit(p, n, j),
            decreases steps - pattern.len(),
        {
            pattern.push(false);
        }
        assert(pattern@ =~= euclid_pattern(pulses as nat, steps as nat));
        pattern
    }

    /// Get the current step value (true = hit, false = rest).
    pub fn current(&self) -> (hit: bool)
        requires
            self.wf(),
        ensures
            hit == self@.current(),
    {
        if self.position < self.pattern.len() {
            self.pattern[self.position]
        } else {
            false
        }
    }

    /// Advance to the next step and return whether the step left behind
    /// was a hit.
    pub fn advance(&mut self) -> (hit: bool)
        requires
            old(self).wf(),
        ensures
            final(self).wf(),
            hit == old(self)@.current(),
            final(self)@ == (PatternState { position: old(self)@.next_position(), ..old(self)@ }),
    {
        let value = self.current();
        let modulus: usize = if self.steps > 1 {
            self.steps
        } else {
            1
        };
        self.position = (self.position + 1) % modulus;
        value
    }

    /// Reset to the beginning of the pattern.
    pub fn reset(&mut self)
        requires
            old(self).wf(),
        ensures
            final(self).wf(),
            final(self)@ == (PatternState { position: 0, ..old(self)@ }),
    {
        self.position = 0;
    }

    /// Change the number of pulses. The pattern is generated anew, from
    /// its start, only if the number differs from the present one.
    pub fn set_pulses(&mut self, pulses: usize) -> (changed: bool)
        requires
            old(self).wf(),
        ensures
            final(self).wf(),
            changed == (pulses != old(self)@.pulses),
            changed ==> final(self)@ == (PatternState {
                pulses: pulses as nat,
                position: 0,
                ..old(self)@
            }),
            !changed ==> final(self)@ == old(self)@,
    {
        if pulses != self.pulses {
            self.pattern = Self::generate_pattern(pulses, self.steps);
            self.pulses = pulses;
            self.position = 0;
            true
        } else {
            false
        }
    }

    /// Get the full pattern as a slice.
    pub fn pattern(&self) -> (slots: &[bool])
        requires
            self.wf(),
        ensures
            slots@ == self@.rhythm(),
    {
        self.pattern.as_slice()
    }

    /// Get the number of steps.
    pub fn steps(&self) -> (steps: usize)
        ensures
            steps == self@.steps,
    {
        self.steps
    }

    /// Get the number of pulses.
    pub fn pulses(&self) -> (pulses: usize)
        ensures
            pulses == self@.pulses,
    {
        self.pulses
    }

    /// Get the playback position.
    pub fn position(&self) -> (position: usize)
        ensures
            position == self@.position,
    {
        self.position
    }
}

} // verus!

