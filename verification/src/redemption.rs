//! Redeeming won positions, each once.

use vstd::hash_set::StringHashSet;
use vstd::prelude::*;

use crate::num::{num, Num, ZERO};

verus! {

/// The bits of 0.01: positions worth no more are not worth a transaction.
pub const DUST: u64 = 0x3F84_7AE1_47AE_147B;

/// A position that the market's resolution lets go.
#[derive(Clone, Debug)]
pub struct RedeemablePosition {
    pub proxy_wallet: String,
    pub asset: String,
    pub condition_id: String,
    pub size: Num,
    pub current_value: Num,
    pub redeemable: bool,
    pub title: String,
    pub outcome: String,
    pub outcome_index: i64,
}

impl RedeemablePosition {
    /// Worth redeeming.
    pub open spec fn winning(self) -> bool {
        self.current_value.gt(num(DUST))
    }

    /// There is something to redeem.
    pub fn is_held(&self) -> (r: bool)
        ensures
            r == (self.redeemable && self.size.gt(num(ZERO))),
    {
        self.redeemable && self.size.gt(num(ZERO))
    }
}

/// Splits positions into those worth redeeming and the rest.
pub fn classify(positions: &Vec<RedeemablePosition>) -> (r: (
    Vec<&RedeemablePosition>,
    Vec<&RedeemablePosition>,
))
    ensures
        r.0@.map_values(|p: &RedeemablePosition| *p) == positions@.filter(
            |p: RedeemablePosition| p.winning(),
        ),
        r.1@.map_values(|p: &RedeemablePosition| *p) == positions@.filter(
            |p: RedeemablePosition| !p.winning(),
        ),
{
    let ghost won = |p: RedeemablePosition| p.winning();
    let ghost lost = |p: RedeemablePosition| !p.winning();
    let ghost deref = |p: &RedeemablePosition| *p;
    let mut winning: Vec<&RedeemablePosition> = Vec::new();
    let mut losing: Vec<&RedeemablePosition> = Vec::new();
    let mut i: usize = 0;
    reveal(Seq::filter);
    assert(winning@.map_values(deref) =~= positions@.take(0).filter(won));
    assert(losing@.map_values(deref) =~= positions@.take(0).filter(lost));
    while i < positions.len()
        invariant
            i <= positions@.len(),
            won == (|p: RedeemablePosition| p.winning()),
            lost == (|p: RedeemablePosition| !p.winning()),
            deref == (|p: &RedeemablePosition| *p),
            winning@.map_values(deref) == positions@.take(i as int).filter(won),
            losing@.map_values(deref) == positions@.take(i as int).filter(lost),
        decreases positions@.len() - i,
    {
        let ghost w = winning@;
        let ghost l = losing@;
        let p = &positions[i];
        assert(positions@.take(i + 1).drop_last() =~= positions@.take(i as int));
        reveal(Seq::filter);
        if p.current_value.gt(num(DUST)) {
            winning.push(p);
            assert(winning@.map_values(deref) =~= w.map_values(deref).push(*p));
        } else {
            losing.push(p);
            assert(losing@.map_values(deref) =~= l.map_values(deref).push(*p));
        }
        i = i + 1;
    }
    assert(positions@.take(i as int) =~= positions@);
    (winning, losing)
}

/// Remembers which markets are settled, so that none is redeemed twice.
pub struct RedemptionTracker {
    attempted: StringHashSet,
}

/// The markets that are settled once the worthless positions are written off.
pub open spec fn written_off(
    attempted: Set<Seq<char>>,
    positions: Seq<RedeemablePosition>,
) -> Set<Seq<char>>
    decreases positions.len(),
{
    if positions.len() == 0 {
        attempted
    } else {
        let before = written_off(attempted, positions.drop_last());
        let p = positions.last();
        if !p.winning() && p.condition_id@.len() > 0 {
            before.insert(p.condition_id@)
        } else {
            before
        }
    }
}

/// The position is to be redeemed.
pub open spec fn is_due(attempted: Set<Seq<char>>, p: RedeemablePosition) -> bool {
    p.winning() && p.condition_id@.len() > 0 && !attempted.contains(p.condition_id@)
}

/// The settled markets after the positions were gone through, and how many were redeemed,
/// where `outcomes` says what redeeming each of them would give.
pub open spec fn redeemed(
    attempted: Set<Seq<char>>,
    positions: Seq<RedeemablePosition>,
    outcomes: Seq<bool>,
) -> (Set<Seq<char>>, nat)
    decreases positions.len(),
{
    if positions.len() == 0 {
        (attempted, 0)
    } else {
        let (before, n) = redeemed(attempted, positions.drop_last(), outcomes);
        let p = positions.last();
        if is_due(before, p) && outcomes[positions.len() - 1] {
            (before.insert(p.condition_id@), n + 1)
        } else {
            (before, n)
        }
    }
}

impl View for RedemptionTracker {
    type V = Set<Seq<char>>;

    closed spec fn view(&self) -> Set<Seq<char>> {
        self.attempted@
    }
}

impl Default for RedemptionTracker {
    fn default() -> (r: Self)
        ensures
            r@ == Set::<Seq<char>>::empty(),
    {
        Self::new()
    }
}

impl RedemptionTracker {
    pub fn new() -> (r: Self)
        ensures
            r@ == Set::<Seq<char>>::empty(),
    {
        RedemptionTracker { attempted: StringHashSet::new() }
    }

    pub fn attempted_count(&self) -> (r: usize)
        ensures
            r == self@.len(),
    {
        broadcast use vstd::hash_set::group_hash_set_axioms;

        self.attempted.len()
    }

    /// Counts the worthless positions as settled.
    pub fn write_off(&mut self, positions: &Vec<RedeemablePosition>)
        ensures
            final(self)@ == written_off(old(self)@, positions@),
    {
        let ghost before = self@;
        let mut i: usize = 0;
        assert(positions@.take(0) =~= Seq::empty());
        while i < positions.len()
            invariant
                i <= positions@.len(),
                self@ == written_off(before, positions@.take(i as int)),
            decreases positions@.len() - i,
        {
            let p = &positions[i];
            assert(positions@.take(i + 1).drop_last() =~= positions@.take(i as int));
            if !p.current_value.gt(num(DUST)) && !p.condition_id.as_str().is_empty() {
                self.attempted.insert(p.condition_id.clone());
            }
            i = i + 1;
        }
        assert(positions@.take(i as int) =~= positions@);
    }

    /// Whether a position is to be redeemed.
    pub fn wants(&self, p: &RedeemablePosition) -> (r: bool)
        ensures
            r == is_due(self@, *p),
    {
        p.current_value.gt(num(DUST)) && !p.condition_id.as_str().is_empty()
            && !self.attempted.contains(p.condition_id.as_str())
    }

    /// Takes the outcome of redeeming a position. What failed is tried again next time.
    pub fn settle(&mut self, p: &RedeemablePosition, ok: bool)
        ensures
            final(self)@ == if ok {
                old(self)@.insert(p.condition_id@)
            } else {
                old(self)@
            },
    {
        if ok {
            self.attempted.insert(p.condition_id.clone());
        }
    }

    /// One pass over the positions: the worthless ones are written off, the others redeemed
    /// unless that was done before. `outcomes` says what redeeming each position gives.
    /// Returns how many were redeemed.
    pub fn check_and_redeem(
        &mut self,
        positions: &Vec<RedeemablePosition>,
        outcomes: &Vec<bool>,
    ) -> (r: usize)
        requires
            outcomes@.len() == positions@.len(),
        ensures
            (final(self)@, r as nat) == redeemed(
                written_off(old(self)@, positions@),
                positions@,
                outcomes@,
            ),
    {
        self.write_off(positions);
        let ghost start = self@;
        let mut count: usize = 0;
        let mut i: usize = 0;
        assert(positions@.take(0) =~= Seq::empty());
        while i < positions.len()
            invariant
                i <= positions@.len(),
                outcomes@.len() == positions@.len(),
                count <= i,
                (self@, count as nat) == redeemed(start, positions@.take(i as int), outcomes@),
            decreases positions@.len() - i,
        {
            let p = &positions[i];
            assert(positions@.take(i + 1).drop_last() =~= positions@.take(i as int));
            if self.wants(p) {
                let ok = outcomes[i];
                self.settle(p, ok);
                if ok {
                    count = count + 1;
                }
            }
            i = i + 1;
        }
        assert(positions@.take(i as int) =~= positions@);
        count
    }
}

/// What is settled stays settled.
pub proof fn settled_stays(
    attempted: Set<Seq<char>>,
    positions: Seq<RedeemablePosition>,
    outcomes: Seq<bool>,
    id: Seq<char>,
)
    requires
        attempted.contains(id),
    ensures
        written_off(attempted, positions).contains(id),
        redeemed(attempted, positions, outcomes).0.contains(id),
    decreases positions.len(),
{
    if positions.len() > 0 {
        settled_stays(attempted, positions.drop_last(), outcomes, id);
    }
}

/// A market that is settled is not redeemed in a later pass: a pass over positions whose
/// markets are all settled redeems nothing and changes nothing.
pub proof fn nothing_is_redeemed_twice(
    attempted: Set<Seq<char>>,
    positions: Seq<RedeemablePosition>,
    outcomes: Seq<bool>,
)
    requires
        forall|i: int|
            0 <= i < positions.len() ==> attempted.contains(
                (#[trigger] positions[i]).condition_id@,
            ),
    ensures
        written_off(attempted, positions) == attempted,
        redeemed(attempted, positions, outcomes) == (attempted, 0nat),
    decreases positions.len(),
{
    if positions.len() > 0 {
        let rest = positions.drop_last();
        assert forall|i: int| 0 <= i < rest.len() implies attempted.contains(
            (#[trigger] rest[i]).condition_id@,
        ) by {
            assert(rest[i] == positions[i]);
        }
        nothing_is_redeemed_twice(attempted, rest, outcomes);
        assert(attempted.contains(positions[positions.len() - 1].condition_id@));
        assert(attempted.insert(positions.last().condition_id@) =~= attempted);
    }
}

} // verus!
