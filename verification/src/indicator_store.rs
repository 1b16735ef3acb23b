//! The latest indicator readings of each asset.

use vstd::prelude::*;
use vstd::string::StringExecFns;

use crate::asset_map::{sorted_keys, AssetMap};
use crate::num::{Arith, Calc, Layout, Num, Op, Writer};
use crate::text::{join, joined, views};

verus! {

/// One message of readings. A reading that is not ready is absent.
#[derive(Clone, Debug)]
pub struct IndicatorSnapshot {
    pub ts: Num,
    pub asset: String,
    pub market: String,
    pub slot: u64,
    pub vals: AssetMap<Num>,
}

/// A reading as `name=value`.
pub open spec fn reading(key: Seq<char>, value: Num, write: spec_fn(Num, Layout) -> Seq<char>) -> Seq<
    char,
> {
    key + "="@ + write(value, Layout::Fixed(4))
}

/// The readings with these names.
pub open spec fn readings(
    keys: Seq<Seq<char>>,
    vals: Map<Seq<char>, Num>,
    write: spec_fn(Num, Layout) -> Seq<char>,
) -> Seq<Seq<char>> {
    keys.map_values(|k: Seq<char>| reading(k, vals[k], write))
}

impl IndicatorSnapshot {
    /// The readings on one line, names in alphabetical order; `warming` when none is ready.
    pub fn render<W: Fn(Num, Layout) -> String>(&self, writer: &Writer<W>) -> (r: String)
        ensures
            exists|keys: Seq<Seq<char>>| #[trigger]
                sorted_keys(keys, self.vals@) && r@ == if keys.len() == 0 {
                    "warming"@
                } else {
                    joined(readings(keys, self.vals@, writer@), " "@)
                },
    {
        let names = self.vals.keys_in_order();
        let ghost keys = views(names@);
        if names.len() == 0 {
            return "warming".to_owned();
        }
        let ghost want = readings(keys, self.vals@, writer@);
        let mut pieces: Vec<String> = Vec::new();
        let mut i: usize = 0;
        while i < names.len()
            invariant
                i <= names@.len(),
                keys == views(names@),
                sorted_keys(keys, self.vals@),
                want == readings(keys, self.vals@, writer@),
                views(pieces@) == want.take(i as int),
            decreases names@.len() - i,
        {
            let ghost before = pieces@;
            let name = names[i].as_str();
            assert(keys[i as int] == name@);
            let mut text = name.to_owned();
            text.append("=");
            if let Some(v) = self.vals.get(name) {
                text.append(writer.write(*v, Layout::Fixed(4)).as_str());
            }
            let ghost shown = text@;
            pieces.push(text);
            assert(views(pieces@) =~= views(before).push(shown));
            assert(want.take(i + 1) =~= want.take(i as int).push(want[i as int]));
            i = i + 1;
        }
        assert(want.take(i as int) =~= want);
        join(&pieces, " ")
    }
}

/// The latest message of each asset.
#[derive(Clone, Debug)]
pub struct IndicatorStore {
    pub latest: AssetMap<IndicatorSnapshot>,
}

impl Default for IndicatorStore {
    fn default() -> (r: Self)
        ensures
            r.latest@ == Map::<Seq<char>, IndicatorSnapshot>::empty(),
    {
        IndicatorStore { latest: AssetMap::new() }
    }
}

impl IndicatorStore {
    /// A message takes the place of the last one of its asset.
    pub fn update(&mut self, snap: IndicatorSnapshot)
        ensures
            final(self).latest@ == old(self).latest@.insert(snap.asset@, snap),
    {
        let asset = snap.asset.clone();
        self.latest.insert(asset, snap);
    }

    /// The message is no older than allowed.
    pub open spec fn is_fresh(snap: IndicatorSnapshot, now: Num, max_age_secs: Num, calc: Calc) -> bool {
        calc.minus(now, snap.ts).le(max_age_secs)
    }

    /// The latest message of the asset, when it is recent enough to act on.
    pub fn fresh<F: Fn(Op, Num, Num) -> Num>(
        &self,
        asset: &str,
        now: Num,
        max_age_secs: Num,
        arith: &Arith<F>,
    ) -> (r: Option<&IndicatorSnapshot>)
        ensures
            match r {
                Some(s) => {
                    &&& self.latest@.contains_key(asset@)
                    &&& *s == self.latest@[asset@]
                    &&& IndicatorStore::is_fresh(*s, now, max_age_secs, arith@)
                },
                None => !self.latest@.contains_key(asset@) || !IndicatorStore::is_fresh(
                    self.latest@[asset@],
                    now,
                    max_age_secs,
                    arith@,
                ),
            },
    {
        match self.latest.get(asset) {
            Some(s) => {
                if arith.minus(now, s.ts).le(max_age_secs) {
                    Some(s)
                } else {
                    None
                }
            },
            None => None,
        }
    }

    /// The latest message of the asset, however old.
    pub fn raw(&self, asset: &str) -> (r: Option<&IndicatorSnapshot>)
        ensures
            match r {
                Some(s) => self.latest@.contains_key(asset@) && *s == self.latest@[asset@],
                None => !self.latest@.contains_key(asset@),
            },
    {
        self.latest.get(asset)
    }
}

} // verus!
