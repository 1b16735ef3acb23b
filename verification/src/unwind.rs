//! Fills of watched orders.

use vstd::hash_map::StringHashMap;
use vstd::prelude::*;

verus! {

/// The states in which a trade is reported.
#[derive(Clone, Copy, Debug, PartialEq, Eq, Structural)]
pub enum TradeStatus {
    Matched,
    Mined,
    Confirmed,
    Retrying,
    Failed,
    Unknown,
}

/// A fill is reported when it is matched and again when it is confirmed.
pub fn is_fill_status(status: TradeStatus) -> (r: bool)
    ensures
        r == (status == TradeStatus::Matched || status == TradeStatus::Confirmed),
{
    match status {
        TradeStatus::Matched | TradeStatus::Confirmed => true,
        _ => false,
    }
}

/// A report on a trade.
#[derive(Clone, Debug)]
pub struct TradeNotice {
    pub status: TradeStatus,
    pub taker_order_id: Option<String>,
}

/// Keeps, for each watched order, what is to be called when it fills.
#[verifier::reject_recursive_types(C)]
pub struct UnwindWatcher<C> {
    watchers: StringHashMap<C>,
}

impl<C> View for UnwindWatcher<C> {
    type V = Map<Seq<char>, C>;

    closed spec fn view(&self) -> Map<Seq<char>, C> {
        self.watchers@
    }
}

impl<C> UnwindWatcher<C> {
    pub fn new() -> (r: Self)
        ensures
            r@ == Map::<Seq<char>, C>::empty(),
    {
        UnwindWatcher { watchers: StringHashMap::new() }
    }

    /// Watches an order, in place of an earlier watch of it.
    pub fn watch(&mut self, order_id: String, callback: C)
        ensures
            final(self)@ == old(self)@.insert(order_id@, callback),
    {
        self.watchers.insert(order_id, callback);
    }

    pub fn unwatch(&mut self, order_id: &str)
        ensures
            final(self)@ == old(self)@.remove(order_id@),
    {
        self.watchers.remove(order_id);
    }

    pub fn watched_count(&self) -> (r: usize)
        ensures
            r == self@.len(),
    {
        broadcast use vstd::hash_map::group_hash_map_axioms;

        self.watchers.len()
    }

    /// What is to be called on a report: that of the order, when the report is a fill of a
    /// watched order.
    pub fn dispatch(&self, msg: &TradeNotice) -> (r: Option<&C>)
        ensures
            match r {
                Some(c) => {
                    &&& msg.status == TradeStatus::Matched || msg.status == TradeStatus::Confirmed
                    &&& msg.taker_order_id is Some
                    &&& self@.contains_key(msg.taker_order_id->0@)
                    &&& *c == self@[msg.taker_order_id->0@]
                },
                None => {
                    ||| msg.status != TradeStatus::Matched && msg.status != TradeStatus::Confirmed
                    ||| msg.taker_order_id is None
                    ||| !self@.contains_key(msg.taker_order_id->0@)
                },
            },
    {
        if !is_fill_status(msg.status) {
            return None;
        }
        match &msg.taker_order_id {
            Some(id) => self.watchers.get(id.as_str()),
            None => None,
        }
    }
}

impl<C> Default for UnwindWatcher<C> {
    fn default() -> (r: Self)
        ensures
            r@ == Map::<Seq<char>, C>::empty(),
    {
        Self::new()
    }
}

} // verus!
