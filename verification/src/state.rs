//! The state between two operations: the global parameters and the
//! registry of auctions with its counter of identifiers.

use vstd::prelude::*;

use crate::auction::{Auction, AuctionView};
use crate::coin::{Coin, CoinView};
use crate::error::{ContractError, OverflowError, OverflowOperation};

verus! {

/// The global parameters that every new auction has to satisfy.
#[derive(Debug, PartialEq, Eq)]
pub struct Params {
    /// The fee that opening an auction costs; it goes to the admin.
    pub auction_creation_fee: Coin,
    /// The identity that may change the parameters.
    pub admin: String,
    /// The least number of seconds between the creation of an auction and its start.
    pub min_seconds_until_auction_start: u64,
    /// The greatest number of seconds an auction may last.
    pub max_auction_duration: u64,
    /// The denominations accepted as payment.
    pub accepted_denoms: Vec<String>,
}

/// What a [`Params`] value stands for.
pub struct ParamsView {
    pub auction_creation_fee: CoinView,
    pub admin: Seq<char>,
    pub min_seconds_until_auction_start: nat,
    pub max_auction_duration: nat,
    pub accepted_denoms: Seq<Seq<char>>,
}

impl View for Params {
    type V = ParamsView;

    open spec fn view(&self) -> ParamsView {
        ParamsView {
            auction_creation_fee: self.auction_creation_fee@,
            admin: self.admin@,
            min_seconds_until_auction_start: self.min_seconds_until_auction_start as nat,
            max_auction_duration: self.max_auction_duration as nat,
            accepted_denoms: self.accepted_denoms.deep_view(),
        }
    }
}

impl Clone for Params {
    fn clone(&self) -> (copy: Params)
        ensures
            copy@ == self@,
    {
        Params {
            auction_creation_fee: self.auction_creation_fee.clone(),
            admin: self.admin.clone(),
            min_seconds_until_auction_start: self.min_seconds_until_auction_start,
            max_auction_duration: self.max_auction_duration,
            accepted_denoms: self.accepted_denoms.clone(),
        }
    }
}

/// The number of identifiers: an identifier is one byte.
pub const REGISTRY_SLOTS: usize = 256;

/// The greatest number of auctions that one page of a listing holds, and the
/// number it holds where none is asked for.
pub const MAX_LIMIT: u8 = 30;

/// Everything the auction house keeps between two operations: the global
/// parameters, the counter from which identifiers are allocated, and the
/// registry of auctions by identifier.
#[derive(Debug, PartialEq, Eq)]
pub struct State {
    params: Params,
    auction_index: u8,
    /// The slot at position `id` holds the auction registered under `id`.
    auctions: Vec<Option<Auction>>,
}

/// What a [`State`] stands for.
pub struct StateView {
    pub params: ParamsView,
    /// The identifier that was allocated last; 0 where none was.
    pub auction_index: nat,
    pub auctions: Map<u8, AuctionView>,
}

/// One entry of a listing: an identifier and the auction registered under it.
pub type EntryView = (u8, AuctionView);

/// The views of a list of entries, in order.
pub open spec fn entry_views(entries: Seq<(u8, Auction)>) -> Seq<EntryView> {
    entries.map_values(|e: (u8, Auction)| (e.0, e.1@))
}

/// The registry that a list of entries makes: each entry is registered in
/// turn, a later one in place of an earlier one of the same identifier.
pub open spec fn registry_of(entries: Seq<EntryView>) -> Map<u8, AuctionView>
    decreases entries.len(),
{
    if entries.len() == 0 {
        Map::empty()
    } else {
        registry_of(entries.drop_last()).insert(entries.last().0, entries.last().1)
    }
}

/// Whether a counter and a list of entries are the parts of a state: every
/// identifier was allocated and every auction keeps its invariant.
pub open spec fn restorable(auction_index: u8, entries: Seq<EntryView>) -> bool {
    forall|i: int|
        0 <= i < entries.len() ==> 1 <= (#[trigger] entries[i]).0 <= auction_index
            && entries[i].1.consistent()
}

/// The number of entries on a page for which `limit` entries were asked.
pub open spec fn page_size(limit: Option<u8>) -> nat {
    match limit {
        Some(n) => if n <= MAX_LIMIT {
            n as nat
        } else {
            MAX_LIMIT as nat
        },
        None => MAX_LIMIT as nat,
    }
}

impl StateView {
    /// The invariant of the registry: every identifier in use was allocated
    /// (it lies between 1 and the counter), and every registered auction
    /// keeps the invariant of auctions.
    pub open spec fn consistent(self) -> bool {
        forall|id: u8| #[trigger]
            self.auctions.contains_key(id) ==> 1 <= id <= self.auction_index
                && self.auctions[id].consistent()
    }

    /// The entries with an identifier of at least `from`, by ascending
    /// identifier, cut off after `limit` entries.
    pub open spec fn entries_from(self, from: nat, limit: nat) -> Seq<EntryView>
        decreases REGISTRY_SLOTS - from,
    {
        if from >= REGISTRY_SLOTS || limit == 0 {
            Seq::empty()
        } else if self.auctions.contains_key(from as u8) {
            seq![(from as u8, self.auctions[from as u8])] + self.entries_from(
                from + 1,
                (limit - 1) as nat,
            )
        } else {
            self.entries_from(from + 1, limit)
        }
    }

    /// One page of the listing: the entries with an identifier above
    /// `start_after` (all, where there is none), by ascending identifier, cut
    /// off after `limit` entries.
    pub open spec fn page(self, start_after: Option<u8>, limit: nat) -> Seq<EntryView> {
        match start_after {
            Some(id) => self.entries_from(id as nat + 1, limit),
            None => self.entries_from(0, limit),
        }
    }

    /// Whether `entries` lists the registered auctions with an identifier of
    /// at least `from`, up to `limit` of them: it is no longer than `limit`;
    /// each of its entries is registered, with an identifier of at least
    /// `from`; the identifiers ascend; and it skips no such auction, neither
    /// before its last entry nor, where it is shorter than `limit`, behind it.
    pub open spec fn lists(self, entries: Seq<EntryView>, from: nat, limit: nat) -> bool {
        &&& entries.len() <= limit
        &&& forall|i: int|
            0 <= i < entries.len() ==> from <= (#[trigger] entries[i]).0
                && self.auctions.contains_key(entries[i].0) && entries[i].1
                == self.auctions[entries[i].0]
        &&& forall|i: int, j: int|
            0 <= i < j < entries.len() ==> (#[trigger] entries[i]).0 < (#[trigger] entries[j]).0
        &&& forall|id: u8|
            from <= id && #[trigger] self.auctions.contains_key(id) && (entries.len() < limit || (
            entries.len() > 0 && id <= entries.last().0)) ==> entries.contains(
                (id, self.auctions[id]),
            )
    }

    /// The entries from an identifier on are a listing of the registry from
    /// that identifier on.
    pub proof fn lemma_entries_from_lists(self, from: nat, limit: nat)
        ensures
            self.lists(self.entries_from(from, limit), from, limit),
        decreases REGISTRY_SLOTS - from,
    {
        let entries = self.entries_from(from, limit);
        if from >= REGISTRY_SLOTS || limit == 0 {
        } else if self.auctions.contains_key(from as u8) {
            let head = (from as u8, self.auctions[from as u8]);
            let rest = self.entries_from(from + 1, (limit - 1) as nat);
            self.lemma_entries_from_lists(from + 1, (limit - 1) as nat);
            assert(entries[0] == head);
            assert forall|i: int| 1 <= i < entries.len() implies entries[i] == rest[i - 1] by {}
            assert forall|id: u8|
                from <= id && #[trigger] self.auctions.contains_key(id) && (entries.len() < limit
                    || (entries.len() > 0 && id <= entries.last().0)) implies entries.contains(
                (id, self.auctions[id]),
            ) by {
                if id != from {
                    let i = choose|i: int|
                        0 <= i < rest.len() && rest[i] == (id, self.auctions[id]);
                    assert(entries[i + 1] == (id, self.auctions[id]));
                }
            }
        } else {
            self.lemma_entries_from_lists(from + 1, limit);
        }
    }

    /// A page is a listing of the registry behind its cursor: no longer than
    /// the limit, ascending, made of registered auctions with an identifier
    /// above the cursor, and without a gap.
    pub proof fn lemma_page_lists(self, start_after: Option<u8>, limit: nat)
        ensures
            start_after is Some ==> self.lists(
                self.page(start_after, limit),
                start_after->Some_0 as nat + 1,
                limit,
            ),
            start_after is None ==> self.lists(self.page(start_after, limit), 0, limit),
    {
        match start_after {
            Some(id) => self.lemma_entries_from_lists(id as nat + 1, limit),
            None => self.lemma_entries_from_lists(0, limit),
        }
    }
}

impl View for State {
    type V = StateView;

    closed spec fn view(&self) -> StateView {
        StateView {
            params: self.params@,
            auction_index: self.auction_index as nat,
            auctions: Map::new(
                |id: u8| id < self.auctions.len() && self.auctions[id as int] is Some,
                |id: u8| self.auctions[id as int].unwrap()@,
            ),
        }
    }
}

impl State {
    /// Whether the state is well formed: the registry has a slot for every
    /// identifier and keeps its invariant.
    pub closed spec fn wf(self) -> bool {
        &&& self.auctions.len() == REGISTRY_SLOTS
        &&& self@.consistent()
    }

    /// A well-formed state keeps the invariant of the registry.
    pub proof fn lemma_wf_is_consistent(self)
        requires
            self.wf(),
        ensures
            self@.consistent(),
    {
    }

    /// The state in which `auction_index` identifiers have been allocated and
    /// no auction is registered.
    fn empty(params: Params, auction_index: u8) -> (state: State)
        ensures
            state.wf(),
            state@.params == params@,
            state@.auction_index == auction_index,
            state@.auctions == Map::<u8, AuctionView>::empty(),
    {
        let mut auctions: Vec<Option<Auction>> = Vec::new();
        while auctions.len() < REGISTRY_SLOTS
            invariant
                auctions.len() <= REGISTRY_SLOTS,
                forall|i: int| 0 <= i < auctions.len() ==> auctions[i] is None,
            decreases REGISTRY_SLOTS - auctions.len(),
        {
            auctions.push(None);
        }
        State { params, auction_index, auctions }
    }

    /// The state before the first operation: no identifier allocated, no
    /// auction registered.
    pub fn new(params: Params) -> (state: State)
        ensures
            state.wf(),
            state@.params == params@,
            state@.auction_index == 0,
            state@.auctions == Map::<u8, AuctionView>::empty(),
    {
        State::empty(params, 0)
    }

    /// Puts a state together again from its parts, as they were kept between
    /// two operations: the parameters, the counter and the registered
    /// auctions. There is such a state where every identifier was allocated
    /// and every auction keeps its invariant, and only then.
    pub fn restore(params: Params, auction_index: u8, entries: Vec<(u8, Auction)>) -> (r: Option<
        State,
    >)
        ensures
            r is Some <==> restorable(auction_index, entry_views(entries@)),
            r is Some ==> r->Some_0.wf() && r->Some_0@.params == params@
                && r->Some_0@.auction_index == auction_index && r->Some_0@.auctions
                == registry_of(entry_views(entries@)),
    {
        let ghost views = entry_views(entries@);
        let mut state = State::empty(params, auction_index);
        let mut i: usize = 0;
        while i < entries.len()
            invariant
                i <= entries.len(),
                views == entry_views(entries@),
                state.wf(),
                state@.params == params@,
                state@.auction_index == auction_index,
                state@.auctions == registry_of(views.take(i as int)),
                restorable(auction_index, views.take(i as int)),
            decreases entries.len() - i,
        {
            let id = entries[i].0;
            let auction = entries[i].1.clone();
            if id == 0 || id > auction_index || !auction.is_consistent() {
                assert(views[i as int] == (id, auction@));
                return None;
            }
            state.save(id, auction);
            proof {
                let next = views.take(i + 1);
                assert(next.drop_last() =~= views.take(i as int));
                assert forall|k: int| 0 <= k < next.len() implies 1 <= (#[trigger] next[k]).0
                    <= auction_index && next[k].1.consistent() by {}
            }
            i += 1;
        }
        assert(views.take(entries.len() as int) =~= views);
        Some(state)
    }

    /// The global parameters.
    pub fn params(&self) -> (params: &Params)
        ensures
            params@ == self@.params,
    {
        &self.params
    }

    /// Replaces the global parameters.
    pub fn set_params(&mut self, params: Params)
        requires
            old(self).wf(),
        ensures
            final(self).wf(),
            final(self)@.params == params@,
            final(self)@.auction_index == old(self)@.auction_index,
            final(self)@.auctions == old(self)@.auctions,
    {
        self.params = params;
        assert(self@.auctions =~= old(self)@.auctions);
    }

    /// The identifier that was allocated last; 0 where none was.
    pub fn auction_index(&self) -> (index: u8)
        ensures
            index == self@.auction_index,
    {
        self.auction_index
    }

    /// Allocates the identifier that follows the last one. Where the last
    /// one is the greatest identifier there is, no identifier is left: the
    /// call fails and changes nothing.
    pub fn allocate_id(&mut self) -> (r: Result<u8, ContractError>)
        requires
            old(self).wf(),
        ensures
            final(self).wf(),
            final(self)@.params == old(self)@.params,
            final(self)@.auctions == old(self)@.auctions,
            old(self)@.auction_index < u8::MAX ==> r == Ok::<u8, ContractError>(
                (old(self)@.auction_index + 1) as u8,
            ) && final(self)@.auction_index == old(self)@.auction_index + 1,
            old(self)@.auction_index >= u8::MAX ==> r == Err::<u8, ContractError>(
                ContractError::Overflow(OverflowError { operation: OverflowOperation::Add }),
            ) && final(self)@.auction_index == old(self)@.auction_index,
    {
        if self.auction_index == u8::MAX {
            return Err(
                ContractError::Overflow(OverflowError { operation: OverflowOperation::Add }),
            );
        }
        self.auction_index = self.auction_index + 1;
        assert(self@.auctions =~= old(self)@.auctions);
        Ok(self.auction_index)
    }

    /// The auction registered under `id`.
    pub fn load(&self, id: u8) -> (r: Result<Auction, ContractError>)
        requires
            self.wf(),
        ensures
            self@.auctions.contains_key(id) ==> r is Ok && r->Ok_0@ == self@.auctions[id],
            !self@.auctions.contains_key(id) ==> r == Err::<Auction, ContractError>(
                ContractError::AuctionNotFound {  },
            ),
    {
        match &self.auctions[id as usize] {
            Some(auction) => Ok(auction.clone()),
            None => Err(ContractError::AuctionNotFound {  }),
        }
    }

    /// Registers `auction` under `id`, in place of the auction that was
    /// registered there, if any.
    pub fn save(&mut self, id: u8, auction: Auction)
        requires
            old(self).wf(),
            1 <= id <= old(self)@.auction_index,
            auction@.consistent(),
        ensures
            final(self).wf(),
            final(self)@.params == old(self)@.params,
            final(self)@.auction_index == old(self)@.auction_index,
            final(self)@.auctions == old(self)@.auctions.insert(id, auction@),
    {
        self.auctions[id as usize] = Some(auction);
        assert(self@.auctions =~= old(self)@.auctions.insert(id, auction@));
    }

    /// Takes the auction registered under `id`, if any, out of the registry.
    pub fn remove(&mut self, id: u8)
        requires
            old(self).wf(),
        ensures
            final(self).wf(),
            final(self)@.params == old(self)@.params,
            final(self)@.auction_index == old(self)@.auction_index,
            final(self)@.auctions == old(self)@.auctions.remove(id),
    {
        self.auctions[id as usize] = None;
        assert(self@.auctions =~= old(self)@.auctions.remove(id));
    }

    /// One page of the listing of the registry: the auctions with an
    /// identifier above `start_after` (all, where there is none), by
    /// ascending identifier, at most `limit` of them.
    pub fn range(&self, start_after: Option<u8>, limit: u8) -> (page: Vec<(u8, Auction)>)
        requires
            self.wf(),
        ensures
            entry_views(page@) == self@.page(start_after, limit as nat),
    {
        let mut page: Vec<(u8, Auction)> = Vec::new();
        let first: usize = match start_after {
            Some(id) => id as usize + 1,
            None => 0,
        };
        let mut next: usize = first;
        while next < REGISTRY_SLOTS && page.len() < limit as usize
            invariant
                self.wf(),
                first <= next <= REGISTRY_SLOTS,
                page.len() <= limit,
                self@.entries_from(first as nat, limit as nat) == entry_views(page@)
                    + self@.entries_from(next as nat, (limit - page.len()) as nat),
            decreases REGISTRY_SLOTS - next,
        {
            let ghost before = entry_views(page@);
            match &self.auctions[next] {
                Some(auction) => {
                    page.push((next as u8, auction.clone()));
                    assert(entry_views(page@) =~= before + seq![
                        (next as u8, self@.auctions[next as u8]),
                    ]);
                },
                None => {},
            }
            next += 1;
        }
        page
    }
}

} // verus!
