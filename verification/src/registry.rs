//! The registry itself: the token store, the ownership index, the supply
//! counter and the event log, and the operations on them.

use std::collections::HashMap;
use vstd::prelude::*;
use crate::ident::spec_unique_id;
use crate::laws::{
    law_burn_keeps_well_formed, law_empty_is_well_formed, law_mint_keeps_well_formed,
    law_move_keeps_well_formed, law_set_price_keeps_well_formed,
};
use crate::model::{Error, Event, LedgerError, Payment, State, Token};
use crate::owned::OwnedList;

verus! {

broadcast use vstd::std_specs::hash::group_hash_axioms;

/// The configuration of a registry.
#[derive(Clone, Copy, Debug)]
pub struct Config {
    /// The most tokens that one account can own.
    pub maximum_owned: u32,
}

/// The registry.
pub struct Pallet {
    config: Config,
    tokens: HashMap<u128, Token>,
    owned: HashMap<u64, OwnedList>,
    count: u64,
    events: Vec<Event>,
}

impl View for Pallet {
    type V = State;

    closed spec fn view(&self) -> State {
        State {
            tokens: self.tokens@,
            owned: Map::total(
                |a: u64|
                    if self.owned@.contains_key(a) {
                        self.owned@[a]@
                    } else {
                        Seq::<u128>::empty()
                    },
            ),
            count: self.count,
            events: self.events@,
            max_owned: self.config.maximum_owned,
        }
    }
}

impl Pallet {
    /// Every stored list is within the configured bound.
    pub closed spec fn lists_bounded(&self) -> bool {
        forall|a: u64| #[trigger]
            self.owned@.contains_key(a) ==> self.owned@[a].wf() && self.owned@[a].spec_bound()
                == self.config.maximum_owned
    }

    /// The registry's invariant: the state it stands for is well formed.
    pub open spec fn wf(&self) -> bool {
        self@.wf() && self.lists_bounded()
    }

    /// A registry without tokens.
    pub fn new(config: Config) -> (r: Self)
        ensures
            r.wf(),
            r@ == State::empty(config.maximum_owned),
    {
        let r = Pallet {
            config,
            tokens: HashMap::new(),
            owned: HashMap::new(),
            count: 0,
            events: Vec::new(),
        };
        proof {
            law_empty_is_well_formed(config.maximum_owned);
            assert(r@.owned =~= State::empty(config.maximum_owned).owned);
        }
        r
    }

    /// The most tokens that one account can own.
    pub fn maximum_owned(&self) -> (r: u32)
        ensures
            r == self@.max_owned,
    {
        self.config.maximum_owned
    }

    /// The number of live tokens.
    pub fn token_count(&self) -> (r: u64)
        ensures
            r == self@.count,
    {
        self.count
    }

    /// The token with the identifier `id`, if it exists.
    pub fn token(&self, id: u128) -> (r: Option<Token>)
        ensures
            r.is_some() == self@.tokens.contains_key(id),
            r.is_some() ==> r.unwrap() == self@.tokens[id],
    {
        match self.tokens.get(&id) {
            Some(t) => Some(*t),
            None => None,
        }
    }

    /// The identifiers that `account` owns, in the order of its list.
    pub fn owned_by(&self, account: u64) -> (r: Vec<u128>)
        ensures
            r@ == self@.owned[account],
    {
        match self.owned.get(&account) {
            Some(list) => list.to_vec(),
            None => Vec::new(),
        }
    }

    /// The events of all successful operations so far, oldest first.
    pub fn events(&self) -> (r: Vec<Event>)
        ensures
            r@ == self@.events,
    {
        let mut out: Vec<Event> = Vec::new();
        let mut i: usize = 0;
        while i < self.events.len()
            invariant
                i <= self.events.len(),
                out@ == self.events@.subrange(0, i as int),
            decreases self.events.len() - i,
        {
            out.push(self.events[i]);
            i += 1;
            assert(out@ =~= self.events@.subrange(0, i as int));
        }
        assert(out@ =~= self.events@);
        out
    }

    /// A copy of the list of `account`: empty if none is stored.
    fn list_of(&self, account: u64) -> (r: OwnedList)
        requires
            self.lists_bounded(),
        ensures
            r@ == self@.owned[account],
            r.wf(),
            r.spec_bound() == self@.max_owned,
    {
        match self.owned.get(&account) {
            Some(list) => list.duplicate(),
            None => OwnedList::new(self.config.maximum_owned),
        }
    }

    /// Stores `list` as the list of `account`.
    fn store_list(&mut self, account: u64, list: OwnedList)
        requires
            old(self).lists_bounded(),
            list.wf(),
            list.spec_bound() == old(self)@.max_owned,
        ensures
            final(self).lists_bounded(),
            final(self)@ == (State {
                owned: old(self)@.owned.insert(account, list@),
                ..old(self)@
            }),
    {
        self.owned.insert(account, list);
        assert(self@.owned =~= old(self)@.owned.insert(account, list@));
    }

    /// Creates the token `unique_id` for `owner`.
    ///
    /// Fails if the identifier is taken, if the counter is at its limit,
    /// or if the list of `owner` is full, in this order, and then changes
    /// nothing.
    pub fn mint(&mut self, owner: u64, unique_id: u128) -> (r: Result<u128, Error>)
        requires
            old(self).wf(),
        ensures
            final(self).wf(),
            match r {
                Ok(id) => id == unique_id && old(self)@.mint_error(owner, unique_id).is_none()
                    && final(self)@ == old(self)@.mint_step(owner, unique_id),
                Err(e) => old(self)@.mint_error(owner, unique_id) == Some(e) && *final(self) == *old(self),
            },
    {
        if self.tokens.contains_key(&unique_id) {
            return Err(Error::DuplicateToken);
        }
        if self.count == u64::MAX {
            return Err(Error::BoundsOverflow);
        }
        let new_count: u64 = self.count + 1;
        let mut list = self.list_of(owner);
        if list.try_push(unique_id).is_err() {
            return Err(Error::MaximumTokensOwned);
        }
        proof {
            law_mint_keeps_well_formed(self@, owner, unique_id);
        }
        self.store_list(owner, list);
        self.tokens.insert(unique_id, Token { unique_id, price: None, owner });
        self.count = new_count;
        self.events.push(Event::TokenCreated { token: unique_id, owner });
        assert(self@ =~= old(self)@.mint_step(owner, unique_id));
        Ok(unique_id)
    }

    /// Destroys the token `token_id` at the request of `requester`.
    ///
    /// Fails with `NoToken` if there is no such token and with `NotOwner`
    /// if it belongs to another account, and then changes nothing.
    pub fn burn(&mut self, requester: u64, token_id: u128) -> (r: Result<u128, Error>)
        requires
            old(self).wf(),
        ensures
            final(self).wf(),
            match r {
                Ok(id) => id == token_id && old(self)@.burn_error(requester, token_id).is_none()
                    && final(self)@ == old(self)@.burn_step(requester, token_id),
                Err(e) => old(self)@.burn_error(requester, token_id) == Some(e) && *final(self) == *old(self),
            },
    {
        let owner: u64 = match self.tokens.get(&token_id) {
            Some(t) => t.owner,
            None => {
                return Err(Error::NoToken);
            },
        };
        if requester != owner {
            return Err(Error::NotOwner);
        }
        let mut from_owned = self.list_of(owner);
        if from_owned.remove_by_value(token_id).is_none() {
            return Err(Error::NoToken);
        }
        proof {
            law_burn_keeps_well_formed(self@, requester, token_id);
        }
        self.store_list(owner, from_owned);
        self.count = self.count - 1;
        self.tokens.remove(&token_id);
        self.events.push(Event::TokenBurned { token: token_id, owner });
        assert(self@ =~= old(self)@.burn_step(requester, token_id));
        Ok(token_id)
    }

    /// Moves the token `token_id` to `to` and takes it off the market.
    ///
    /// Fails with `NoToken` if there is no such token, with
    /// `TransferToSelf` if `to` owns it, and with `MaximumTokensOwned` if
    /// the list of `to` is full, and then changes nothing.
    pub fn do_transfer(&mut self, token_id: u128, to: u64) -> (r: Result<(), Error>)
        requires
            old(self).wf(),
        ensures
            final(self).wf(),
            match r {
                Ok(_) => old(self)@.transfer_error(token_id, to).is_none() && final(self)@ == old(self)@.transfer_step(token_id, to),
                Err(e) => old(self)@.transfer_error(token_id, to) == Some(e) && *final(self) == *old(self),
            },
    {
        let from: u64 = match self.tokens.get(&token_id) {
            Some(t) => t.owner,
            None => {
                return Err(Error::NoToken);
            },
        };
        if from == to {
            return Err(Error::TransferToSelf);
        }
        let mut from_owned = self.list_of(from);
        if from_owned.swap_remove_by_value(token_id).is_none() {
            return Err(Error::NoToken);
        }
        let mut to_owned = self.list_of(to);
        if to_owned.try_push(token_id).is_err() {
            return Err(Error::MaximumTokensOwned);
        }
        proof {
            law_move_keeps_well_formed(self@, token_id, to);
        }
        self.tokens.insert(token_id, Token { unique_id: token_id, price: None, owner: to });
        self.store_list(to, to_owned);
        self.store_list(from, from_owned);
        self.events.push(Event::TransferSucceeded { from, to, token: token_id });
        assert(self@ =~= old(self)@.transfer_step(token_id, to));
        Ok(())
    }

    /// What a purchase of the token `unique_id` by `to` with the bid
    /// `bid_price` asks of the ledger: the asking price, from the buyer to
    /// the owner. Fails where the registry's rules refuse the purchase.
    pub fn quote_buy(&self, unique_id: u128, to: u64, bid_price: u128) -> (r: Result<
        Payment,
        Error,
    >)
        requires
            self.wf(),
        ensures
            match r {
                Ok(p) => self@.buy_error(unique_id, to, bid_price).is_none() && p
                    == self@.buy_payment(unique_id, to),
                Err(e) => self@.buy_error(unique_id, to, bid_price) == Some(e),
            },
    {
        let token: Token = match self.tokens.get(&unique_id) {
            Some(t) => *t,
            None => {
                return Err(Error::NoToken);
            },
        };
        let from: u64 = token.owner;
        if from == to {
            return Err(Error::TransferToSelf);
        }
        let from_owned = self.list_of(from);
        if from_owned.position(unique_id).is_none() {
            return Err(Error::NoToken);
        }
        let to_owned = self.list_of(to);
        if to_owned.is_full() {
            return Err(Error::MaximumTokensOwned);
        }
        match token.price {
            Some(price) => {
                if bid_price < price {
                    return Err(Error::BidPriceTooLow);
                }
                Ok(Payment { payer: to, payee: from, amount: price })
            },
            None => Err(Error::NotForSale),
        }
    }

    /// Sells the token `unique_id` to `to`, who bid `bid_price`; `paid`
    /// is the ledger's answer to the payment that `quote_buy` gave.
    ///
    /// The registry's rules are checked first, and their error is
    /// returned whatever `paid` holds. If they accept the purchase and
    /// the ledger refused, the ledger's error is returned. In both cases
    /// nothing changes. Otherwise the token moves to `to` and is taken off
    /// the market.
    pub fn do_buy_token(
        &mut self,
        unique_id: u128,
        to: u64,
        bid_price: u128,
        paid: Result<(), LedgerError>,
    ) -> (r: Result<(), Error>)
        requires
            old(self).wf(),
        ensures
            final(self).wf(),
            match r {
                Ok(_) => old(self)@.settled_buy_error(unique_id, to, bid_price, paid).is_none()
                    && final(self)@ == old(self)@.buy_step(unique_id, to),
                Err(e) => old(self)@.settled_buy_error(unique_id, to, bid_price, paid) == Some(e)
                    && *final(self) == *old(self),
            },
    {
        let token: Token = match self.tokens.get(&unique_id) {
            Some(t) => *t,
            None => {
                return Err(Error::NoToken);
            },
        };
        let from: u64 = token.owner;
        if from == to {
            return Err(Error::TransferToSelf);
        }
        let mut from_owned = self.list_of(from);
        if from_owned.swap_remove_by_value(unique_id).is_none() {
            return Err(Error::NoToken);
        }
        let mut to_owned = self.list_of(to);
        if to_owned.try_push(unique_id).is_err() {
            return Err(Error::MaximumTokensOwned);
        }
        let price: u128 = match token.price {
            Some(price) => price,
            None => {
                return Err(Error::NotForSale);
            },
        };
        if bid_price < price {
            return Err(Error::BidPriceTooLow);
        }
        if let Err(e) = paid {
            return Err(Error::Ledger(e));
        }
        proof {
            law_move_keeps_well_formed(self@, unique_id, to);
        }
        self.events.push(Event::Sold { seller: from, buyer: to, token: unique_id, price });
        self.tokens.insert(unique_id, Token { unique_id, price: None, owner: to });
        self.store_list(to, to_owned);
        self.store_list(from, from_owned);
        self.events.push(Event::TransferSucceeded { from, to, token: unique_id });
        assert(self@ =~= old(self)@.buy_step(unique_id, to));
        Ok(())
    }

    /// Creates a token for `sender`, with the identifier derived from the
    /// block `block_number` and the index `extrinsic_index` of the
    /// transaction in it.
    pub fn create_token(&mut self, sender: u64, block_number: u32, extrinsic_index: u32) -> (r:
        Result<(), Error>)
        requires
            old(self).wf(),
        ensures
            final(self).wf(),
            match r {
                Ok(_) => old(self)@.mint_error(
                    sender,
                    spec_unique_id(block_number, extrinsic_index) as u128,
                ).is_none() && final(self)@ == old(self)@.mint_step(
                    sender,
                    spec_unique_id(block_number, extrinsic_index) as u128,
                ),
                Err(e) => old(self)@.mint_error(
                    sender,
                    spec_unique_id(block_number, extrinsic_index) as u128,
                ) == Some(e) && *final(self) == *old(self),
            },
    {
        let unique_id: u128 = Self::gen_unique_id(block_number, extrinsic_index);
        match self.mint(sender, unique_id) {
            Ok(_) => Ok(()),
            Err(e) => Err(e),
        }
    }

    /// Destroys the token `unique_id` of `sender`.
    pub fn burn_token(&mut self, sender: u64, unique_id: u128) -> (r: Result<(), Error>)
        requires
            old(self).wf(),
        ensures
            final(self).wf(),
            match r {
                Ok(_) => old(self)@.burn_error(sender, unique_id).is_none() && final(self)@ == old(self)@.burn_step(sender, unique_id),
                Err(e) => old(self)@.burn_error(sender, unique_id) == Some(e) && *final(self) == *old(self),
            },
    {
        match self.burn(sender, unique_id) {
            Ok(_) => Ok(()),
            Err(e) => Err(e),
        }
    }

    /// Gives the token `unique_id` of `from` to `to`, without payment.
    ///
    /// Fails with `NoToken` if there is no such token and with `NotOwner`
    /// if `from` does not own it; otherwise as `do_transfer` does.
    pub fn transfer(&mut self, from: u64, to: u64, unique_id: u128) -> (r: Result<(), Error>)
        requires
            old(self).wf(),
        ensures
            final(self).wf(),
            match r {
                Ok(_) => old(self)@.owner_transfer_error(from, to, unique_id).is_none() && final(self)@ == old(self)@.transfer_step(unique_id, to),
                Err(e) => old(self)@.owner_transfer_error(from, to, unique_id) == Some(e) && *final(self) == *old(self),
            },
    {
        let owner: u64 = match self.tokens.get(&unique_id) {
            Some(t) => t.owner,
            None => {
                return Err(Error::NoToken);
            },
        };
        if owner != from {
            return Err(Error::NotOwner);
        }
        self.do_transfer(unique_id, to)
    }

    /// Lists the token `unique_id` of `sender` at `new_price`, or takes it
    /// off the market with `None`.
    ///
    /// Fails with `NoToken` if there is no such token and with `NotOwner`
    /// if `sender` does not own it, and then changes nothing.
    pub fn set_price(&mut self, sender: u64, unique_id: u128, new_price: Option<u128>) -> (r:
        Result<(), Error>)
        requires
            old(self).wf(),
        ensures
            final(self).wf(),
            match r {
                Ok(_) => old(self)@.set_price_error(sender, unique_id).is_none() && final(self)@
                    == old(self)@.set_price_step(unique_id, new_price),
                Err(e) => old(self)@.set_price_error(sender, unique_id) == Some(e) && *final(self) == *old(self),
            },
    {
        let owner: u64 = match self.tokens.get(&unique_id) {
            Some(t) => t.owner,
            None => {
                return Err(Error::NoToken);
            },
        };
        if owner != sender {
            return Err(Error::NotOwner);
        }
        proof {
            law_set_price_keeps_well_formed(self@, sender, unique_id, new_price);
        }
        self.tokens.insert(unique_id, Token { unique_id, price: new_price, owner });
        self.events.push(Event::PriceSet { token: unique_id, price: new_price });
        assert(self@ =~= old(self)@.set_price_step(unique_id, new_price));
        Ok(())
    }

    /// Sells the token `unique_id` to `buyer`: `do_buy_token` for the
    /// caller of the transaction.
    pub fn buy_token(
        &mut self,
        buyer: u64,
        unique_id: u128,
        bid_price: u128,
        paid: Result<(), LedgerError>,
    ) -> (r: Result<(), Error>)
        requires
            old(self).wf(),
        ensures
            final(self).wf(),
            match r {
                Ok(_) => old(self)@.settled_buy_error(unique_id, buyer, bid_price, paid).is_none()
                    && final(self)@ == old(self)@.buy_step(unique_id, buyer),
                Err(e) => old(self)@.settled_buy_error(unique_id, buyer, bid_price, paid) == Some(
                    e,
                ) && *final(self) == *old(self),
            },
    {
        self.do_buy_token(unique_id, buyer, bid_price, paid)
    }
}

} // verus!
