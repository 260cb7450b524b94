//! The mathematical model of the token registry: the records it keeps, the
//! abstract state, and each operation as a function from state to state.

use vstd::prelude::*;

verus! {

/// A token: its identifier, its asking price (`None` when it is not for
/// sale) and the account that owns it.
#[derive(Clone, Copy, Debug, PartialEq, Eq)]
pub struct Token {
    pub unique_id: u128,
    pub price: Option<u128>,
    pub owner: u64,
}

/// Why the ledger declined to move a balance.
#[derive(Clone, Copy, Debug, PartialEq, Eq)]
pub enum LedgerError {
    /// The payer's free balance does not cover the amount.
    InsufficientFunds,
    /// The payment would take the payer below its existential minimum.
    WouldDestroyAccount,
    /// Any other failure of the ledger.
    Other,
}

/// Why an operation of the registry was refused.
#[derive(Clone, Copy, Debug, PartialEq, Eq)]
pub enum Error {
    /// Each token must have a unique identifier.
    DuplicateToken,
    /// An account cannot own more tokens than the configured maximum.
    MaximumTokensOwned,
    /// The total supply of tokens cannot exceed the `u64` limit.
    BoundsOverflow,
    /// The token does not exist.
    NoToken,
    /// The caller is not the owner.
    NotOwner,
    /// The token would be transferred to its current owner.
    TransferToSelf,
    /// The bid is lower than the asking price.
    BidPriceTooLow,
    /// The token is not for sale.
    NotForSale,
    /// The ledger refused the payment.
    Ledger(LedgerError),
}

/// A notification that a successful operation appends to the event log.
#[derive(Clone, Copy, Debug, PartialEq, Eq)]
#[allow(inconsistent_fields)]
pub enum Event {
    TokenCreated { token: u128, owner: u64 },
    TokenBurned { token: u128, owner: u64 },
    TransferSucceeded { from: u64, to: u64, token: u128 },
    PriceSet { token: u128, price: Option<u128> },
    Sold { seller: u64, buyer: u64, token: u128, price: u128 },
}

/// The payment that a purchase asks of the ledger.
#[derive(Clone, Copy, Debug, PartialEq, Eq)]
pub struct Payment {
    pub payer: u64,
    pub payee: u64,
    pub amount: u128,
}

/// The abstract state of the registry.
///
/// `owned` is total: an account that never held a token maps to the empty
/// list.
pub struct State {
    pub tokens: Map<u128, Token>,
    pub owned: Map<u64, Seq<u128>>,
    pub count: u64,
    pub events: Seq<Event>,
    pub max_owned: u32,
}

/// The position of the first occurrence of `id` in `list`.
pub open spec fn first_index(list: Seq<u128>, id: u128) -> int {
    choose|i: int|
        0 <= i < list.len() && list[i] == id && forall|j: int| 0 <= j < i ==> list[j] != id
}

/// `list` without its first occurrence of `id`, the rest in order.
pub open spec fn without_ordered(list: Seq<u128>, id: u128) -> Seq<u128> {
    list.remove(first_index(list, id))
}

/// `list` without its first occurrence of `id`, the last item moved into
/// the gap.
pub open spec fn without_swapped(list: Seq<u128>, id: u128) -> Seq<u128> {
    list.update(first_index(list, id), list.last()).drop_last()
}

impl State {
    /// The state of a fresh registry.
    pub open spec fn empty(max_owned: u32) -> State {
        State {
            tokens: Map::empty(),
            owned: Map::total(|a: u64| Seq::<u128>::empty()),
            count: 0,
            events: Seq::empty(),
            max_owned,
        }
    }

    /// Every token is in the list of its owner and in no other, no list
    /// holds an identifier twice or exceeds the capacity, and the counter
    /// is the number of tokens.
    pub open spec fn wf(self) -> bool {
        &&& forall|a: u64| self.owned.contains_key(a)
        &&& forall|id: u128| #[trigger]
            self.tokens.contains_key(id) ==> self.tokens[id].unique_id == id
                && self.owned[self.tokens[id].owner].contains(id)
        &&& forall|a: u64, id: u128| #[trigger]
            self.owned[a].contains(id) ==> self.tokens.contains_key(id) && self.tokens[id].owner
                == a
        &&& forall|a: u64| #[trigger] self.owned[a].no_duplicates()
        &&& forall|a: u64| #[trigger] self.owned[a].len() <= self.max_owned
        &&& self.tokens.dom().finite()
        &&& self.count == self.tokens.dom().len()
    }

    /// Why a mint of `id` for `owner` is refused, if it is: the identifier
    /// is taken, the counter is at its limit, or the list of `owner` is
    /// full, in this order.
    pub open spec fn mint_error(self, owner: u64, id: u128) -> Option<Error> {
        if self.tokens.contains_key(id) {
            Some(Error::DuplicateToken)
        } else if self.count == u64::MAX {
            Some(Error::BoundsOverflow)
        } else if self.owned[owner].len() >= self.max_owned {
            Some(Error::MaximumTokensOwned)
        } else {
            None
        }
    }

    /// The state after `id` was minted for `owner`: an unlisted token, the
    /// last of its owner's list, the counter one higher.
    pub open spec fn mint_step(self, owner: u64, id: u128) -> State {
        State {
            tokens: self.tokens.insert(id, Token { unique_id: id, price: None, owner }),
            owned: self.owned.insert(owner, self.owned[owner].push(id)),
            count: (self.count + 1) as u64,
            events: self.events.push(Event::TokenCreated { token: id, owner }),
            max_owned: self.max_owned,
        }
    }

    /// Why `requester` may not burn `id`, if so: there is no such token, or
    /// it belongs to another account. (That the owner's list lacks it does
    /// not happen in a well-formed state.)
    pub open spec fn burn_error(self, requester: u64, id: u128) -> Option<Error> {
        if !self.tokens.contains_key(id) {
            Some(Error::NoToken)
        } else if self.tokens[id].owner != requester {
            Some(Error::NotOwner)
        } else if !self.owned[requester].contains(id) {
            Some(Error::NoToken)
        } else {
            None
        }
    }

    /// The state after `requester` burned `id`: the token gone from the
    /// store and from the list, whose other items keep their order, and the
    /// counter one lower.
    pub open spec fn burn_step(self, requester: u64, id: u128) -> State {
        State {
            tokens: self.tokens.remove(id),
            owned: self.owned.insert(requester, without_ordered(self.owned[requester], id)),
            count: (self.count - 1) as u64,
            events: self.events.push(Event::TokenBurned { token: id, owner: requester }),
            max_owned: self.max_owned,
        }
    }

    /// Why `id` cannot move to `to`, if so: there is no such token, `to`
    /// owns it already, or the list of `to` is full, in this order.
    pub open spec fn transfer_error(self, id: u128, to: u64) -> Option<Error> {
        if !self.tokens.contains_key(id) {
            Some(Error::NoToken)
        } else if self.tokens[id].owner == to {
            Some(Error::TransferToSelf)
        } else if !self.owned[self.tokens[id].owner].contains(id) {
            Some(Error::NoToken)
        } else if self.owned[to].len() >= self.max_owned {
            Some(Error::MaximumTokensOwned)
        } else {
            None
        }
    }

    /// The stores after the token `id` has moved to `to`; the event log
    /// is left as it was.
    pub open spec fn moved(self, id: u128, to: u64) -> State {
        let from = self.tokens[id].owner;
        State {
            tokens: self.tokens.insert(id, Token { unique_id: id, price: None, owner: to }),
            owned: self.owned.insert(to, self.owned[to].push(id)).insert(
                from,
                without_swapped(self.owned[from], id),
            ),
            count: self.count,
            events: self.events,
            max_owned: self.max_owned,
        }
    }

    /// The state after `id` was given to `to`.
    pub open spec fn transfer_step(self, id: u128, to: u64) -> State {
        let from = self.tokens[id].owner;
        State {
            events: self.events.push(Event::TransferSucceeded { from, to, token: id }),
            ..self.moved(id, to)
        }
    }

    /// The error of a transfer that `caller` asks for.
    pub open spec fn owner_transfer_error(self, caller: u64, to: u64, id: u128) -> Option<Error> {
        if !self.tokens.contains_key(id) {
            Some(Error::NoToken)
        } else if self.tokens[id].owner != caller {
            Some(Error::NotOwner)
        } else {
            self.transfer_error(id, to)
        }
    }

    /// Why `caller` may not price `id`, if so: there is no such token, or
    /// it belongs to another account.
    pub open spec fn set_price_error(self, caller: u64, id: u128) -> Option<Error> {
        if !self.tokens.contains_key(id) {
            Some(Error::NoToken)
        } else if self.tokens[id].owner != caller {
            Some(Error::NotOwner)
        } else {
            None
        }
    }

    /// The state after the price of `id` was set to `price`.
    pub open spec fn set_price_step(self, id: u128, price: Option<u128>) -> State {
        State {
            tokens: self.tokens.insert(
                id,
                Token { unique_id: id, price, owner: self.tokens[id].owner },
            ),
            events: self.events.push(Event::PriceSet { token: id, price }),
            ..self
        }
    }

    /// The error that the registry's own rules give a purchase, before
    /// the ledger is asked.
    pub open spec fn buy_error(self, id: u128, to: u64, bid: u128) -> Option<Error> {
        if self.transfer_error(id, to).is_some() {
            self.transfer_error(id, to)
        } else if self.tokens[id].price.is_none() {
            Some(Error::NotForSale)
        } else if bid < self.tokens[id].price.unwrap() {
            Some(Error::BidPriceTooLow)
        } else {
            None
        }
    }

    /// What the buyer `to` owes for the token `id`: its asking price, to
    /// its owner.
    pub open spec fn buy_payment(self, id: u128, to: u64) -> Payment {
        Payment {
            payer: to,
            payee: self.tokens[id].owner,
            amount: self.tokens[id].price.unwrap(),
        }
    }

    /// The state after `to` bought `id`: the token moved, and the sale and
    /// the transfer in the event log, in this order.
    pub open spec fn buy_step(self, id: u128, to: u64) -> State {
        let from = self.tokens[id].owner;
        let price = self.tokens[id].price.unwrap();
        State {
            events: self.events.push(
                Event::Sold { seller: from, buyer: to, token: id, price },
            ).push(Event::TransferSucceeded { from, to, token: id }),
            ..self.moved(id, to)
        }
    }

    /// The error of a purchase whose payment the ledger answered with
    /// `paid`: the registry's own rules come first.
    pub open spec fn settled_buy_error(
        self,
        id: u128,
        to: u64,
        bid: u128,
        paid: Result<(), LedgerError>,
    ) -> Option<Error> {
        if self.buy_error(id, to, bid).is_some() {
            self.buy_error(id, to, bid)
        } else {
            match paid {
                Ok(_) => None,
                Err(e) => Some(Error::Ledger(e)),
            }
        }
    }
}

} // verus!
