//! What holds of every state of the registry and of every operation.

use vstd::prelude::*;
use crate::model::{
    first_index, without_ordered, without_swapped, Error, Event, LedgerError, State,
};

verus! {

/// In a list without duplicates that holds `id`, the first position of
/// `id` is a position of `id`.
pub proof fn lemma_first_index_found(list: Seq<u128>, id: u128)
    requires
        list.no_duplicates(),
        list.contains(id),
    ensures
        0 <= first_index(list, id) < list.len(),
        list[first_index(list, id)] == id,
{
    let i = choose|i: int| 0 <= i < list.len() && list[i] == id;
    assert(forall|j: int| 0 <= j < i ==> list[j] != id);
}

/// Appending an identifier that a list does not hold keeps it free of
/// duplicates and adds that identifier only.
pub proof fn lemma_pushed(list: Seq<u128>, id: u128)
    requires
        list.no_duplicates(),
        !list.contains(id),
    ensures
        list.push(id).no_duplicates(),
        forall|x: u128| #[trigger] list.push(id).contains(x) <==> (x == id || list.contains(x)),
{
    let r = list.push(id);
    assert forall|x: u128| #[trigger] r.contains(x) <==> (x == id || list.contains(x)) by {
        if r.contains(x) {
            let i = choose|i: int| 0 <= i < r.len() && r[i] == x;
            if i < list.len() {
                assert(list[i] == x);
            }
        }
        if x == id {
            assert(r[list.len() as int] == x);
        }
        if list.contains(x) {
            let i = choose|i: int| 0 <= i < list.len() && list[i] == x;
            assert(r[i] == x);
        }
    }
    assert forall|i: int, j: int| 0 <= i < r.len() && 0 <= j < r.len() && i != j implies r[i]
        != r[j] by {
        if i < list.len() {
            assert(list[i] == r[i]);
        }
        if j < list.len() {
            assert(list[j] == r[j]);
        }
    }
}

/// Taking an identifier out of a list without duplicates, the rest in
/// order, removes that identifier only.
pub proof fn lemma_without_ordered(list: Seq<u128>, id: u128)
    requires
        list.no_duplicates(),
        list.contains(id),
    ensures
        without_ordered(list, id).no_duplicates(),
        without_ordered(list, id).len() == list.len() - 1,
        forall|x: u128| #[trigger]
            without_ordered(list, id).contains(x) <==> (x != id && list.contains(x)),
{
    lemma_first_index_found(list, id);
    let k = first_index(list, id);
    let r = without_ordered(list, id);
    assert forall|x: u128| #[trigger] r.contains(x) <==> (x != id && list.contains(x)) by {
        if r.contains(x) {
            let i = choose|i: int| 0 <= i < r.len() && r[i] == x;
            if i < k {
                assert(list[i] == x);
            } else {
                assert(list[i + 1] == x);
            }
        }
        if x != id && list.contains(x) {
            let i = choose|i: int| 0 <= i < list.len() && list[i] == x;
            if i < k {
                assert(r[i] == x);
            } else {
                assert(r[i - 1] == x);
            }
        }
    }
    assert forall|i: int, j: int| 0 <= i < r.len() && 0 <= j < r.len() && i != j implies r[i]
        != r[j] by {
        let a = if i < k { i } else { i + 1 };
        let b = if j < k { j } else { j + 1 };
        assert(r[i] == list[a] && r[j] == list[b]);
    }
}

/// Taking an identifier out of a list without duplicates, the last item
/// moved into the gap, removes that identifier only.
pub proof fn lemma_without_swapped(list: Seq<u128>, id: u128)
    requires
        list.no_duplicates(),
        list.contains(id),
    ensures
        without_swapped(list, id).no_duplicates(),
        without_swapped(list, id).len() == list.len() - 1,
        forall|x: u128| #[trigger]
            without_swapped(list, id).contains(x) <==> (x != id && list.contains(x)),
{
    lemma_first_index_found(list, id);
    let k = first_index(list, id);
    let last = list.len() - 1;
    let r = without_swapped(list, id);
    assert forall|x: u128| #[trigger] r.contains(x) <==> (x != id && list.contains(x)) by {
        if r.contains(x) {
            let i = choose|i: int| 0 <= i < r.len() && r[i] == x;
            if i == k {
                assert(list[last] == x);
            } else {
                assert(list[i] == x);
            }
        }
        if x != id && list.contains(x) {
            let i = choose|i: int| 0 <= i < list.len() && list[i] == x;
            if i == last {
                assert(r[k] == x);
            } else {
                assert(r[i] == x);
            }
        }
    }
    assert forall|i: int, j: int| 0 <= i < r.len() && 0 <= j < r.len() && i != j implies r[i]
        != r[j] by {
        let a = if i == k { last } else { i };
        let b = if j == k { last } else { j };
        assert(r[i] == list[a] && r[j] == list[b]);
    }
}

/// A fresh registry is well formed.
pub proof fn law_empty_is_well_formed(max_owned: u32)
    ensures
        State::empty(max_owned).wf(),
{
    let s = State::empty(max_owned);
    assert forall|a: u64, id: u128| #[trigger] s.owned[a].contains(id) implies false by {
        assert(s.owned[a].len() == 0);
    }
}

/// Bijection between tokens and ownership: in a well-formed state an
/// identifier is in the token store exactly if some account's list holds
/// it, no two lists hold the same identifier, no list holds one twice,
/// and the counter is the number of tokens in the store.
pub proof fn law_bijection(s: State)
    requires
        s.wf(),
    ensures
        forall|id: u128|
            s.tokens.contains_key(id) <==> exists|a: u64| #[trigger] s.owned[a].contains(id),
        forall|a: u64, b: u64, id: u128|
            #[trigger] s.owned[a].contains(id) && #[trigger] s.owned[b].contains(id) ==> a == b,
        forall|a: u64| #[trigger] s.owned[a].no_duplicates(),
        s.count == s.tokens.dom().len(),
{
    assert forall|id: u128| s.tokens.contains_key(id) implies exists|a: u64| #[trigger]
        s.owned[a].contains(id) by {
        assert(s.owned[s.tokens[id].owner].contains(id));
    }
}

/// A successful mint keeps the state well formed.
pub proof fn law_mint_keeps_well_formed(s: State, owner: u64, id: u128)
    requires
        s.wf(),
        s.mint_error(owner, id).is_none(),
    ensures
        s.mint_step(owner, id).wf(),
{
    let t = s.mint_step(owner, id);
    let list = s.owned[owner];
    assert(!list.contains(id));
    lemma_pushed(list, id);
    assert forall|x: u128| #[trigger] t.tokens.contains_key(x) implies t.tokens[x].unique_id == x
        && t.owned[t.tokens[x].owner].contains(x) by {
        if x != id {
            assert(s.tokens.contains_key(x));
            assert(s.owned[s.tokens[x].owner].contains(x));
        }
    }
    assert forall|a: u64, x: u128| #[trigger] t.owned[a].contains(x) implies t.tokens.contains_key(
        x,
    ) && t.tokens[x].owner == a by {
        if a == owner {
            if x != id {
                assert(list.contains(x));
            }
        } else {
            assert(s.owned[a].contains(x));
        }
    }
    assert forall|a: u64| #[trigger] t.owned[a].no_duplicates() by {
        if a != owner {
            assert(s.owned[a].no_duplicates());
        }
    }
    assert forall|a: u64| #[trigger] t.owned[a].len() <= t.max_owned by {
        if a != owner {
            assert(s.owned[a].len() <= s.max_owned);
        }
    }
    assert(t.tokens.dom() =~= s.tokens.dom().insert(id));
}

/// A successful burn keeps the state well formed.
pub proof fn law_burn_keeps_well_formed(s: State, requester: u64, id: u128)
    requires
        s.wf(),
        s.burn_error(requester, id).is_none(),
    ensures
        s.burn_step(requester, id).wf(),
        s.count > 0,
{
    let t = s.burn_step(requester, id);
    let list = s.owned[requester];
    assert(list.no_duplicates());
    lemma_without_ordered(list, id);
    assert forall|x: u128| #[trigger] t.tokens.contains_key(x) implies t.tokens[x].unique_id == x
        && t.owned[t.tokens[x].owner].contains(x) by {
        assert(s.tokens.contains_key(x));
        assert(s.owned[s.tokens[x].owner].contains(x));
    }
    assert forall|a: u64, x: u128| #[trigger] t.owned[a].contains(x) implies t.tokens.contains_key(
        x,
    ) && t.tokens[x].owner == a by {
        if a == requester {
            assert(list.contains(x));
        } else {
            assert(s.owned[a].contains(x));
        }
    }
    assert forall|a: u64| #[trigger] t.owned[a].no_duplicates() by {
        if a != requester {
            assert(s.owned[a].no_duplicates());
        }
    }
    assert forall|a: u64| #[trigger] t.owned[a].len() <= t.max_owned by {
        if a != requester {
            assert(s.owned[a].len() <= s.max_owned);
        } else {
            assert(s.owned[a].len() <= s.max_owned);
        }
    }
    assert(t.tokens.dom() =~= s.tokens.dom().remove(id));
    assert(s.tokens.dom().contains(id));
    assert(s.tokens.dom().len() > 0) by {
        if s.tokens.dom().len() == 0 {
            assert(s.tokens.dom() =~= Set::<u128>::empty());
        }
    }
}

/// Moving a token to another account with room for it keeps the state
/// well formed.
pub proof fn law_move_keeps_well_formed(s: State, id: u128, to: u64)
    requires
        s.wf(),
        s.transfer_error(id, to).is_none(),
    ensures
        s.moved(id, to).wf(),
        s.transfer_step(id, to).wf(),
        s.buy_step(id, to).wf(),
{
    let t = s.moved(id, to);
    let from = s.tokens[id].owner;
    let from_list = s.owned[from];
    let to_list = s.owned[to];
    assert(from_list.no_duplicates());
    assert(to_list.no_duplicates());
    assert(!to_list.contains(id));
    lemma_without_swapped(from_list, id);
    lemma_pushed(to_list, id);
    assert(t.owned[to] == to_list.push(id));
    assert(t.owned[from] == without_swapped(from_list, id));
    assert forall|x: u128| #[trigger] t.tokens.contains_key(x) implies t.tokens[x].unique_id == x
        && t.owned[t.tokens[x].owner].contains(x) by {
        if x != id {
            assert(s.tokens.contains_key(x));
            assert(s.owned[s.tokens[x].owner].contains(x));
        }
    }
    assert forall|a: u64, x: u128| #[trigger] t.owned[a].contains(x) implies t.tokens.contains_key(
        x,
    ) && t.tokens[x].owner == a by {
        if a == from {
            assert(from_list.contains(x));
        } else if a == to {
            if x != id {
                assert(to_list.contains(x));
            }
        } else {
            assert(s.owned[a].contains(x));
        }
    }
    assert forall|a: u64| #[trigger] t.owned[a].no_duplicates() by {
        if a != from && a != to {
            assert(s.owned[a].no_duplicates());
        }
    }
    assert forall|a: u64| #[trigger] t.owned[a].len() <= t.max_owned by {
        assert(s.owned[a].len() <= s.max_owned);
    }
    assert(t.tokens.dom() =~= s.tokens.dom());
    let u = s.transfer_step(id, to);
    assert(u.tokens == t.tokens && u.owned == t.owned && u.count == t.count && u.max_owned
        == t.max_owned);
    let v = s.buy_step(id, to);
    assert(v.tokens == t.tokens && v.owned == t.owned && v.count == t.count && v.max_owned
        == t.max_owned);
}

/// Setting a price keeps the state well formed, and changes neither who
/// owns what nor the counter.
pub proof fn law_set_price_keeps_well_formed(s: State, caller: u64, id: u128, price: Option<u128>)
    requires
        s.wf(),
        s.set_price_error(caller, id).is_none(),
    ensures
        s.set_price_step(id, price).wf(),
        s.set_price_step(id, price).owned == s.owned,
        s.set_price_step(id, price).count == s.count,
{
    let t = s.set_price_step(id, price);
    assert forall|x: u128| #[trigger] t.tokens.contains_key(x) implies t.tokens[x].unique_id == x
        && t.owned[t.tokens[x].owner].contains(x) by {
        assert(s.tokens.contains_key(x));
    }
    assert forall|a: u64, x: u128| #[trigger] t.owned[a].contains(x) implies t.tokens.contains_key(
        x,
    ) && t.tokens[x].owner == a by {
        assert(s.owned[a].contains(x));
    }
    assert(t.tokens.dom() =~= s.tokens.dom());
}

/// Capacity boundary: nothing enters a list that is full. A mint for an
/// account whose list is full fails, with `MaximumTokensOwned` unless the
/// identifier is taken or the counter is at its limit; a transfer or a
/// purchase of an existing token into another account whose list is full
/// fails with `MaximumTokensOwned`, whatever the bid.
pub proof fn law_capacity_boundary(s: State, account: u64, id: u128, bid: u128)
    requires
        s.wf(),
        s.owned[account].len() >= s.max_owned,
    ensures
        s.mint_error(account, id).is_some(),
        !s.tokens.contains_key(id) && s.count < u64::MAX ==> s.mint_error(account, id) == Some(
            Error::MaximumTokensOwned,
        ),
        s.tokens.contains_key(id) && s.tokens[id].owner != account ==> s.transfer_error(
            id,
            account,
        ) == Some(Error::MaximumTokensOwned) && s.buy_error(id, account, bid) == Some(
            Error::MaximumTokensOwned,
        ) && s.owner_transfer_error(s.tokens[id].owner, account, id) == Some(
            Error::MaximumTokensOwned,
        ),
{
    if s.tokens.contains_key(id) {
        assert(s.owned[s.tokens[id].owner].contains(id));
    }
}

/// Price reset: after a transfer or a purchase the token is not for
/// sale, whatever its price was, and it belongs to the receiver.
pub proof fn law_price_reset(s: State, id: u128, to: u64)
    ensures
        s.transfer_step(id, to).tokens[id].price.is_none(),
        s.buy_step(id, to).tokens[id].price.is_none(),
        s.transfer_step(id, to).tokens[id].owner == to,
        s.buy_step(id, to).tokens[id].owner == to,
{
}

/// Buy pricing: for a token listed at `price`, a purchase that the
/// registry accepts asks the ledger to move exactly `price` from the buyer
/// to the owner, never the bid, and the bid is at least `price`.
pub proof fn law_buy_pricing(s: State, id: u128, to: u64, bid: u128, price: u128)
    requires
        s.tokens.contains_key(id),
        s.tokens[id].price == Some(price),
        s.buy_error(id, to, bid).is_none(),
    ensures
        s.buy_payment(id, to).amount == price,
        s.buy_payment(id, to).payer == to,
        s.buy_payment(id, to).payee == s.tokens[id].owner,
        price <= bid,
        s.buy_step(id, to).events == s.events.push(
            Event::Sold { seller: s.tokens[id].owner, buyer: to, token: id, price },
        ).push(Event::TransferSucceeded { from: s.tokens[id].owner, to, token: id }),
{
}

/// Nothing fails after payment: a purchase that the registry's rules
/// accept fails only if the ledger refuses, and then with the ledger's
/// own error.
pub proof fn law_nothing_fails_after_payment(
    s: State,
    id: u128,
    to: u64,
    bid: u128,
    paid: Result<(), LedgerError>,
)
    requires
        s.buy_error(id, to, bid).is_none(),
    ensures
        paid.is_ok() ==> s.settled_buy_error(id, to, bid, paid).is_none(),
        paid.is_err() ==> s.settled_buy_error(id, to, bid, paid) == Some(
            Error::Ledger(paid.unwrap_err()),
        ),
{
}

} // verus!
