use vstd::prelude::*;
use crate::msg::Coin;

verus! {

/// The immutable-after-setup parameters of the collection, plus the
/// monotonic token-id counter. Created once at instantiation; only
/// `previous_token_id` mutates thereafter.
#[derive(Debug, PartialEq, Eq)]
pub struct Config {
    /// The denomination accepted for deposits.
    pub deposit_denom: String,
    /// The base of the metadata URI.
    pub base_url: String,
    /// The price of minting a new token.
    pub mint_price: Coin,
    /// The supply cap; `None` leaves the supply unlimited.
    pub max_nft_supply: Option<u64>,
    /// The recipient of mint proceeds.
    pub sale_funds_recipient: String,
    /// The id of the last token whose mint attempt was accepted. The next
    /// candidate id is one more; ids are 1-indexed and never recycled.
    pub previous_token_id: u64,
}

/// The mapping that a sequence of ledger entries represents: later entries
/// win, though a well-formed ledger never repeats a token.
pub open spec fn balances_of(s: Seq<(String, u128)>) -> Map<Seq<char>, u128>
    decreases s.len(),
{
    if s.len() == 0 {
        Map::empty()
    } else {
        balances_of(s.drop_last()).insert(s.last().0@, s.last().1)
    }
}

/// The balance of one token in a balance mapping, zero when the token has
/// no entry.
pub open spec fn spec_map_balance(m: Map<Seq<char>, u128>, token_id: Seq<char>) -> u128 {
    if m.contains_key(token_id) {
        m[token_id]
    } else {
        0
    }
}

/// One deposit's effect on a balance mapping: exactly the deposited token's
/// balance grows by the amount.
pub open spec fn spec_deposit_step(
    m: Map<Seq<char>, u128>,
    token_id: Seq<char>,
    amount: u128,
) -> Map<Seq<char>, u128> {
    m.insert(token_id, (spec_map_balance(m, token_id) + amount) as u128)
}

/// No token id occurs twice among the entries.
pub open spec fn distinct_keys(s: Seq<(String, u128)>) -> bool {
    forall|i: int, j: int| 0 <= i < j < s.len() ==> s[i].0@ != s[j].0@
}

/// Every entry carries a positive balance; absence stands for zero.
pub open spec fn positive_amounts(s: Seq<(String, u128)>) -> bool {
    forall|i: int| 0 <= i < s.len() ==> s[i].1 > 0
}

/// The balance ledger: how much has been deposited into each token, in the
/// configured deposit denomination.
///
/// A token without an entry has balance zero: an entry appears with the
/// first deposit and is never removed, not even when the token is burned.
#[derive(Debug, PartialEq, Eq)]
pub struct Ledger {
    entries: Vec<(String, u128)>,
}

impl View for Ledger {
    type V = Map<Seq<char>, u128>;

    closed spec fn view(&self) -> Map<Seq<char>, u128> {
        balances_of(self.entries@)
    }
}

proof fn lemma_distinct_drop_last(s: Seq<(String, u128)>)
    requires
        s.len() > 0,
        distinct_keys(s),
    ensures
        distinct_keys(s.drop_last()),
        positive_amounts(s) ==> positive_amounts(s.drop_last()),
{
    assert forall|i: int, j: int| 0 <= i < j < s.drop_last().len() implies s.drop_last()[i].0@
        != s.drop_last()[j].0@ by {
        assert(s.drop_last()[i] == s[i]);
        assert(s.drop_last()[j] == s[j]);
    }
    if positive_amounts(s) {
        assert forall|i: int| 0 <= i < s.drop_last().len() implies s.drop_last()[i].1 > 0 by {
            assert(s.drop_last()[i] == s[i]);
        }
    }
}

/// A token is in the represented mapping exactly when some entry names it.
proof fn lemma_balances_contains(s: Seq<(String, u128)>, k: Seq<char>)
    ensures
        balances_of(s).contains_key(k) <==> exists|i: int| 0 <= i < s.len() && s[i].0@ == k,
    decreases s.len(),
{
    if s.len() == 0 {
    } else {
        lemma_balances_contains(s.drop_last(), k);
        if s.last().0@ == k {
            assert(s[s.len() - 1].0@ == k);
        } else {
            if exists|i: int| 0 <= i < s.len() && s[i].0@ == k {
                let i = choose|i: int| 0 <= i < s.len() && s[i].0@ == k;
                assert(i < s.len() - 1);
                assert(s.drop_last()[i] == s[i]);
            }
            if balances_of(s).contains_key(k) {
                let i = choose|i: int| 0 <= i < s.drop_last().len() && s.drop_last()[i].0@ == k;
                assert(s[i].0@ == k);
            }
        }
    }
}

/// With distinct keys, the entry that names a token gives its balance.
proof fn lemma_balances_value(s: Seq<(String, u128)>, k: Seq<char>, i: int)
    requires
        distinct_keys(s),
        0 <= i < s.len(),
        s[i].0@ == k,
    ensures
        balances_of(s).contains_key(k),
        balances_of(s)[k] == s[i].1,
    decreases s.len(),
{
    if i == s.len() - 1 {
    } else {
        assert(s.last().0@ != k);
        lemma_distinct_drop_last(s);
        assert(s.drop_last()[i] == s[i]);
        lemma_balances_value(s.drop_last(), k, i);
    }
}

/// Overwriting one entry in place updates exactly that token's balance.
proof fn lemma_balances_update(s: Seq<(String, u128)>, i: int, e: (String, u128))
    requires
        distinct_keys(s),
        0 <= i < s.len(),
        e.0@ == s[i].0@,
    ensures
        balances_of(s.update(i, e)) == balances_of(s).insert(e.0@, e.1),
    decreases s.len(),
{
    let t = s.update(i, e);
    if i == s.len() - 1 {
        assert(t.drop_last() =~= s.drop_last());
        assert(t.last() == e);
        assert(balances_of(t) =~= balances_of(s).insert(e.0@, e.1));
    } else {
        assert(t.drop_last() =~= s.drop_last().update(i, e));
        assert(t.last() == s.last());
        lemma_distinct_drop_last(s);
        assert(s.drop_last()[i] == s[i]);
        lemma_balances_update(s.drop_last(), i, e);
        assert(s.last().0@ != e.0@);
        assert(balances_of(t) =~= balances_of(s).insert(e.0@, e.1));
    }
}

/// Appending an entry for a fresh token inserts exactly that balance.
proof fn lemma_balances_push(s: Seq<(String, u128)>, e: (String, u128))
    ensures
        balances_of(s.push(e)) == balances_of(s).insert(e.0@, e.1),
{
    assert(s.push(e).drop_last() =~= s);
    assert(s.push(e).last() == e);
}

impl Ledger {
    /// The representation holds each token at most once, with a positive
    /// balance.
    pub closed spec fn wf(&self) -> bool {
        distinct_keys(self.entries@) && positive_amounts(self.entries@)
    }

    /// The balance of one token, zero when the token has no entry.
    pub open spec fn spec_balance(&self, token_id: Seq<char>) -> u128 {
        spec_map_balance(self@, token_id)
    }

    /// An empty ledger: every token's balance is zero.
    pub fn new() -> (l: Ledger)
        ensures
            l.wf(),
            l@ == Map::<Seq<char>, u128>::empty(),
    {
        Ledger { entries: Vec::new() }
    }

    /// Looks the balance of one token up, defaulting to zero when the token
    /// has no entry.
    pub fn balance_of(&self, token_id: &String) -> (r: u128)
        requires
            self.wf(),
        ensures
            r == self.spec_balance(token_id@),
    {
        let n = self.entries.len();
        let mut i: usize = 0;
        while i < n
            invariant
                self.wf(),
                n == self.entries@.len(),
                0 <= i <= n,
                forall|j: int| 0 <= j < i ==> self.entries@[j].0@ != token_id@,
            decreases n - i,
        {
            if self.entries[i].0 == *token_id {
                proof {
                    lemma_balances_value(self.entries@, token_id@, i as int);
                }
                return self.entries[i].1;
            }
            i += 1;
        }
        proof {
            lemma_balances_contains(self.entries@, token_id@);
        }
        0
    }

    /// Adds `amount` to one token's balance, creating the entry if the token
    /// has none. Every other token's balance is untouched.
    pub fn credit(&mut self, token_id: &String, amount: u128)
        requires
            old(self).wf(),
            amount > 0,
            old(self).spec_balance(token_id@) + amount <= u128::MAX,
        ensures
            final(self).wf(),
            final(self)@ == spec_deposit_step(old(self)@, token_id@, amount),
    {
        let n = self.entries.len();
        let mut i: usize = 0;
        while i < n
            invariant
                self.entries@ == old(self).entries@,
                distinct_keys(self.entries@),
                positive_amounts(self.entries@),
                n == self.entries@.len(),
                0 <= i <= n,
                amount > 0,
                old(self).spec_balance(token_id@) + amount <= u128::MAX,
                forall|j: int| 0 <= j < i ==> self.entries@[j].0@ != token_id@,
            decreases n - i,
        {
            if self.entries[i].0 == *token_id {
                let ghost s = self.entries@;
                proof {
                    lemma_balances_value(s, token_id@, i as int);
                }
                let key = self.entries[i].0.clone();
                let new_amount = self.entries[i].1 + amount;
                let ghost e: (String, u128) = (key, new_amount);
                self.entries[i] = (key, new_amount);
                proof {
                    lemma_balances_update(s, i as int, e);
                    assert forall|a: int, b: int|
                        0 <= a < b < self.entries@.len() implies self.entries@[a].0@
                        != self.entries@[b].0@ by {
                        assert(self.entries@[a].0@ == s[a].0@);
                        assert(self.entries@[b].0@ == s[b].0@);
                    }
                    assert(positive_amounts(self.entries@));
                }
                return;
            }
            i += 1;
        }
        let ghost s = self.entries@;
        proof {
            lemma_balances_contains(s, token_id@);
            lemma_balances_push(s, (*token_id, amount));
        }
        self.entries.push((token_id.clone(), amount));
        proof {
            assert(self.entries@ == s.push((*token_id, amount)));
            assert forall|a: int, b: int|
                0 <= a < b < self.entries@.len() implies self.entries@[a].0@
                != self.entries@[b].0@ by {
                assert(self.entries@[a] == s[a]);
                if b < s.len() {
                    assert(self.entries@[b] == s[b]);
                }
            }
            assert forall|a: int| 0 <= a < self.entries@.len() implies self.entries@[a].1 > 0 by {
                if a < s.len() {
                    assert(self.entries@[a] == s[a]);
                }
            }
        }
    }
}

} // verus!
