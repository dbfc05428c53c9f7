use vstd::prelude::*;
use crate::contract::{
    burn_post, config_advanced, mint_ok_response, mint_post, spec_candidate_id,
    spec_cap_exceeded,
};
use crate::error::ContractError;
use crate::msg::{Coin, Response};
use crate::payment::spec_must_pay;
use crate::state::{spec_deposit_step, spec_map_balance, Config, Ledger};

verus! {

/// A sequence of deposits applied in order to a balance mapping, however
/// the deposited tokens interleave.
pub open spec fn spec_apply_deposits(
    m: Map<Seq<char>, u128>,
    deposits: Seq<(Seq<char>, u128)>,
) -> Map<Seq<char>, u128>
    decreases deposits.len(),
{
    if deposits.len() == 0 {
        m
    } else {
        spec_apply_deposits(
            spec_deposit_step(m, deposits[0].0, deposits[0].1),
            deposits.drop_first(),
        )
    }
}

/// The total a sequence of deposits puts into one token.
pub open spec fn spec_deposited_sum(deposits: Seq<(Seq<char>, u128)>, token_id: Seq<char>) -> int
    decreases deposits.len(),
{
    if deposits.len() == 0 {
        0int
    } else {
        (if deposits[0].0 == token_id {
            deposits[0].1 as int
        } else {
            0int
        }) + spec_deposited_sum(deposits.drop_first(), token_id)
    }
}

proof fn lemma_deposited_sum_nonneg(deposits: Seq<(Seq<char>, u128)>, token_id: Seq<char>)
    ensures
        spec_deposited_sum(deposits, token_id) >= 0,
    decreases deposits.len(),
{
    if deposits.len() > 0 {
        lemma_deposited_sum_nonneg(deposits.drop_first(), token_id);
    }
}

/// After any sequence of deposits, each token's balance is its old balance
/// plus the sum of the amounts deposited into it: deposits to other tokens,
/// in whatever interleaving, do not interfere. (Each successful deposit
/// call performs exactly one `spec_deposit_step` on the ledger, as
/// `deposit_post` states.)
pub proof fn lemma_deposits_accumulate(
    m: Map<Seq<char>, u128>,
    deposits: Seq<(Seq<char>, u128)>,
    token_id: Seq<char>,
)
    requires
        forall|t: Seq<char>|
            spec_map_balance(m, t) + spec_deposited_sum(deposits, t) <= u128::MAX,
    ensures
        spec_map_balance(spec_apply_deposits(m, deposits), token_id) == spec_map_balance(
            m,
            token_id,
        ) + spec_deposited_sum(deposits, token_id),
    decreases deposits.len(),
{
    if deposits.len() == 0 {
    } else {
        let first = deposits[0];
        let rest = deposits.drop_first();
        let m1 = spec_deposit_step(m, first.0, first.1);
        assert forall|t: Seq<char>|
            spec_map_balance(m1, t) + spec_deposited_sum(rest, t) <= u128::MAX by {
            lemma_deposited_sum_nonneg(rest, t);
            if t == first.0 {
                assert(spec_deposited_sum(deposits, t) == first.1 + spec_deposited_sum(rest, t));
            } else {
                assert(spec_deposited_sum(deposits, t) == spec_deposited_sum(rest, t));
            }
        }
        lemma_deposits_accumulate(m1, rest, token_id);
        lemma_deposited_sum_nonneg(rest, first.0);
        if token_id == first.0 {
            assert(spec_map_balance(m1, token_id) == spec_map_balance(m, token_id) + first.1);
        } else {
            assert(spec_map_balance(m1, token_id) == spec_map_balance(m, token_id));
        }
    }
}

/// A confirmed burn pays out exactly what was deposited: when the ledger
/// was built by any sequence of deposits over an empty ledger, the burn of
/// a token refunds that token's accumulated sum in one transfer — and
/// nothing at all when nothing was deposited into it.
pub proof fn lemma_burn_refunds_deposits(
    c: Config,
    l: Ledger,
    deposits: Seq<(Seq<char>, u128)>,
    token_id: Seq<char>,
    sender: Seq<char>,
    r: Result<Response, ContractError>,
)
    requires
        l@ == spec_apply_deposits(Map::empty(), deposits),
        forall|t: Seq<char>| spec_deposited_sum(deposits, t) <= u128::MAX,
        burn_post(c, l, token_id, sender, Ok(()), r),
    ensures
        r is Ok,
        spec_deposited_sum(deposits, token_id) == 0 ==> r->Ok_0.messages@.len() == 0,
        spec_deposited_sum(deposits, token_id) > 0 ==> r->Ok_0.messages@.len() == 1
            && r->Ok_0.messages@[0].to_address@ == sender
            && r->Ok_0.messages@[0].amount@.len() == 1
            && r->Ok_0.messages@[0].amount@[0].amount == spec_deposited_sum(deposits, token_id),
{
    assert forall|t: Seq<char>|
        spec_map_balance(Map::<Seq<char>, u128>::empty(), t) + spec_deposited_sum(deposits, t)
            <= u128::MAX by {
        assert(!Map::<Seq<char>, u128>::empty().contains_key(t));
    }
    lemma_deposits_accumulate(Map::empty(), deposits, token_id);
}

/// A mint attempt whose payment matched the price advances the counter by
/// one and leaves every other parameter untouched — also when the supply
/// cap then rejects the candidate id. When the cap does not, the attempt
/// succeeds and creates the candidate token.
pub proof fn lemma_accepted_mint_advances(
    old_c: Config,
    new_c: Config,
    sender: Seq<char>,
    funds: Seq<Coin>,
    r: Result<Response, ContractError>,
)
    requires
        mint_post(old_c, new_c, sender, funds, r),
        spec_must_pay(funds, old_c.mint_price.denom@) == Ok::<u128, ContractError>(
            old_c.mint_price.amount,
        ),
    ensures
        config_advanced(old_c, new_c),
        !spec_cap_exceeded(old_c, spec_candidate_id(old_c)) ==> r is Ok && mint_ok_response(
            old_c,
            sender,
            r->Ok_0,
        ),
{
}

/// Along any chain of accepted mint attempts that starts at a fresh
/// configuration, the counter after the Nth attempt is N, so the Nth
/// successful mint is assigned token id N: ids are 1-indexed, sequential,
/// and never reused.
pub proof fn lemma_mint_ids_sequential(configs: Seq<Config>)
    requires
        configs.len() > 0,
        configs[0].previous_token_id == 0,
        forall|i: int| 0 <= i < configs.len() - 1 ==> #[trigger] config_advanced(configs[i], configs[i + 1]),
    ensures
        forall|i: int| 0 <= i < configs.len() ==> configs[i].previous_token_id == i,
        forall|i: int|
            0 <= i < configs.len() - 1 ==> spec_candidate_id(configs[i]) == i + 1,
{
    assert forall|i: int| 0 <= i < configs.len() implies configs[i].previous_token_id == i by {
        lemma_counter_after_attempts(configs, i);
    }
}

proof fn lemma_counter_after_attempts(configs: Seq<Config>, i: int)
    requires
        configs.len() > 0,
        configs[0].previous_token_id == 0,
        forall|j: int| 0 <= j < configs.len() - 1 ==> #[trigger] config_advanced(configs[j], configs[j + 1]),
        0 <= i < configs.len(),
    ensures
        configs[i].previous_token_id == i,
    decreases i,
{
    if i > 0 {
        lemma_counter_after_attempts(configs, i - 1);
        assert(config_advanced(configs[i - 1], configs[i]));
    }
}

} // verus!
