use vstd::prelude::*;
use crate::account::AccountId;
use crate::ledger::LedgerState;
use crate::model::{EngineState, Operation};
use crate::types::{Balance, BlockNumber, ContractId, Error, Grams, Stage};

verus! {

/// One operation, done or refused, keeps a sound state sound.
pub proof fn step_keeps_sound(state: EngineState, op: Operation)
    requires
        state.sound(),
    ensures
        state.step(op).sound(),
{
    match op {
        Operation::Transfer { caller, to, value } => {
            state.ledger.lemma_transfer_keeps_sum(caller, to, value);
        },
        Operation::Approve { caller, spender, value } => {},
        Operation::TransferFrom { caller, from, to, value } => {
            state.ledger.lemma_transfer_keeps_sum(from, to, value);
        },
        Operation::CreateContract { caller, price, total, weight, finality_block, current_block } => {},
        Operation::BuyContract { caller, id, current_block } => {
            if state.buy_result(caller, id) is Ok {
                let contract = state.contracts[id as int];
                let paid = state.moved(caller, contract.seller, contract.price);
                state.ledger.lemma_transfer_keeps_sum(caller, contract.seller, contract.price);
                paid.ledger.lemma_transfer_keeps_sum(caller, state.custodian, contract.total);
            }
        },
        Operation::Finalize { caller, id, current_block } => {
            if state.finalize_result(caller, id, current_block) is Ok {
                let contract = state.contracts[id as int];
                state.ledger.lemma_transfer_keeps_sum(
                    state.custodian,
                    contract.seller,
                    contract.total,
                );
            }
        },
        Operation::TakeEvents => {},
    }
}

/// Conservation: in every state that the engine can reach from its start, by whatever series
/// of operations, the balances add up to the total supply, and no contract is finalized
/// without a buyer.
pub proof fn every_reachable_state_is_sound(
    total_supply: Balance,
    holder: AccountId,
    custodian: AccountId,
    ops: Seq<Operation>,
)
    ensures
        EngineState::genesis(total_supply, holder, custodian).run(ops).sound(),
        EngineState::genesis(total_supply, holder, custodian).run(ops).ledger.circulating()
            == total_supply,
    decreases ops.len(),
{
    let start = EngineState::genesis(total_supply, holder, custodian);
    if ops.len() == 0 {
        LedgerState::lemma_genesis_conserves(total_supply, holder);
    } else {
        every_reachable_state_is_sound(total_supply, holder, custodian, ops.drop_last());
        step_keeps_sound(start.run(ops.drop_last()), ops.last());
        supply_is_fixed(start, ops);
    }
}

/// The total supply and the custodian are fixed at the start: no operation changes them.
pub proof fn supply_is_fixed(state: EngineState, ops: Seq<Operation>)
    ensures
        state.run(ops).ledger.total_supply == state.ledger.total_supply,
        state.run(ops).custodian == state.custodian,
    decreases ops.len(),
{
    if ops.len() > 0 {
        supply_is_fixed(state, ops.drop_last());
    }
}

/// Overwrite semantics: after `approve`, the allowance is exactly the value approved, whatever
/// it was before; no other allowance and no balance has changed.
pub proof fn approve_overwrites(
    state: EngineState,
    owner: AccountId,
    spender: AccountId,
    value: Balance,
    other_owner: AccountId,
    other_spender: AccountId,
)
    ensures
        state.after_approve(owner, spender, value).ledger.allowance(owner, spender) == value,
        (other_owner != owner || other_spender != spender) ==> state.after_approve(
            owner,
            spender,
            value,
        ).ledger.allowance(other_owner, other_spender) == state.ledger.allowance(
            other_owner,
            other_spender,
        ),
        state.after_approve(owner, spender, value).ledger.balances == state.ledger.balances,
{
}

/// Exact deduction, the allowance: a `transfer_from` that is done lowers what the caller may
/// still move out of the owner's balance by exactly the value moved.
pub proof fn transfer_from_lowers_allowance_exactly(
    state: EngineState,
    caller: AccountId,
    from: AccountId,
    to: AccountId,
    value: Balance,
)
    requires
        state.transfer_from_result(caller, from, to, value) is Ok,
    ensures
        state.after_transfer_from(caller, from, to, value).ledger.allowance(from, caller)
            == state.ledger.allowance(from, caller) - value,
{
}

/// Exact deduction, the balances: a `transfer_from` that is done, to another account than the
/// owner's, lowers the owner's balance by exactly the value moved and raises the receiver's by
/// the same.
pub proof fn transfer_from_moves_exactly(
    state: EngineState,
    caller: AccountId,
    from: AccountId,
    to: AccountId,
    value: Balance,
)
    requires
        state.transfer_from_result(caller, from, to, value) is Ok,
        from != to,
    ensures
        state.after_transfer_from(caller, from, to, value).ledger.balance_of(from)
            == state.ledger.balance_of(from) - value,
        state.after_transfer_from(caller, from, to, value).ledger.balance_of(to)
            == state.ledger.balance_of(to) + value,
{
}

/// A `transfer_from` that is refused leaves the whole state as it was, the allowance included.
pub proof fn refused_transfer_from_changes_nothing(
    state: EngineState,
    caller: AccountId,
    from: AccountId,
    to: AccountId,
    value: Balance,
)
    requires
        state.transfer_from_result(caller, from, to, value) is Err,
    ensures
        state.after_transfer_from(caller, from, to, value) == state,
{
}

/// Creation validity: a contract whose finality block lies before the current block is
/// refused with `InvalidBlockNumber`, and the count of contracts stays as it was.
pub proof fn late_listing_is_refused(
    state: EngineState,
    caller: AccountId,
    price: Balance,
    total: Balance,
    weight: Grams,
    finality_block: BlockNumber,
    current_block: BlockNumber,
)
    requires
        finality_block < current_block,
    ensures
        state.create_result(finality_block, current_block) == Err::<ContractId, Error>(
            Error::InvalidBlockNumber,
        ),
        state.after_create(caller, price, total, weight, finality_block, current_block) == state,
        state.after_create(
            caller,
            price,
            total,
            weight,
            finality_block,
            current_block,
        ).contracts.len() == state.contracts.len(),
{
}

/// What the terms of a contract are: everything but its buyer and whether it was finalized.
pub open spec fn same_terms(state: EngineState, later: EngineState, id: ContractId) -> bool {
    &&& later.contract(id) is Some
    &&& later.contract(id)->0.seller == state.contract(id)->0.seller
    &&& later.contract(id)->0.price == state.contract(id)->0.price
    &&& later.contract(id)->0.total == state.contract(id)->0.total
    &&& later.contract(id)->0.weight == state.contract(id)->0.weight
    &&& later.contract(id)->0.finality_block == state.contract(id)->0.finality_block
}

/// Whether a contract at `earlier` may be found at `later` afterwards: at the same stage, or
/// one stage on.
pub open spec fn stage_follows(earlier: Stage, later: Stage) -> bool {
    ||| later == earlier
    ||| (earlier == Stage::Listed && later == Stage::Bought)
    ||| (earlier == Stage::Bought && later == Stage::Finalized)
}

/// No operation unlists a contract, renumbers it or changes its terms; a buyer once recorded
/// stays; and a contract moves from listed to bought to finalized, one stage at a time and
/// never back.
pub proof fn step_keeps_contracts(state: EngineState, op: Operation, id: ContractId)
    requires
        state.sound(),
        state.contract(id) is Some,
    ensures
        state.step(op).contracts.len() >= state.contracts.len(),
        same_terms(state, state.step(op), id),
        state.contract(id)->0.buyer is Some ==> state.step(op).contract(id)->0.buyer
            == state.contract(id)->0.buyer,
        stage_follows(state.contract(id)->0.stage(), state.step(op).contract(id)->0.stage()),
{
}

/// Once a contract is bought, its buyer stays recorded through any series of operations.
pub proof fn buyer_is_forever(state: EngineState, ops: Seq<Operation>, id: ContractId)
    requires
        state.sound(),
        state.contract(id) is Some,
        state.contract(id)->0.buyer is Some,
    ensures
        state.run(ops).sound(),
        state.run(ops).contract(id) is Some,
        state.run(ops).contract(id)->0.buyer == state.contract(id)->0.buyer,
    decreases ops.len(),
{
    if ops.len() > 0 {
        buyer_is_forever(state, ops.drop_last(), id);
        step_keeps_sound(state.run(ops.drop_last()), ops.last());
        step_keeps_contracts(state.run(ops.drop_last()), ops.last(), id);
    }
}

/// Exactly-once buy: when a contract has been bought, then after any series of operations a
/// further `buy_contract` on it, by whomever, is refused with `ContractAlreadyBought` and
/// leaves the whole state, every balance and the recorded seller and buyer included, as it was.
pub proof fn second_buy_is_refused(
    state: EngineState,
    first: AccountId,
    id: ContractId,
    ops: Seq<Operation>,
    second: AccountId,
)
    requires
        state.sound(),
        state.buy_result(first, id) is Ok,
    ensures
        state.after_buy(first, id).run(ops).buy_result(second, id) == Err::<(), Error>(
            Error::ContractAlreadyBought,
        ),
        state.after_buy(first, id).run(ops).after_buy(second, id) == state.after_buy(
            first,
            id,
        ).run(ops),
        state.after_buy(first, id).run(ops).contract(id)->0.buyer == Some(first),
{
    let bought = state.after_buy(first, id);
    step_keeps_sound(state, Operation::BuyContract { caller: first, id, current_block: 0 });
    buyer_is_forever(bought, ops, id);
}

/// What a purchase moves: the buyer pays price and total, the seller receives the price, the
/// custodian receives the total, and no other balance changes. Where one account plays two of
/// these parts, what it pays and what it receives add up.
pub proof fn buy_moves_price_and_total(
    state: EngineState,
    caller: AccountId,
    id: ContractId,
    account: AccountId,
)
    requires
        state.sound(),
        state.buy_result(caller, id) is Ok,
    ensures
        state.after_buy(caller, id).ledger.balance_of(account) == state.ledger.balance_of(account)
            - (if account == caller {
            state.contracts[id as int].price + state.contracts[id as int].total
        } else {
            0
        }) + (if account == state.contracts[id as int].seller {
            state.contracts[id as int].price as int
        } else {
            0
        }) + (if account == state.custodian {
            state.contracts[id as int].total as int
        } else {
            0
        }),
        state.after_buy(caller, id).contract(id)->0.stage() == Stage::Bought,
        state.after_buy(caller, id).contract(id)->0.in_custody()
            == state.contracts[id as int].total,
{
    let contract = state.contracts[id as int];
    let paid = state.moved(caller, contract.seller, contract.price);
    state.ledger.lemma_conserving_transfer_never_overflows(caller, contract.seller, contract.price);
    state.ledger.lemma_transfer_keeps_sum(caller, contract.seller, contract.price);
    state.ledger.lemma_transfer_moves(caller, contract.seller, contract.price, caller);
    state.ledger.lemma_transfer_moves(caller, contract.seller, contract.price, account);
    paid.ledger.lemma_conserving_transfer_never_overflows(caller, state.custodian, contract.total);
    paid.ledger.lemma_transfer_moves(caller, state.custodian, contract.total, account);
}

/// What a finalization moves: the total goes from the custodian to the seller, no other
/// balance changes, and nothing is held any longer on account of the contract.
pub proof fn finalize_releases_total(
    state: EngineState,
    caller: AccountId,
    id: ContractId,
    current_block: BlockNumber,
    account: AccountId,
)
    requires
        state.finalize_result(caller, id, current_block) is Ok,
    ensures
        state.after_finalize(caller, id, current_block).ledger.balance_of(account)
            == state.ledger.balance_of(account) - (if account == state.custodian {
            state.contracts[id as int].total as int
        } else {
            0
        }) + (if account == state.contracts[id as int].seller {
            state.contracts[id as int].total as int
        } else {
            0
        }),
        state.after_finalize(caller, id, current_block).contract(id)->0.stage()
            == Stage::Finalized,
        state.after_finalize(caller, id, current_block).contract(id)->0.in_custody() == 0,
{
    let contract = state.contracts[id as int];
    state.ledger.lemma_transfer_moves(state.custodian, contract.seller, contract.total, account);
}

/// A finalized contract stays exactly as it is through any series of operations, so nothing
/// is ever held on its account again.
pub proof fn finalized_is_forever(state: EngineState, ops: Seq<Operation>, id: ContractId)
    requires
        state.sound(),
        state.contract(id) is Some,
        state.contract(id)->0.finalized,
    ensures
        state.run(ops).sound(),
        state.run(ops).contract(id) == state.contract(id),
        state.run(ops).contract(id)->0.in_custody() == 0,
    decreases ops.len(),
{
    if ops.len() > 0 {
        finalized_is_forever(state, ops.drop_last(), id);
        step_keeps_sound(state.run(ops.drop_last()), ops.last());
    }
}

/// Exactly-once finalize: when a contract has been finalized, then after any series of
/// operations a further `finalize` on it, by whomever and whenever, is refused with
/// `ContractAlreadyFinalized` and leaves the whole state as it was; the custodian holds
/// nothing on its account.
pub proof fn second_finalize_is_refused(
    state: EngineState,
    first: AccountId,
    id: ContractId,
    first_block: BlockNumber,
    ops: Seq<Operation>,
    second: AccountId,
    second_block: BlockNumber,
)
    requires
        state.sound(),
        state.finalize_result(first, id, first_block) is Ok,
    ensures
        state.after_finalize(first, id, first_block).run(ops).finalize_result(
            second,
            id,
            second_block,
        ) == Err::<(), Error>(Error::ContractAlreadyFinalized),
        state.after_finalize(first, id, first_block).run(ops).after_finalize(
            second,
            id,
            second_block,
        ) == state.after_finalize(first, id, first_block).run(ops),
        state.after_finalize(first, id, first_block).run(ops).contract(id)->0.in_custody() == 0,
{
    let finalized = state.after_finalize(first, id, first_block);
    step_keeps_sound(state, Operation::Finalize { caller: first, id, current_block: first_block });
    finalized_is_forever(finalized, ops, id);
}

/// Deadline strictness: a contract that exists and is not finalized cannot be finalized at its
/// finality block or before it, bought or not: the call is refused with
/// `CannotFinalizeBeforeFinalityBlock` and changes nothing.
pub proof fn finalize_waits_for_the_block_after(
    state: EngineState,
    caller: AccountId,
    id: ContractId,
    current_block: BlockNumber,
)
    requires
        state.contract(id) is Some,
        !state.contract(id)->0.finalized,
        current_block <= state.contract(id)->0.finality_block,
    ensures
        state.finalize_result(caller, id, current_block) == Err::<(), Error>(
            Error::CannotFinalizeBeforeFinalityBlock,
        ),
        state.after_finalize(caller, id, current_block) == state,
{
}

/// Access control: `finalize` by anyone but the recorded buyer is never done and changes
/// nothing, whatever else holds of the contract.
pub proof fn only_the_buyer_finalizes(
    state: EngineState,
    caller: AccountId,
    id: ContractId,
    current_block: BlockNumber,
)
    requires
        state.contract(id) is Some ==> state.contract(id)->0.buyer != Some(caller),
    ensures
        state.finalize_result(caller, id, current_block) is Err,
        state.after_finalize(caller, id, current_block) == state,
{
}

/// Access control, the refusal: where a contract is bought, not finalized and past its
/// finality block, `finalize` by anyone but its buyer is refused with `OnlyBuyerCanFinalize`.
pub proof fn stranger_is_told_only_buyer_can_finalize(
    state: EngineState,
    caller: AccountId,
    id: ContractId,
    current_block: BlockNumber,
)
    requires
        state.contract(id) is Some,
        !state.contract(id)->0.finalized,
        current_block > state.contract(id)->0.finality_block,
        state.contract(id)->0.buyer is Some,
        state.contract(id)->0.buyer != Some(caller),
    ensures
        state.finalize_result(caller, id, current_block) == Err::<(), Error>(
            Error::OnlyBuyerCanFinalize,
        ),
        state.after_finalize(caller, id, current_block) == state,
{
}

} // verus!
