use vstd::prelude::*;
use crate::account::AccountId;
use crate::ledger::LedgerState;
use crate::types::{
    Approval, Balance, BlockNumber, ContractBought, ContractFinalized, ContractId, Error,
    EscrowContract, Event, Grams, NewContract, Transfer,
};

verus! {

/// Everything the engine records: the token ledger, the contracts in the order of their
/// numbers, the account that keeps locked funds, and the events not yet handed to the host.
pub struct EngineState {
    pub ledger: LedgerState,
    pub contracts: Seq<EscrowContract>,
    pub custodian: AccountId,
    pub events: Seq<Event>,
}

/// A call that may change the engine, with the caller and the time that the host supplies.
pub enum Operation {
    Transfer { caller: AccountId, to: AccountId, value: Balance },
    Approve { caller: AccountId, spender: AccountId, value: Balance },
    TransferFrom { caller: AccountId, from: AccountId, to: AccountId, value: Balance },
    CreateContract {
        caller: AccountId,
        price: Balance,
        total: Balance,
        weight: Grams,
        finality_block: BlockNumber,
        current_block: BlockNumber,
    },
    BuyContract { caller: AccountId, id: ContractId, current_block: BlockNumber },
    Finalize { caller: AccountId, id: ContractId, current_block: BlockNumber },
    TakeEvents,
}

/// A transfer's outcome without the event that reports it.
pub open spec fn without_event(done: Result<Transfer, Error>) -> Result<(), Error> {
    match done {
        Ok(_) => Ok(()),
        Err(refusal) => Err(refusal),
    }
}

impl EngineState {
    /// The engine as it starts: the whole supply with `holder`, no contract listed, and the
    /// creation of the tokens waiting to be reported.
    pub open spec fn genesis(total_supply: Balance, holder: AccountId, custodian: AccountId) -> EngineState {
        EngineState {
            ledger: LedgerState::genesis(total_supply, holder),
            contracts: Seq::empty(),
            custodian,
            events: seq![
                Event::Transfer(Transfer { from: None, to: Some(holder), value: total_supply }),
            ],
        }
    }

    /// What holds of every state the engine can get into: value is conserved, and a contract
    /// that was finalized had been bought.
    pub open spec fn sound(self) -> bool {
        &&& self.ledger.conserves()
        &&& forall|i: int|
            0 <= i < self.contracts.len() && (#[trigger] self.contracts[i]).finalized
                ==> self.contracts[i].buyer is Some
    }

    /// The contract numbered `id`, if one was listed under that number.
    pub open spec fn contract(self, id: ContractId) -> Option<EscrowContract> {
        if id < self.contracts.len() {
            Some(self.contracts[id as int])
        } else {
            None
        }
    }

    /// The state with one more event waiting for the host.
    pub open spec fn logged(self, event: Event) -> EngineState {
        EngineState { events: self.events.push(event), ..self }
    }

    /// The state with `contract` recorded under `id`, in place of what stood there.
    pub open spec fn with_contract(self, id: ContractId, contract: EscrowContract) -> EngineState {
        EngineState { contracts: self.contracts.update(id as int, contract), ..self }
    }

    /// The state after the ledger was asked to move `value` from `from` to `to`: where it did,
    /// the tokens are moved and the transfer is logged; where it refused, nothing has changed.
    pub open spec fn moved(self, from: AccountId, to: AccountId, value: Balance) -> EngineState {
        match self.ledger.transfer_result(from, to, value) {
            Ok(event) => EngineState {
                ledger: self.ledger.transferred(from, to, value),
                ..self
            }.logged(Event::Transfer(event)),
            Err(_) => self,
        }
    }

    /// How `transfer` ends.
    pub open spec fn transfer_result(self, caller: AccountId, to: AccountId, value: Balance) -> Result<
        (),
        Error,
    > {
        without_event(self.ledger.transfer_result(caller, to, value))
    }

    /// The state after `transfer`.
    pub open spec fn after_transfer(self, caller: AccountId, to: AccountId, value: Balance) -> EngineState {
        self.moved(caller, to, value)
    }

    /// The state after `approve`, which is never refused: the allowance is overwritten and the
    /// approval logged.
    pub open spec fn after_approve(self, caller: AccountId, spender: AccountId, value: Balance) -> EngineState {
        EngineState { ledger: self.ledger.approved(caller, spender, value), ..self }.logged(
            Event::Approval(Approval { owner: caller, spender, value }),
        )
    }

    /// How `transfer_from` ends.
    pub open spec fn transfer_from_result(
        self,
        caller: AccountId,
        from: AccountId,
        to: AccountId,
        value: Balance,
    ) -> Result<(), Error> {
        without_event(self.ledger.transfer_from_result(caller, from, to, value))
    }

    /// The state after `transfer_from`.
    pub open spec fn after_transfer_from(
        self,
        caller: AccountId,
        from: AccountId,
        to: AccountId,
        value: Balance,
    ) -> EngineState {
        match self.ledger.transfer_from_result(caller, from, to, value) {
            Ok(event) => EngineState {
                ledger: self.ledger.transferred_from(caller, from, to, value),
                ..self
            }.logged(Event::Transfer(event)),
            Err(_) => self,
        }
    }

    /// How `create_contract` ends: refused where the finality block lies before the current
    /// block, and otherwise answered with the next free number.
    pub open spec fn create_result(self, finality_block: BlockNumber, current_block: BlockNumber) -> Result<
        ContractId,
        Error,
    > {
        if finality_block < current_block {
            Err(Error::InvalidBlockNumber)
        } else {
            Ok(self.contracts.len() as ContractId)
        }
    }

    /// The state after `create_contract`: where it is not refused, the contract stands at the
    /// end of the list, without a buyer, and its listing is logged.
    pub open spec fn after_create(
        self,
        caller: AccountId,
        price: Balance,
        total: Balance,
        weight: Grams,
        finality_block: BlockNumber,
        current_block: BlockNumber,
    ) -> EngineState {
        match self.create_result(finality_block, current_block) {
            Ok(contract_id) => EngineState {
                contracts: self.contracts.push(
                    EscrowContract::listed(caller, price, total, weight, finality_block),
                ),
                ..self
            }.logged(
                Event::NewContract(
                    NewContract { contract_id, seller: caller, price, total, weight, finality_block },
                ),
            ),
            Err(_) => self,
        }
    }

    /// How `buy_contract` ends. The checks are made in this order, and the first that fails
    /// decides.
    pub open spec fn buy_result(self, caller: AccountId, id: ContractId) -> Result<(), Error> {
        match self.contract(id) {
            None => Err(Error::ContractNotFound),
            Some(contract) => if contract.buyer is Some {
                Err(Error::ContractAlreadyBought)
            } else if contract.price + contract.total > Balance::MAX {
                Err(Error::ArithmeticOverflow)
            } else if self.ledger.balance_of(caller) < contract.price + contract.total {
                Err(Error::InsufficientBalance)
            } else {
                Ok(())
            },
        }
    }

    /// The state after `buy_contract`: where it is not refused, the price has gone from the
    /// caller to the seller, then the total from the caller to the custodian, the caller is
    /// recorded as the buyer, and the purchase is logged after the two transfers.
    pub open spec fn after_buy(self, caller: AccountId, id: ContractId) -> EngineState {
        if self.buy_result(caller, id) is Ok {
            let contract = self.contracts[id as int];
            self.moved(caller, contract.seller, contract.price).moved(
                caller,
                self.custodian,
                contract.total,
            ).with_contract(id, EscrowContract { buyer: Some(caller), ..contract }).logged(
                Event::ContractBought(
                    ContractBought {
                        contract_id: id,
                        buyer: caller,
                        price: contract.price,
                        total: contract.total,
                    },
                ),
            )
        } else {
            self
        }
    }

    /// How `finalize` ends. The checks are made in this order, and the first that fails
    /// decides; the last is the payout itself, which the ledger refuses where the custodian
    /// no longer holds the total.
    pub open spec fn finalize_result(self, caller: AccountId, id: ContractId, current_block: BlockNumber) -> Result<
        (),
        Error,
    > {
        match self.contract(id) {
            None => Err(Error::ContractNotFound),
            Some(contract) => if contract.finalized {
                Err(Error::ContractAlreadyFinalized)
            } else if current_block <= contract.finality_block {
                Err(Error::CannotFinalizeBeforeFinalityBlock)
            } else if contract.buyer is None {
                Err(Error::ContractNotPurchased)
            } else if contract.buyer != Some(caller) {
                Err(Error::OnlyBuyerCanFinalize)
            } else {
                self.transfer_result(self.custodian, contract.seller, contract.total)
            },
        }
    }

    /// The state after `finalize`: where it is not refused, the total has gone from the
    /// custodian to the seller, the contract is marked, and the finalization is logged.
    pub open spec fn after_finalize(self, caller: AccountId, id: ContractId, current_block: BlockNumber) -> EngineState {
        if self.finalize_result(caller, id, current_block) is Ok {
            let contract = self.contracts[id as int];
            self.moved(self.custodian, contract.seller, contract.total).with_contract(
                id,
                EscrowContract { finalized: true, ..contract },
            ).logged(
                Event::ContractFinalized(
                    ContractFinalized { contract_id: id, buyer: caller, total: contract.total },
                ),
            )
        } else {
            self
        }
    }

    /// The state after the host has taken the waiting events.
    pub open spec fn after_take_events(self) -> EngineState {
        EngineState { events: Seq::empty(), ..self }
    }

    /// The state after one operation, done or refused.
    pub open spec fn step(self, op: Operation) -> EngineState {
        match op {
            Operation::Transfer { caller, to, value } => self.after_transfer(caller, to, value),
            Operation::Approve { caller, spender, value } => self.after_approve(
                caller,
                spender,
                value,
            ),
            Operation::TransferFrom { caller, from, to, value } => self.after_transfer_from(
                caller,
                from,
                to,
                value,
            ),
            Operation::CreateContract {
                caller,
                price,
                total,
                weight,
                finality_block,
                current_block,
            } => self.after_create(caller, price, total, weight, finality_block, current_block),
            Operation::BuyContract { caller, id, current_block } => self.after_buy(caller, id),
            Operation::Finalize { caller, id, current_block } => self.after_finalize(
                caller,
                id,
                current_block,
            ),
            Operation::TakeEvents => self.after_take_events(),
        }
    }

    /// The state after a series of operations, the first of `ops` first.
    pub open spec fn run(self, ops: Seq<Operation>) -> EngineState
        decreases ops.len(),
    {
        if ops.len() == 0 {
            self
        } else {
            self.run(ops.drop_last()).step(ops.last())
        }
    }
}

} // verus!
