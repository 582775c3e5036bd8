use vstd::prelude::*;
use crate::account::AccountId;
use crate::ledger::{LedgerRecord, TokenLedger};
use crate::model::EngineState;
use crate::types::{
    Approval, Balance, BlockNumber, CommodityContract, ContractBought, ContractFinalized,
    ContractId, Error, EscrowContract, Event, Grams, NewContract,
};

verus! {

/// An engine written out for keeping: its ledger and its contracts in the order of their
/// numbers. The custodian is the host's to name, and events do not outlast a call.
pub struct EngineRecord {
    pub ledger: LedgerRecord,
    pub contracts: Vec<EscrowContract>,
}

impl EngineRecord {
    /// What the record says the engine holds, with `custodian` keeping the locked funds and no
    /// event waiting.
    pub open spec fn state(&self, custodian: AccountId) -> EngineState {
        EngineState {
            ledger: self.ledger.state(),
            contracts: self.contracts@,
            custodian,
            events: Seq::empty(),
        }
    }

    /// Whether the record can be read back: the ledger's record is admissible, and what the
    /// record holds is sound.
    pub open spec fn admissible(&self) -> bool {
        &&& self.ledger.admissible()
        &&& self.ledger.state().conserves()
        &&& forall|i: int|
            0 <= i < self.contracts@.len() && (#[trigger] self.contracts@[i]).finalized
                ==> self.contracts@[i].buyer is Some
    }
}

/// The engine: a token ledger and, on top of it, the commodity contracts whose payments it
/// carries. The host names the caller and the current block with each call; what the engine
/// has to report waits in it until the host takes it.
pub struct SsalCommods {
    ledger: TokenLedger,
    contracts: Vec<EscrowContract>,
    custodian: AccountId,
    events: Vec<Event>,
}

impl SsalCommods {
    /// Everything the engine records.
    pub closed spec fn view(&self) -> EngineState {
        EngineState {
            ledger: self.ledger@,
            contracts: self.contracts@,
            custodian: self.custodian,
            events: self.events@,
        }
    }

    /// Whether the engine is in order. `new` gives an engine that is, and every call keeps it so.
    pub closed spec fn wf(&self) -> bool {
        &&& self.ledger.wf()
        &&& self@.sound()
    }

    /// An engine in order conserves value and holds no contract finalized without a buyer.
    pub proof fn lemma_wf_is_sound(&self)
        requires
            self.wf(),
        ensures
            self@.sound(),
    {
    }

    /// Starts an engine with the whole of `total_supply` credited to `caller`, and with
    /// `custodian` as the account that keeps what buyers lock.
    pub fn new(total_supply: Balance, caller: AccountId, custodian: AccountId) -> (engine: SsalCommods)
        ensures
            engine.wf(),
            engine@ == EngineState::genesis(total_supply, caller, custodian),
            engine@.sound(),
    {
        let (ledger, minted) = TokenLedger::initialize(total_supply, caller);
        let mut events: Vec<Event> = Vec::new();
        events.push(Event::Transfer(minted));
        let engine = SsalCommods { ledger, contracts: Vec::new(), custodian, events };
        assert(engine@.events =~= EngineState::genesis(total_supply, caller, custodian).events);
        assert(engine@.contracts =~= Seq::empty());
        engine
    }

    /// The supply fixed at the start.
    pub fn total_supply(&self) -> (supply: Balance)
        ensures
            supply == self@.ledger.total_supply,
    {
        self.ledger.total_supply()
    }

    /// What `owner` holds; zero for an account the ledger has never seen.
    pub fn balance_of(&self, owner: AccountId) -> (balance: Balance)
        requires
            self.wf(),
        ensures
            balance == self@.ledger.balance_of(owner),
    {
        self.ledger.balance_of(owner)
    }

    /// What `spender` may still move out of `owner`'s balance; zero where nothing was granted.
    pub fn allowance(&self, owner: AccountId, spender: AccountId) -> (allowance: Balance)
        requires
            self.wf(),
        ensures
            allowance == self@.ledger.allowance(owner, spender),
    {
        self.ledger.allowance(owner, spender)
    }

    /// The account that keeps what buyers lock until their contracts are finalized.
    pub fn custodian(&self) -> (account: AccountId)
        ensures
            account == self@.custodian,
    {
        self.custodian
    }

    fn locate(&self, id: ContractId) -> (place: Option<usize>)
        ensures
            match place {
                Some(index) => index == id && index < self@.contracts.len(),
                None => id >= self@.contracts.len(),
            },
    {
        if id < self.contracts.len() as u64 {
            Some(id as usize)
        } else {
            None
        }
    }

    fn lookup(&self, id: ContractId) -> (found: Option<EscrowContract>)
        ensures
            found == self@.contract(id),
    {
        match self.locate(id) {
            Some(index) => Some(self.contracts[index]),
            None => None,
        }
    }

    /// The seller of contract `id`, if there is such a contract.
    pub fn get_seller(&self, id: ContractId) -> (seller: Option<AccountId>)
        ensures
            seller == match self@.contract(id) {
                Some(contract) => Some(contract.seller),
                None => None,
            },
    {
        match self.lookup(id) {
            Some(contract) => Some(contract.seller),
            None => None,
        }
    }

    /// The buyer of contract `id`, if there is such a contract and it was bought.
    pub fn get_buyer(&self, id: ContractId) -> (buyer: Option<AccountId>)
        ensures
            buyer == match self@.contract(id) {
                Some(contract) => contract.buyer,
                None => None,
            },
    {
        match self.lookup(id) {
            Some(contract) => contract.buyer,
            None => None,
        }
    }

    /// The price of contract `id`, if there is such a contract.
    pub fn get_price(&self, id: ContractId) -> (price: Option<Balance>)
        ensures
            price == match self@.contract(id) {
                Some(contract) => Some(contract.price),
                None => None,
            },
    {
        match self.lookup(id) {
            Some(contract) => Some(contract.price),
            None => None,
        }
    }

    /// The amount that contract `id` locks, if there is such a contract.
    pub fn get_total(&self, id: ContractId) -> (total: Option<Balance>)
        ensures
            total == match self@.contract(id) {
                Some(contract) => Some(contract.total),
                None => None,
            },
    {
        match self.lookup(id) {
            Some(contract) => Some(contract.total),
            None => None,
        }
    }

    /// The weight sold by contract `id`, if there is such a contract.
    pub fn get_weight(&self, id: ContractId) -> (weight: Option<Grams>)
        ensures
            weight == match self@.contract(id) {
                Some(contract) => Some(contract.weight),
                None => None,
            },
    {
        match self.lookup(id) {
            Some(contract) => Some(contract.weight),
            None => None,
        }
    }

    /// The finality block of contract `id`, if there is such a contract.
    pub fn get_finality_block(&self, id: ContractId) -> (finality_block: Option<BlockNumber>)
        ensures
            finality_block == match self@.contract(id) {
                Some(contract) => Some(contract.finality_block),
                None => None,
            },
    {
        match self.lookup(id) {
            Some(contract) => Some(contract.finality_block),
            None => None,
        }
    }

    /// Whether contract `id` was finalized, if there is such a contract.
    pub fn is_finalized(&self, id: ContractId) -> (finalized: Option<bool>)
        ensures
            finalized == match self@.contract(id) {
                Some(contract) => Some(contract.finalized),
                None => None,
            },
    {
        match self.lookup(id) {
            Some(contract) => Some(contract.finalized),
            None => None,
        }
    }

    /// How many contracts were listed, which is also the number that the next one will get.
    pub fn get_contract_count(&self) -> (count: ContractId)
        ensures
            count == self@.contracts.len(),
    {
        self.contracts.len() as u64
    }

    /// All that is recorded of contract `id`.
    pub fn get_contract(&self, id: ContractId) -> (answer: Result<CommodityContract, Error>)
        ensures
            answer == match self@.contract(id) {
                Some(contract) => Ok::<CommodityContract, Error>(contract.report()),
                None => Err(Error::ContractNotFound),
            },
    {
        match self.lookup(id) {
            Some(contract) => Ok(
                CommodityContract {
                    seller: Some(contract.seller),
                    buyer: contract.buyer,
                    price: Some(contract.price),
                    total: Some(contract.total),
                    weight: Some(contract.weight),
                    finality_block: Some(contract.finality_block),
                    finalized: Some(contract.finalized),
                },
            ),
            None => Err(Error::ContractNotFound),
        }
    }

    /// Hands the waiting events to the host, oldest first, and leaves none waiting.
    pub fn take_events(&mut self) -> (taken: Vec<Event>)
        requires
            old(self).wf(),
        ensures
            final(self).wf(),
            final(self)@.sound(),
            taken@ == old(self)@.events,
            final(self)@ == old(self)@.after_take_events(),
    {
        let mut taken: Vec<Event> = Vec::new();
        std::mem::swap(&mut self.events, &mut taken);
        assert(self@.events =~= Seq::empty());
        taken
    }

    fn transfer_from_to(&mut self, from: AccountId, to: AccountId, value: Balance) -> (done: Result<
        (),
        Error,
    >)
        requires
            old(self).wf(),
        ensures
            final(self).wf(),
            done == old(self)@.transfer_result(from, to, value),
            final(self)@ == old(self)@.moved(from, to, value),
    {
        match self.ledger.transfer_between(from, to, value) {
            Ok(event) => {
                self.events.push(Event::Transfer(event));
                Ok(())
            },
            Err(refusal) => Err(refusal),
        }
    }

    /// Moves `value` from `caller` to `to`.
    ///
    /// Refused with `InsufficientBalance` where `caller` holds less than `value`, and then
    /// nothing changes. In an engine in order no credit can overflow.
    pub fn transfer(&mut self, caller: AccountId, to: AccountId, value: Balance) -> (done: Result<
        (),
        Error,
    >)
        requires
            old(self).wf(),
        ensures
            final(self).wf(),
            final(self)@.sound(),
            done == old(self)@.transfer_result(caller, to, value),
            final(self)@ == old(self)@.after_transfer(caller, to, value),
            done is Ok <==> old(self)@.ledger.balance_of(caller) >= value,
            done is Err ==> done == Err::<(), Error>(Error::InsufficientBalance) && final(self)@
                == old(self)@,
    {
        proof {
            self@.ledger.lemma_conserving_transfer_never_overflows(caller, to, value);
        }
        self.transfer_from_to(caller, to, value)
    }

    /// Sets what `spender` may move out of `caller`'s balance to `value`, whatever it was
    /// before. Never refused.
    pub fn approve(&mut self, caller: AccountId, spender: AccountId, value: Balance) -> (done: Result<
        (),
        Error,
    >)
        requires
            old(self).wf(),
        ensures
            final(self).wf(),
            final(self)@.sound(),
            done == Ok::<(), Error>(()),
            final(self)@ == old(self)@.after_approve(caller, spender, value),
            final(self)@.ledger.allowance(caller, spender) == value,
    {
        let event: Approval = self.ledger.approve(caller, spender, value);
        self.events.push(Event::Approval(event));
        Ok(())
    }

    /// Moves `value` from `from` to `to` on the word of `caller`, and lowers by `value` what
    /// `caller` may still move out of `from`'s balance.
    ///
    /// Refused with `InsufficientAllowance` where `from` has allowed `caller` less than
    /// `value`, else with `InsufficientBalance` where `from` holds less than `value`; a refusal
    /// changes nothing, the allowance included.
    pub fn transfer_from(&mut self, caller: AccountId, from: AccountId, to: AccountId, value: Balance) -> (done:
        Result<(), Error>)
        requires
            old(self).wf(),
        ensures
            final(self).wf(),
            done == old(self)@.transfer_from_result(caller, from, to, value),
            final(self)@ == old(self)@.after_transfer_from(caller, from, to, value),
            final(self)@.sound(),
            done is Ok <==> old(self)@.ledger.allowance(from, caller) >= value && old(
                self,
            )@.ledger.balance_of(from) >= value,
            done is Err ==> final(self)@ == old(self)@,
    {
        proof {
            self@.ledger.lemma_conserving_transfer_never_overflows(from, to, value);
        }
        match self.ledger.transfer_from(caller, from, to, value) {
            Ok(event) => {
                self.events.push(Event::Transfer(event));
                Ok(())
            },
            Err(refusal) => Err(refusal),
        }
    }

    /// Lists a contract with `caller` as its seller and answers its number.
    ///
    /// Refused with `InvalidBlockNumber` where `finality_block` lies before `current_block`;
    /// then no number is used up.
    pub fn create_contract(
        &mut self,
        caller: AccountId,
        price: Balance,
        total: Balance,
        weight: Grams,
        finality_block: BlockNumber,
        current_block: BlockNumber,
    ) -> (listed: Result<ContractId, Error>)
        requires
            old(self).wf(),
        ensures
            final(self).wf(),
            listed == old(self)@.create_result(finality_block, current_block),
            final(self)@ == old(self)@.after_create(
                caller,
                price,
                total,
                weight,
                finality_block,
                current_block,
            ),
            final(self)@.sound(),
            listed matches Ok(id) ==> id == old(self)@.contracts.len() && final(self)@.contract(id)
                == Some(EscrowContract::listed(caller, price, total, weight, finality_block)),
            listed is Err ==> final(self)@ == old(self)@,
    {
        if finality_block < current_block {
            return Err(Error::InvalidBlockNumber);
        }
        let contract_id: ContractId = self.contracts.len() as u64;
        self.contracts.push(
            EscrowContract {
                seller: caller,
                buyer: None,
                price,
                total,
                weight,
                finality_block,
                finalized: false,
            },
        );
        self.events.push(
            Event::NewContract(
                NewContract { contract_id, seller: caller, price, total, weight, finality_block },
            ),
        );
        Ok(contract_id)
    }

    /// Buys contract `id` for `caller`: the price goes to the seller at once, the total is
    /// locked with the custodian.
    ///
    /// Refused, in this order, with `ContractNotFound`, with `ContractAlreadyBought`, with
    /// `ArithmeticOverflow` where price and total together leave the range of [`Balance`],
    /// and with `InsufficientBalance` where `caller` holds less than the two together. A
    /// refusal changes nothing. The purchase is not bound to any time.
    #[allow(unused_variables)]
    pub fn buy_contract(&mut self, caller: AccountId, id: ContractId, current_block: BlockNumber) -> (done:
        Result<(), Error>)
        requires
            old(self).wf(),
        ensures
            final(self).wf(),
            final(self)@.sound(),
            done == old(self)@.buy_result(caller, id),
            final(self)@ == old(self)@.after_buy(caller, id),
            done is Err ==> final(self)@ == old(self)@,
    {
        let index: usize = match self.locate(id) {
            Some(index) => index,
            None => {
                return Err(Error::ContractNotFound);
            },
        };
        let contract: EscrowContract = self.contracts[index];
        if contract.buyer.is_some() {
            return Err(Error::ContractAlreadyBought);
        }
        let required: Balance = match contract.price.checked_add(contract.total) {
            Some(required) => required,
            None => {
                return Err(Error::ArithmeticOverflow);
            },
        };
        if self.ledger.balance_of(caller) < required {
            return Err(Error::InsufficientBalance);
        }
        // The caller holds both amounts, and where value is conserved no credit overflows:
        // neither payment can be refused, so the second never finds the first half done.
        proof {
            let before = self@;
            let paid = before.moved(caller, contract.seller, contract.price);
            before.ledger.lemma_conserving_transfer_never_overflows(
                caller,
                contract.seller,
                contract.price,
            );
            before.ledger.lemma_transfer_keeps_sum(caller, contract.seller, contract.price);
            before.ledger.lemma_transfer_moves(caller, contract.seller, contract.price, caller);
            paid.ledger.lemma_conserving_transfer_never_overflows(
                caller,
                before.custodian,
                contract.total,
            );
        }
        match self.transfer_from_to(caller, contract.seller, contract.price) {
            Ok(()) => {},
            Err(refusal) => {
                return Err(refusal);
            },
        }
        match self.transfer_from_to(caller, self.custodian, contract.total) {
            Ok(()) => {},
            Err(refusal) => {
                return Err(refusal);
            },
        }
        self.contracts.set(index, EscrowContract { buyer: Some(caller), ..contract });
        self.events.push(
            Event::ContractBought(
                ContractBought {
                    contract_id: id,
                    buyer: caller,
                    price: contract.price,
                    total: contract.total,
                },
            ),
        );
        proof {
            let after = old(self)@.after_buy(caller, id);
            assert(self@.contracts =~= after.contracts);
            assert(self@.events =~= after.events);
        }
        Ok(())
    }

    /// Finalizes contract `id` for its buyer: the locked total goes from the custodian to the
    /// seller.
    ///
    /// Refused, in this order, with `ContractNotFound`, with `ContractAlreadyFinalized`, with
    /// `CannotFinalizeBeforeFinalityBlock` unless `current_block` lies after the finality
    /// block, with `ContractNotPurchased`, with `OnlyBuyerCanFinalize` where `caller` is not
    /// the buyer, and with `InsufficientBalance` where the custodian no longer holds the total.
    /// A refusal changes nothing.
    pub fn finalize(&mut self, caller: AccountId, id: ContractId, current_block: BlockNumber) -> (done:
        Result<(), Error>)
        requires
            old(self).wf(),
        ensures
            final(self).wf(),
            final(self)@.sound(),
            done == old(self)@.finalize_result(caller, id, current_block),
            final(self)@ == old(self)@.after_finalize(caller, id, current_block),
            done is Err ==> final(self)@ == old(self)@,
    {
        let index: usize = match self.locate(id) {
            Some(index) => index,
            None => {
                return Err(Error::ContractNotFound);
            },
        };
        let contract: EscrowContract = self.contracts[index];
        if contract.finalized {
            return Err(Error::ContractAlreadyFinalized);
        }
        if contract.finality_block >= current_block {
            return Err(Error::CannotFinalizeBeforeFinalityBlock);
        }
        let buyer: AccountId = match contract.buyer {
            Some(buyer) => buyer,
            None => {
                return Err(Error::ContractNotPurchased);
            },
        };
        if !(caller == buyer) {
            return Err(Error::OnlyBuyerCanFinalize);
        }
        match self.transfer_from_to(self.custodian, contract.seller, contract.total) {
            Ok(()) => {},
            Err(refusal) => {
                return Err(refusal);
            },
        }
        self.contracts.set(index, EscrowContract { finalized: true, ..contract });
        self.events.push(
            Event::ContractFinalized(
                ContractFinalized { contract_id: id, buyer, total: contract.total },
            ),
        );
        proof {
            let after = old(self)@.after_finalize(caller, id, current_block);
            assert(self@.contracts =~= after.contracts);
            assert(self@.events =~= after.events);
        }
        Ok(())
    }

    /// Writes out what must outlast the engine. Events are not part of it: take them first.
    pub fn export(&self) -> (record: EngineRecord)
        requires
            self.wf(),
        ensures
            record.admissible(),
            record.state(self@.custodian) == self@.after_take_events(),
    {
        let mut contracts: Vec<EscrowContract> = Vec::new();
        let mut i: usize = 0;
        while i < self.contracts.len()
            invariant
                i <= self.contracts@.len(),
                contracts@ == self.contracts@.take(i as int),
            decreases self.contracts@.len() - i,
        {
            let contract: EscrowContract = self.contracts[i];
            contracts.push(contract);
            assert(self.contracts@.take(i + 1) =~= self.contracts@.take(i as int).push(contract));
            i += 1;
        }
        assert(contracts@ =~= self.contracts@);
        EngineRecord { ledger: self.ledger.export(), contracts }
    }

    /// Reads an engine back from `record`, with `custodian` as the account that keeps the
    /// locked funds, unless the record is not admissible.
    pub fn restore(record: EngineRecord, custodian: AccountId) -> (read: Option<SsalCommods>)
        ensures
            match read {
                Some(engine) => record.admissible() && engine.wf() && engine@.sound() && engine@
                    == record.state(custodian),
                None => !record.admissible(),
            },
    {
        let EngineRecord { ledger, contracts } = record;
        let ledger: TokenLedger = match TokenLedger::restore(ledger) {
            Some(ledger) => ledger,
            None => {
                return None;
            },
        };
        if !ledger.is_conserving() {
            return None;
        }
        let mut i: usize = 0;
        while i < contracts.len()
            invariant
                i <= contracts@.len(),
                contracts@ == record.contracts@,
                forall|j: int|
                    0 <= j < i && (#[trigger] contracts@[j]).finalized ==> contracts@[j].buyer is Some,
            decreases contracts@.len() - i,
        {
            if contracts[i].finalized && contracts[i].buyer.is_none() {
                return None;
            }
            i += 1;
        }
        let engine = SsalCommods { ledger, contracts, custodian, events: Vec::new() };
        assert(engine@.events =~= Seq::empty());
        Some(engine)
    }
}

} // verus!
