use vstd::prelude::*;
use crate::account::AccountId;
use crate::amounts::{no_key_twice, recorded, AmountMap, Delegation};
use crate::tally::{amount_at, lemma_sum_of_bounds_pair, lemma_sum_of_empty, lemma_sum_of_insert, sum_of};
use crate::types::{Approval, Balance, Error, Transfer};

verus! {

/// What a token ledger records: the supply fixed at genesis, what each account holds, and what
/// each spender may move on an owner's behalf. An account or a pair that is absent counts as zero.
pub struct LedgerState {
    pub total_supply: Balance,
    pub balances: Map<AccountId, Balance>,
    pub allowances: Map<Delegation, Balance>,
}

impl LedgerState {
    /// The ledger at genesis: the whole supply with `holder`, no allowance granted.
    pub open spec fn genesis(total_supply: Balance, holder: AccountId) -> LedgerState {
        LedgerState {
            total_supply,
            balances: Map::empty().insert(holder, total_supply),
            allowances: Map::empty(),
        }
    }

    /// What `account` holds.
    pub open spec fn balance_of(self, account: AccountId) -> nat {
        amount_at(self.balances, account)
    }

    /// What `spender` may still move out of `owner`'s balance.
    pub open spec fn allowance(self, owner: AccountId, spender: AccountId) -> nat {
        amount_at(self.allowances, Delegation { owner, spender })
    }

    /// The sum of everything that the accounts hold.
    pub open spec fn circulating(self) -> nat {
        sum_of(self.balances)
    }

    /// Conservation of value: the accounts together hold exactly the supply.
    pub open spec fn conserves(self) -> bool {
        &&& self.balances.dom().finite()
        &&& self.circulating() == self.total_supply
    }

    /// The ledger with `amount` written as the balance of `account`.
    pub open spec fn with_balance(self, account: AccountId, amount: Balance) -> LedgerState {
        LedgerState { balances: self.balances.insert(account, amount), ..self }
    }

    /// How a transfer of `value` from `from` to `to` ends: refused for want of funds, refused
    /// because the credit would leave the range of [`Balance`], or done and reported.
    pub open spec fn transfer_result(self, from: AccountId, to: AccountId, value: Balance) -> Result<
        Transfer,
        Error,
    > {
        if self.balance_of(from) < value {
            Err(Error::InsufficientBalance)
        } else if from != to && self.balance_of(to) + value > Balance::MAX {
            Err(Error::ArithmeticOverflow)
        } else {
            Ok(Transfer { from: Some(from), to: Some(to), value })
        }
    }

    /// The ledger after a transfer was asked for: `from` debited and then `to` credited where
    /// the transfer is done, nothing changed where it is refused.
    pub open spec fn transferred(self, from: AccountId, to: AccountId, value: Balance) -> LedgerState {
        if self.transfer_result(from, to, value) is Ok {
            let debited = self.with_balance(from, (self.balance_of(from) - value) as Balance);
            debited.with_balance(to, (debited.balance_of(to) + value) as Balance)
        } else {
            self
        }
    }

    /// The ledger after `owner` sets the allowance of `spender` to `value`.
    pub open spec fn approved(self, owner: AccountId, spender: AccountId, value: Balance) -> LedgerState {
        LedgerState {
            allowances: self.allowances.insert(Delegation { owner, spender }, value),
            ..self
        }
    }

    /// How a transfer by `caller` out of `owner`'s balance ends: refused where the allowance
    /// does not cover `value`, and otherwise as the plain transfer from `owner` to `to` does.
    pub open spec fn transfer_from_result(
        self,
        caller: AccountId,
        owner: AccountId,
        to: AccountId,
        value: Balance,
    ) -> Result<Transfer, Error> {
        if self.allowance(owner, caller) < value {
            Err(Error::InsufficientAllowance)
        } else {
            self.transfer_result(owner, to, value)
        }
    }

    /// The ledger after a transfer by `caller` out of `owner`'s balance was asked for: where it
    /// is done, the tokens moved and the allowance lowered by `value`; else nothing changed.
    pub open spec fn transferred_from(
        self,
        caller: AccountId,
        owner: AccountId,
        to: AccountId,
        value: Balance,
    ) -> LedgerState {
        if self.transfer_from_result(caller, owner, to, value) is Ok {
            self.transferred(owner, to, value).approved(
                owner,
                caller,
                (self.allowance(owner, caller) - value) as Balance,
            )
        } else {
            self
        }
    }

    /// The ledger at genesis conserves value.
    pub proof fn lemma_genesis_conserves(total_supply: Balance, holder: AccountId)
        ensures
            LedgerState::genesis(total_supply, holder).conserves(),
    {
        lemma_sum_of_empty::<AccountId>();
        lemma_sum_of_insert(Map::<AccountId, Balance>::empty(), holder, total_supply);
    }

    /// A transfer, done or refused, keeps the sum of the balances.
    pub proof fn lemma_transfer_keeps_sum(self, from: AccountId, to: AccountId, value: Balance)
        requires
            self.balances.dom().finite(),
        ensures
            self.transferred(from, to, value).balances.dom().finite(),
            self.transferred(from, to, value).circulating() == self.circulating(),
            self.transferred(from, to, value).total_supply == self.total_supply,
            self.transferred(from, to, value).allowances == self.allowances,
    {
        if self.transfer_result(from, to, value) is Ok {
            let left = (self.balance_of(from) - value) as Balance;
            let debited = self.with_balance(from, left);
            lemma_sum_of_insert(self.balances, from, left);
            lemma_sum_of_insert(
                debited.balances,
                to,
                (debited.balance_of(to) + value) as Balance,
            );
        }
    }

    /// A transfer that is done takes `value` from `from` and gives it to `to`, and touches no
    /// other account; a transfer to oneself, like a refused one, leaves every balance as it was.
    pub proof fn lemma_transfer_moves(self, from: AccountId, to: AccountId, value: Balance, account: AccountId)
        ensures
            self.transferred(from, to, value).balance_of(account) == self.balance_of(account) - (if self.transfer_result(
                from,
                to,
                value,
            ) is Ok && account == from {
                value as int
            } else {
                0
            }) + (if self.transfer_result(from, to, value) is Ok && account == to {
                value as int
            } else {
                0
            }),
    {
    }

    /// Where value is conserved, no credit can leave the range of [`Balance`]: a transfer is
    /// refused only for want of funds.
    pub proof fn lemma_conserving_transfer_never_overflows(
        self,
        from: AccountId,
        to: AccountId,
        value: Balance,
    )
        requires
            self.conserves(),
        ensures
            self.transfer_result(from, to, value) != Err::<Transfer, Error>(
                Error::ArithmeticOverflow,
            ),
            self.transfer_result(from, to, value) is Ok <==> self.balance_of(from) >= value,
    {
        if from != to {
            lemma_sum_of_bounds_pair(self.balances, from, to);
        }
    }
}

/// A ledger written out for keeping: the supply, and each balance and each allowance as one
/// entry of a list.
pub struct LedgerRecord {
    pub total_supply: Balance,
    pub balances: Vec<(AccountId, Balance)>,
    pub allowances: Vec<(Delegation, Balance)>,
}

impl LedgerRecord {
    /// Whether the record can be read back: no account and no pair of owner and spender has
    /// two entries.
    pub open spec fn admissible(&self) -> bool {
        &&& no_key_twice(self.balances@)
        &&& no_key_twice(self.allowances@)
    }

    /// What the record says the ledger holds.
    pub open spec fn state(&self) -> LedgerState {
        LedgerState {
            total_supply: self.total_supply,
            balances: recorded(self.balances@),
            allowances: recorded(self.allowances@),
        }
    }
}

/// A ledger of one fungible token: balances, allowances, and the supply they add up to.
pub struct TokenLedger {
    total_supply: Balance,
    balances: AmountMap<AccountId>,
    allowances: AmountMap<Delegation>,
}

impl TokenLedger {
    /// What the ledger records.
    pub closed spec fn view(&self) -> LedgerState {
        LedgerState {
            total_supply: self.total_supply,
            balances: self.balances@,
            allowances: self.allowances@,
        }
    }

    /// Whether the ledger's tables are in order.
    pub closed spec fn wf(&self) -> bool {
        &&& self.balances.wf()
        &&& self.allowances.wf()
    }

    /// Only finitely many accounts were ever written to.
    pub proof fn lemma_finite(&self)
        ensures
            self@.balances.dom().finite(),
    {
        self.balances.lemma_finite();
    }

    /// Writes the ledger out for keeping.
    pub fn export(&self) -> (record: LedgerRecord)
        requires
            self.wf(),
        ensures
            record.admissible(),
            record.state() == self@,
    {
        LedgerRecord {
            total_supply: self.total_supply,
            balances: self.balances.entries(),
            allowances: self.allowances.entries(),
        }
    }

    /// Reads a ledger back from `record`, unless the record is not admissible.
    pub fn restore(record: LedgerRecord) -> (read: Option<TokenLedger>)
        ensures
            match read {
                Some(ledger) => record.admissible() && ledger.wf() && ledger@ == record.state(),
                None => !record.admissible(),
            },
    {
        let LedgerRecord { total_supply, balances, allowances } = record;
        let balances: AmountMap<AccountId> = match AmountMap::from_entries(balances) {
            Some(balances) => balances,
            None => {
                return None;
            },
        };
        let allowances: AmountMap<Delegation> = match AmountMap::from_entries(allowances) {
            Some(allowances) => allowances,
            None => {
                return None;
            },
        };
        Some(TokenLedger { total_supply, balances, allowances })
    }

    /// Whether the balances add up to the supply.
    pub fn is_conserving(&self) -> (conserving: bool)
        requires
            self.wf(),
        ensures
            conserving == self@.conserves(),
    {
        proof {
            self.lemma_finite();
        }
        match self.balances.total() {
            Some(total) => total == self.total_supply,
            None => false,
        }
    }

    /// Opens a ledger whose whole supply lies with `genesis_account`, and reports the creation
    /// of the tokens as a transfer without a source.
    pub fn initialize(total_supply: Balance, genesis_account: AccountId) -> (opened: (
        TokenLedger,
        Transfer,
    ))
        ensures
            opened.0.wf(),
            opened.0@ == LedgerState::genesis(total_supply, genesis_account),
            opened.0@.conserves(),
            opened.1 == (Transfer { from: None, to: Some(genesis_account), value: total_supply }),
    {
        let mut balances = AmountMap::new();
        balances.set(genesis_account, total_supply);
        let ledger = TokenLedger { total_supply, balances, allowances: AmountMap::new() };
        proof {
            LedgerState::lemma_genesis_conserves(total_supply, genesis_account);
        }
        (ledger, Transfer { from: None, to: Some(genesis_account), value: total_supply })
    }

    /// The supply fixed at genesis.
    pub fn total_supply(&self) -> (supply: Balance)
        ensures
            supply == self@.total_supply,
    {
        self.total_supply
    }

    /// What `account` holds; zero for an account the ledger has never seen.
    pub fn balance_of(&self, account: AccountId) -> (balance: Balance)
        requires
            self.wf(),
        ensures
            balance == self@.balance_of(account),
    {
        self.balances.get(account)
    }

    /// What `spender` may still move out of `owner`'s balance; zero where nothing was granted.
    pub fn allowance(&self, owner: AccountId, spender: AccountId) -> (allowance: Balance)
        requires
            self.wf(),
        ensures
            allowance == self@.allowance(owner, spender),
    {
        self.allowances.get(Delegation { owner, spender })
    }

    /// Sets what `spender` may move out of `owner`'s balance to `value`, whatever it was.
    pub fn approve(&mut self, owner: AccountId, spender: AccountId, value: Balance) -> (event:
        Approval)
        requires
            old(self).wf(),
        ensures
            final(self).wf(),
            final(self)@ == old(self)@.approved(owner, spender, value),
            event == (Approval { owner, spender, value }),
    {
        self.allowances.set(Delegation { owner, spender }, value);
        Approval { owner, spender, value }
    }

    /// Moves `value` from `from` to `to` without asking for an allowance. The engine uses it for
    /// the payments of a contract, after it has checked who may cause them.
    ///
    /// Everything is checked before anything is written: a refused transfer leaves no trace.
    pub(crate) fn transfer_between(&mut self, from: AccountId, to: AccountId, value: Balance) -> (done:
        Result<Transfer, Error>)
        requires
            old(self).wf(),
        ensures
            final(self).wf(),
            done == old(self)@.transfer_result(from, to, value),
            final(self)@ == old(self)@.transferred(from, to, value),
            old(self)@.conserves() ==> final(self)@.conserves(),
    {
        proof {
            self.lemma_finite();
            self@.lemma_transfer_keeps_sum(from, to, value);
        }
        let from_balance: Balance = self.balances.get(from);
        if from_balance < value {
            return Err(Error::InsufficientBalance);
        }
        let left: Balance = from_balance - value;
        let to_balance: Balance = if to == from {
            left
        } else {
            self.balances.get(to)
        };
        match to_balance.checked_add(value) {
            None => Err(Error::ArithmeticOverflow),
            Some(raised) => {
                self.balances.set(from, left);
                self.balances.set(to, raised);
                Ok(Transfer { from: Some(from), to: Some(to), value })
            },
        }
    }

    /// Moves `value` from `from`, who asks for it, to `to`.
    pub fn transfer(&mut self, from: AccountId, to: AccountId, value: Balance) -> (done: Result<
        Transfer,
        Error,
    >)
        requires
            old(self).wf(),
        ensures
            final(self).wf(),
            done == old(self)@.transfer_result(from, to, value),
            final(self)@ == old(self)@.transferred(from, to, value),
            old(self)@.conserves() ==> final(self)@.conserves(),
    {
        self.transfer_between(from, to, value)
    }

    /// Moves `value` from `owner` to `to` on the word of `caller`, within what `owner` has
    /// allowed `caller`, and lowers that allowance by `value`.
    pub fn transfer_from(
        &mut self,
        caller: AccountId,
        owner: AccountId,
        to: AccountId,
        value: Balance,
    ) -> (done: Result<Transfer, Error>)
        requires
            old(self).wf(),
        ensures
            final(self).wf(),
            done == old(self)@.transfer_from_result(caller, owner, to, value),
            final(self)@ == old(self)@.transferred_from(caller, owner, to, value),
            old(self)@.conserves() ==> final(self)@.conserves(),
    {
        let allowance: Balance = self.allowance(owner, caller);
        if allowance < value {
            return Err(Error::InsufficientAllowance);
        }
        match self.transfer_between(owner, to, value) {
            Err(refusal) => Err(refusal),
            Ok(event) => {
                self.allowances.set(Delegation { owner, spender: caller }, allowance - value);
                Ok(event)
            },
        }
    }
}

} // verus!
