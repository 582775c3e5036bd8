use vstd::prelude::*;
use crate::account::AccountId;

verus! {

/// A quantity of the token.
pub type Balance = u128;

/// The number of a commodity contract: contracts are numbered from zero in the order of listing.
pub type ContractId = u64;

/// A weight of the commodity sold.
pub type Grams = u64;

/// A point in time, counted in blocks by the host.
pub type BlockNumber = u32;

/// Why an operation was refused.
#[derive(Debug, PartialEq, Eq, Copy, Clone, Structural)]
pub enum Error {
    /// A contract was listed whose finality block precedes the current block.
    InvalidBlockNumber,
    /// No contract has the given number.
    ContractNotFound,
    /// No seller is recorded for the contract.
    SellerNotFound,
    /// The contract already has a buyer.
    ContractAlreadyBought,
    /// The account to be debited holds less than the amount.
    InsufficientBalance,
    /// The spender may move less than the amount on the owner's behalf.
    InsufficientAllowance,
    /// The contract has no buyer yet.
    ContractNotPurchased,
    /// Someone other than the buyer tried to finalize.
    OnlyBuyerCanFinalize,
    /// The finality block has not passed yet.
    CannotFinalizeBeforeFinalityBlock,
    /// The contract was finalized before.
    ContractAlreadyFinalized,
    /// An amount would have left the range of [`Balance`].
    ArithmeticOverflow,
}

/// A commodity sale as the engine records it.
#[derive(Debug, PartialEq, Eq, Copy, Clone)]
pub struct EscrowContract {
    /// Who listed the contract and receives the payments.
    pub seller: AccountId,
    /// Who bought it, once somebody has.
    pub buyer: Option<AccountId>,
    /// Paid to the seller at purchase.
    pub price: Balance,
    /// Locked at purchase and released to the seller at finalization.
    pub total: Balance,
    /// Weight of the commodity sold.
    pub weight: Grams,
    /// The block that must have passed before the contract can be finalized.
    pub finality_block: BlockNumber,
    /// Whether the locked amount was released.
    pub finalized: bool,
}

/// How far a contract has come. A contract only ever moves forward, one stage at a time.
#[derive(Debug, PartialEq, Eq, Copy, Clone, Structural)]
pub enum Stage {
    /// Offered, without a buyer.
    Listed,
    /// Paid for, the total locked with the custodian.
    Bought,
    /// The total released to the seller.
    Finalized,
}

impl EscrowContract {
    /// The contract as it stands right after listing.
    pub open spec fn listed(
        seller: AccountId,
        price: Balance,
        total: Balance,
        weight: Grams,
        finality_block: BlockNumber,
    ) -> EscrowContract {
        EscrowContract {
            seller,
            buyer: None,
            price,
            total,
            weight,
            finality_block,
            finalized: false,
        }
    }

    /// The stage the record is in.
    pub open spec fn stage(self) -> Stage {
        if self.finalized {
            Stage::Finalized
        } else if self.buyer is Some {
            Stage::Bought
        } else {
            Stage::Listed
        }
    }

    /// What the custodian holds on account of this contract.
    pub open spec fn in_custody(self) -> nat {
        if self.stage() == Stage::Bought {
            self.total as nat
        } else {
            0
        }
    }

    /// The record as a query reports it.
    pub open spec fn report(self) -> CommodityContract {
        CommodityContract {
            seller: Some(self.seller),
            buyer: self.buyer,
            price: Some(self.price),
            total: Some(self.total),
            weight: Some(self.weight),
            finality_block: Some(self.finality_block),
            finalized: Some(self.finalized),
        }
    }
}

/// All that is recorded of one contract, as answered to a query.
#[derive(Debug, PartialEq, Eq, Copy, Clone)]
pub struct CommodityContract {
    pub seller: Option<AccountId>,
    pub buyer: Option<AccountId>,
    pub price: Option<Balance>,
    pub total: Option<Balance>,
    pub weight: Option<Grams>,
    pub finality_block: Option<BlockNumber>,
    pub finalized: Option<bool>,
}

/// Tokens were moved, or created where `from` is absent.
#[derive(Debug, PartialEq, Eq, Copy, Clone)]
pub struct Transfer {
    pub from: Option<AccountId>,
    pub to: Option<AccountId>,
    pub value: Balance,
}

/// `spender` may from now on move up to `value` of `owner`'s tokens.
#[derive(Debug, PartialEq, Eq, Copy, Clone)]
pub struct Approval {
    pub owner: AccountId,
    pub spender: AccountId,
    pub value: Balance,
}

/// A contract was listed.
#[derive(Debug, PartialEq, Eq, Copy, Clone)]
pub struct NewContract {
    pub contract_id: ContractId,
    pub seller: AccountId,
    pub price: Balance,
    pub total: Balance,
    pub weight: Grams,
    pub finality_block: BlockNumber,
}

/// A contract was bought.
#[derive(Debug, PartialEq, Eq, Copy, Clone)]
pub struct ContractBought {
    pub contract_id: ContractId,
    pub buyer: AccountId,
    pub price: Balance,
    pub total: Balance,
}

/// A contract was finalized.
#[derive(Debug, PartialEq, Eq, Copy, Clone)]
pub struct ContractFinalized {
    pub contract_id: ContractId,
    pub buyer: AccountId,
    pub total: Balance,
}

/// Anything the engine reports to outside observers.
#[derive(Debug, PartialEq, Eq, Copy, Clone)]
pub enum Event {
    Transfer(Transfer),
    Approval(Approval),
    NewContract(NewContract),
    ContractBought(ContractBought),
    ContractFinalized(ContractFinalized),
}

} // verus!
