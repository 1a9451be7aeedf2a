use vstd::prelude::*;
use crate::address::Address;

verus! {

/// The persisted record of one escrow: identity of the parties, lifecycle
/// flags, the amounts held, the custodial balance references, and the two
/// derivation salts ("bumps") for the record's own storage address and its
/// signing-authority address.
pub struct DealState {
    /// Caller-supplied byte identifier of the deal.
    pub id: Vec<u8>,
    /// The party that deposited the principal.
    pub client_key: Address,
    /// The party that would have performed the work.
    pub executor_key: Address,
    /// The arbiter; its fee travels bundled with the principal refund.
    pub checker_key: Address,
    /// Whether the deal was started.
    pub is_started: bool,
    /// Whether collateral was posted; selects the cancellation variant.
    pub with_bond: bool,
    /// 0 means no deadline; otherwise cancellation is refused before this
    /// point in time.
    pub deadline_ts: i64,
    /// The principal amount held in escrow.
    pub amount: u64,
    /// The arbiter fee held in escrow alongside the principal.
    pub checker_fee: u64,
    /// Collateral posted by the client; 0 means none was posted.
    pub client_bond_amount: u64,
    /// Collateral posted by the executor; 0 means none was posted.
    pub executor_bond_amount: u64,
    /// The derived signing authority for the escrow-held balances.
    pub authority_key: Address,
    /// The escrow-held principal balance.
    pub deposit_key: Address,
    /// The client's balance, destination of the principal refund.
    pub client_token_account_key: Address,
    /// The escrow-held client-bond balance.
    pub client_bond_deposit_key: Address,
    /// The client's bond-return balance.
    pub client_bond_token_account_key: Address,
    /// The escrow-held executor-bond balance.
    pub executor_bond_deposit_key: Address,
    /// The executor's bond-return balance.
    pub executor_bond_token_account_key: Address,
    /// Salt for the record's own storage address.
    pub bump: u8,
    /// Salt for the signing-authority address.
    pub authority_bump: u8,
}

impl DealState {
    /// Every address the record refers to is well formed.
    pub open spec fn wf(&self) -> bool {
        &&& self.client_key.wf()
        &&& self.executor_key.wf()
        &&& self.checker_key.wf()
        &&& self.authority_key.wf()
        &&& self.deposit_key.wf()
        &&& self.client_token_account_key.wf()
        &&& self.client_bond_deposit_key.wf()
        &&& self.client_bond_token_account_key.wf()
        &&& self.executor_bond_deposit_key.wf()
        &&& self.executor_bond_token_account_key.wf()
    }

    /// The principal refund bundles the arbiter fee with the amount; the sum
    /// must be representable for the settlement to be expressible at all.
    pub open spec fn refund_fits(&self) -> bool {
        self.amount + self.checker_fee <= u64::MAX
    }
}

} // verus!
