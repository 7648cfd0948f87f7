//! Outbound effects declared by an invocation.
//!
//! Local state commits before any of these effects executes, and an earlier
//! effect's failure neither cancels nor retries a later one. Keeping them as
//! an explicit ordered list makes that non-atomicity visible: an operation's
//! contract pins down exactly which effects it declares and in which order,
//! and the host performs them afterwards.

use vstd::prelude::*;

verus! {

/// The mathematical form of one outbound effect, with identifiers as
/// character sequences.
#[verifier::ext_equal]
pub enum EffectView {
    /// Ask the custody protocol to transfer the asset into this system's
    /// escrow, consuming the custodian's transfer authorization.
    TransferAssetToEscrow { nft: Seq<char>, token_id: Seq<char>, approval_id: u64 },
    /// The privileged self-call that records the auction once custody is
    /// confirmed; only this system itself may perform it.
    FinalizeAdmission { owner: Seq<char>, key: u64, expiry: u64, floor: u128 },
    /// Ask the custody protocol to approve `recipient` for the asset,
    /// attaching `deposit`.
    ApproveAsset { nft: Seq<char>, token_id: Seq<char>, recipient: Seq<char>, deposit: u128 },
    /// Transfer `amount` of funds to `recipient`.
    PayOut { recipient: Seq<char>, amount: u128 },
}

/// One outbound request declared by an invocation, to be performed by the
/// host after the invocation's own state change has committed.
#[derive(Clone, Debug, PartialEq, Eq)]
pub enum Effect {
    /// Ask the custody protocol to transfer the asset into this system's
    /// escrow, consuming the custodian's transfer authorization.
    TransferAssetToEscrow { nft: String, token_id: String, approval_id: u64 },
    /// The privileged self-call that records the auction once custody is
    /// confirmed; only this system itself may perform it.
    FinalizeAdmission { owner: String, key: u64, expiry: u64, floor: u128 },
    /// Ask the custody protocol to approve `recipient` for the asset,
    /// attaching `deposit`.
    ApproveAsset { nft: String, token_id: String, recipient: String, deposit: u128 },
    /// Transfer `amount` of funds to `recipient`.
    PayOut { recipient: String, amount: u128 },
}

impl View for Effect {
    type V = EffectView;

    open spec fn view(&self) -> EffectView {
        match self {
            Effect::TransferAssetToEscrow { nft, token_id, approval_id } => (
                EffectView::TransferAssetToEscrow {
                    nft: nft@,
                    token_id: token_id@,
                    approval_id: *approval_id,
                }
            ),
            Effect::FinalizeAdmission { owner, key, expiry, floor } => (
                EffectView::FinalizeAdmission {
                    owner: owner@,
                    key: *key,
                    expiry: *expiry,
                    floor: *floor,
                }
            ),
            Effect::ApproveAsset { nft, token_id, recipient, deposit } => (
                EffectView::ApproveAsset {
                    nft: nft@,
                    token_id: token_id@,
                    recipient: recipient@,
                    deposit: *deposit,
                }
            ),
            Effect::PayOut { recipient, amount } => (
                EffectView::PayOut { recipient: recipient@, amount: *amount }
            ),
        }
    }
}

/// The mathematical form of a declared effect list.
pub open spec fn effects_view(s: Seq<Effect>) -> Seq<EffectView> {
    s.map_values(|e: Effect| e@)
}

} // verus!
