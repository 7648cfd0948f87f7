//! Reasons for which an invocation aborts, each with its user-facing text.

use vstd::prelude::*;

verus! {

/// Every failure an invocation can report. Each variant carries no data; the
/// inputs that produce it are pinned down by the `ensures` of the operation
/// that returns it.
#[derive(Clone, Copy, Debug, PartialEq, Eq, Structural)]
pub enum AuctionError {
    /// The admission payload did not parse into auction parameters.
    MalformedRequest,
    /// The requested auction duration was not positive.
    InvalidParameter,
    /// Adding the duration to the current time left the timestamp range.
    ArithmeticOverflow,
    /// No live auction exists under the derived asset key.
    NotInAuction,
    /// The bid amount does not exceed the auction's floor.
    BidTooLow,
    /// The attached deposit does not cover the bid amount.
    InsufficientDeposit,
    /// The participant already holds an open bid in this auction.
    DuplicateBid,
    /// The auction's expiry has passed, so no further bid is accepted.
    AuctionExpired,
    /// The auction's expiry has not passed, so it cannot be settled yet.
    AuctionStillOpen,
}

impl AuctionError {
    /// The human-readable reason string reported to the caller.
    pub fn message(&self) -> (r: String)
        ensures
            self is MalformedRequest ==> r@ == "Invalid message"@,
            self is InvalidParameter ==> r@ == "timestamp must be greater than 0"@,
            self is ArithmeticOverflow ==> r@ == "adding `timespan` to `timestamp` overflowed, `timespan` is too big"@,
            self is NotInAuction ==> r@ == "this nft is not in auction"@,
            self is BidTooLow ==> r@ == "bid amount does not exceed previous bid or minimum bid amount"@,
            self is InsufficientDeposit ==> r@ == "provided deposit does not cover bid amount"@,
            self is DuplicateBid ==> r@ == "bidder has already made a bid, either call `refundBid` or `updateBid`"@,
            self is AuctionExpired ==> r@ == "cannot bid, auction is over"@,
            self is AuctionStillOpen ==> r@ == "cannot end, auction is still ongoing"@,
    {
        match self {
            AuctionError::MalformedRequest => "Invalid message".to_owned(),
            AuctionError::InvalidParameter => "timestamp must be greater than 0".to_owned(),
            AuctionError::ArithmeticOverflow => {
                "adding `timespan` to `timestamp` overflowed, `timespan` is too big".to_owned()
            },
            AuctionError::NotInAuction => "this nft is not in auction".to_owned(),
            AuctionError::BidTooLow => {
                "bid amount does not exceed previous bid or minimum bid amount".to_owned()
            },
            AuctionError::InsufficientDeposit => {
                "provided deposit does not cover bid amount".to_owned()
            },
            AuctionError::DuplicateBid => {
                "bidder has already made a bid, either call `refundBid` or `updateBid`".to_owned()
            },
            AuctionError::AuctionExpired => "cannot bid, auction is over".to_owned(),
            AuctionError::AuctionStillOpen => "cannot end, auction is still ongoing".to_owned(),
        }
    }
}

} // verus!
