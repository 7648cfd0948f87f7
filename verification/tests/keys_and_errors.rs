use nft_auction::Auction;
use nft_auction::AuctionError;
use nft_auction::Bid;
use nft_auction::Contract;
use nft_auction::Effect;
use nft_auction::NFTId;

#[test]
fn key_derivation_is_deterministic() {
    let a = NFTId::new(&"museum".to_owned(), &"t1".to_owned());
    let b = NFTId::new(&"museum".to_owned(), &"t1".to_owned());
    assert_eq!(a, b);
}

#[test]
fn distinct_identities_usually_differ_and_never_crash() {
    // Distinct pairs may in principle collide; that is accepted, not
    // defended against — derivation must simply never fail.
    let mut keys = Vec::new();
    for i in 0..32u32 {
        let id = NFTId::new(&format!("collection-{}", i), &format!("token-{}", i));
        keys.push(id.0);
    }
    keys.sort();
    keys.dedup();
    assert!(keys.len() > 1);
}

#[test]
fn error_messages_match_the_reported_reasons() {
    assert_eq!(AuctionError::MalformedRequest.message(), "Invalid message");
    assert_eq!(
        AuctionError::InvalidParameter.message(),
        "timestamp must be greater than 0"
    );
    assert_eq!(
        AuctionError::ArithmeticOverflow.message(),
        "adding `timespan` to `timestamp` overflowed, `timespan` is too big"
    );
    assert_eq!(AuctionError::NotInAuction.message(), "this nft is not in auction");
    assert_eq!(
        AuctionError::BidTooLow.message(),
        "bid amount does not exceed previous bid or minimum bid amount"
    );
    assert_eq!(
        AuctionError::InsufficientDeposit.message(),
        "provided deposit does not cover bid amount"
    );
    assert_eq!(
        AuctionError::DuplicateBid.message(),
        "bidder has already made a bid, either call `refundBid` or `updateBid`"
    );
    assert_eq!(AuctionError::AuctionExpired.message(), "cannot bid, auction is over");
    assert_eq!(
        AuctionError::AuctionStillOpen.message(),
        "cannot end, auction is still ongoing"
    );
}

#[test]
fn settlement_skips_entries_already_resolved() {
    // A ledger entry marked `paid` was resolved through the companion
    // update/refund path; settlement must not disburse it a second time.
    let id = NFTId::new(&"museum".to_owned(), &"t1".to_owned());
    let auction = Auction {
        owner: "alice".to_owned(),
        bids: vec![
            ("a".to_owned(), Bid { amount: 20, paid: true }),
            ("b".to_owned(), Bid { amount: 30, paid: false }),
            ("c".to_owned(), Bid { amount: 40, paid: false }),
        ],
        floor: 5,
        expiry: 100,
    };
    let mut c = Contract { auctions: vec![(id, auction)] };
    let effects = c
        .end_auction("museum".to_owned(), "t1".to_owned(), 1, 100)
        .unwrap();
    // Winner is "c" (last inserted); "a" is already resolved, so the only
    // refund is "b"'s — exactly once, and nothing for "a" or "c".
    assert_eq!(effects.len(), 3);
    match &effects[0] {
        Effect::ApproveAsset { recipient, .. } => assert_eq!(recipient, "c"),
        _ => panic!("first effect must approve the winner"),
    }
    match &effects[1] {
        Effect::PayOut { recipient, amount } => {
            assert_eq!(recipient, "alice");
            assert_eq!(*amount, 40);
        }
        _ => panic!("second effect must pay the owner"),
    }
    match &effects[2] {
        Effect::PayOut { recipient, amount } => {
            assert_eq!(recipient, "b");
            assert_eq!(*amount, 30);
        }
        _ => panic!("third effect must refund the remaining bidder"),
    }
    assert_eq!(c.len(), 0);
}
