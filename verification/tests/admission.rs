use nft_auction::AuctionError;
use nft_auction::AuctionParams;
use nft_auction::Contract;
use nft_auction::Effect;
use nft_auction::NFTId;

#[test]
fn zero_duration_aborts_admission_with_invalid_parameter() {
    let c = Contract::default();
    let r = c.nft_on_approve(
        "museum".to_owned(),
        "t1".to_owned(),
        "alice".to_owned(),
        7,
        AuctionParams { timespan: 0, minimum_bid: 10 },
        1_000,
    );
    assert_eq!(r, Err(AuctionError::InvalidParameter));
    assert_eq!(c.len(), 0);
}

#[test]
fn overflowing_expiry_aborts_admission_with_arithmetic_overflow() {
    let c = Contract::default();
    let r = c.nft_on_approve(
        "museum".to_owned(),
        "t1".to_owned(),
        "alice".to_owned(),
        7,
        AuctionParams { timespan: 2, minimum_bid: 10 },
        u64::MAX - 1,
    );
    assert_eq!(r, Err(AuctionError::ArithmeticOverflow));
    assert_eq!(c.len(), 0);
}

#[test]
fn valid_admission_declares_escrow_transfer_then_finalization() {
    let c = Contract::default();
    let effects = c
        .nft_on_approve(
            "museum".to_owned(),
            "t1".to_owned(),
            "alice".to_owned(),
            7,
            AuctionParams { timespan: 50, minimum_bid: 10 },
            1_000,
        )
        .unwrap();
    assert_eq!(effects.len(), 2);
    let expected_key = NFTId::new(&"museum".to_owned(), &"t1".to_owned()).0;
    match &effects[0] {
        Effect::TransferAssetToEscrow { nft, token_id, approval_id } => {
            assert_eq!(nft, "museum");
            assert_eq!(token_id, "t1");
            assert_eq!(*approval_id, 7);
        }
        _ => panic!("first effect must move the asset into escrow"),
    }
    match &effects[1] {
        Effect::FinalizeAdmission { owner, key, expiry, floor } => {
            assert_eq!(owner, "alice");
            assert_eq!(*key, expected_key);
            assert_eq!(*expiry, 1_050);
            assert_eq!(*floor, 10);
        }
        _ => panic!("second effect must be the privileged finalization"),
    }
    // Admission declares effects only; no auction exists before finalization.
    assert_eq!(c.len(), 0);
}

#[test]
fn expiry_at_the_range_limit_is_admitted() {
    let c = Contract::default();
    let effects = c
        .nft_on_approve(
            "museum".to_owned(),
            "t1".to_owned(),
            "alice".to_owned(),
            7,
            AuctionParams { timespan: 1, minimum_bid: 10 },
            u64::MAX - 1,
        )
        .unwrap();
    match &effects[1] {
        Effect::FinalizeAdmission { expiry, .. } => assert_eq!(*expiry, u64::MAX),
        _ => panic!("second effect must be the privileged finalization"),
    }
}

#[test]
fn finalizing_an_already_live_key_replaces_the_entry() {
    let mut c = Contract::default();
    let id = NFTId::new(&"museum".to_owned(), &"t1".to_owned());
    c.start_auction("alice".to_owned(), id, 100, 10);
    c.start_auction("carol".to_owned(), id, 200, 30);
    assert_eq!(c.len(), 1);
    // The replacement auction is the one that answers queries now.
    assert_eq!(c.expired("museum".to_owned(), "t1".to_owned(), 150), Ok(false));
    let r = c.make_bid("museum".to_owned(), "t1".to_owned(), 20, 20, "bob".to_owned(), 50);
    assert_eq!(r, Err(AuctionError::BidTooLow));
}
