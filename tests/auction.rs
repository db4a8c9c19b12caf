use poet_chain_x::{AccountId, Amount, AuctionEnded, BidPlaced, BidRefunded, Error, PoetChainX, Transfer};

fn alice() -> AccountId {
    AccountId::from_bytes([1u8; 32])
}

fn bob() -> AccountId {
    AccountId::from_bytes([2u8; 32])
}

fn charlie() -> AccountId {
    AccountId::from_bytes([3u8; 32])
}

fn amount(v: u128) -> Amount {
    Amount::from_u128(v)
}

/// Bids as a host whose refunds always go through.
fn place_bid(contract: &mut PoetChainX, bidder: AccountId, now: u32, value: u128) -> Result<(), Error> {
    let refund = contract.check_bid(now, &amount(value))?;
    contract.bid(bidder, now, amount(value), refund.is_some()).map(|_| ())
}

/// Finalizes as a host whose payouts always go through.
fn finish(contract: &mut PoetChainX, caller: AccountId, now: u32) -> Result<AuctionEnded, Error> {
    let payout = contract.check_end(&caller, now)?;
    contract.end_auction(caller, now, payout.is_some())
}

#[test]
fn happy_path_auction_flow() {
    let poem = "Roses are red, violets are blue".to_owned();
    let mut contract = PoetChainX::new(poem.clone(), 100, alice(), 0);

    assert_eq!(contract.get_poem(), poem);
    assert!(contract.active);

    assert!(place_bid(&mut contract, bob(), 0, 1000).is_ok());

    let (winner, amount_won) = contract.get_winner();
    assert_eq!(winner, Some(bob()));
    assert_eq!(amount_won, amount(1000));

    finish(&mut contract, alice(), 150).expect("Expected to end contract");
    assert!(!contract.active);
}

#[test]
fn constructor_and_get_poem_work() {
    let poem = "Roses are red, violets are blue".to_owned();
    let duration = 50;
    let contract = PoetChainX::new(poem.clone(), duration, alice(), 0);

    assert_eq!(contract.get_poem(), poem);
    println!("{}", contract.get_poem());
    assert_eq!(contract.get_seller(), alice());
}

#[test]
fn bid_too_low() {
    let poem = "Test poem".to_owned();
    let mut contract = PoetChainX::new(poem, 100, alice(), 0);

    assert!(place_bid(&mut contract, bob(), 0, 1000).is_ok());

    let result = place_bid(&mut contract, charlie(), 0, 500);
    assert_eq!(result, Err(Error::BidTooLow));
}

#[test]
fn bid_after_expiry() {
    let poem = "Test poem".to_owned();
    let mut contract = PoetChainX::new(poem, 100, alice(), 0);

    let result = place_bid(&mut contract, bob(), 150, 1000);
    assert_eq!(result, Err(Error::AuctionExpired));
}

#[test]
fn end_auction_early() {
    let poem = "Test poem".to_owned();
    let mut contract = PoetChainX::new(poem, 100, alice(), 0);

    let result = finish(&mut contract, alice(), 0);
    assert_eq!(result, Err(Error::AuctionStillRunning));
}

#[test]
fn scenario_full_auction_pays_seller() {
    let mut contract = PoetChainX::new("Roses are red, violets are blue".to_owned(), 100, alice(), 0);
    assert_eq!(contract.get_auction_info(0), (0, 100, true));

    assert_eq!(contract.check_bid(10, &amount(1000)), Ok(None));
    let events = contract.bid(bob(), 10, amount(1000), false);
    assert_eq!(events, Ok((None, BidPlaced { bidder: bob(), amount: amount(1000) })));
    assert_eq!(contract.get_winner(), (Some(bob()), amount(1000)));

    let payout = contract.check_end(&alice(), 150);
    assert_eq!(payout, Ok(Some(Transfer { to: alice(), amount: amount(1000) })));
    let ended = contract.end_auction(alice(), 150, true);
    assert_eq!(ended, Ok(AuctionEnded { winner: Some(bob()), amount: amount(1000) }));
    assert!(!contract.active);
    assert_eq!(contract.get_auction_info(150), (150, 100, false));
}

#[test]
fn scenario_lower_bid_leaves_state() {
    let mut contract = PoetChainX::new("Roses are red, violets are blue".to_owned(), 100, alice(), 0);
    assert!(place_bid(&mut contract, bob(), 10, 1000).is_ok());
    assert_eq!(contract.bid(charlie(), 20, amount(500), true), Err(Error::BidTooLow));
    assert_eq!(contract.get_winner(), (Some(bob()), amount(1000)));
}

#[test]
fn scenario_bid_at_block_past_end_expires() {
    let mut contract = PoetChainX::new("Test poem".to_owned(), 100, alice(), 0);
    assert_eq!(contract.check_bid(150, &amount(1000)), Err(Error::AuctionExpired));
    assert_eq!(contract.bid(bob(), 150, amount(1000), true), Err(Error::AuctionExpired));
    assert_eq!(contract.get_winner(), (None, amount(0)));
}

#[test]
fn scenario_end_while_running_keeps_auction_open() {
    let mut contract = PoetChainX::new("Test poem".to_owned(), 100, alice(), 0);
    assert_eq!(contract.end_auction(alice(), 50, true), Err(Error::AuctionStillRunning));
    assert!(contract.active);
}

#[test]
fn scenario_no_bids_ends_without_transfer() {
    let mut contract = PoetChainX::new("Test poem".to_owned(), 100, alice(), 0);
    assert_eq!(contract.check_end(&alice(), 101), Ok(None));
    let ended = contract.end_auction(alice(), 101, false);
    assert_eq!(ended, Ok(AuctionEnded { winner: None, amount: amount(0) }));
    assert!(!contract.active);
}

#[test]
fn bids_raise_offer_and_track_latest_bidder() {
    let mut contract = PoetChainX::new("Test poem".to_owned(), 100, alice(), 0);
    assert!(place_bid(&mut contract, bob(), 1, 10).is_ok());
    assert_eq!(contract.get_winner(), (Some(bob()), amount(10)));
    assert!(place_bid(&mut contract, charlie(), 2, 20).is_ok());
    assert_eq!(contract.get_winner(), (Some(charlie()), amount(20)));
    assert!(place_bid(&mut contract, bob(), 3, 35).is_ok());
    assert_eq!(contract.get_winner(), (Some(bob()), amount(35)));
}

#[test]
fn displaced_bid_is_refunded() {
    let mut contract = PoetChainX::new("Test poem".to_owned(), 100, alice(), 0);
    assert!(place_bid(&mut contract, bob(), 1, 1000).is_ok());
    assert_eq!(
        contract.check_bid(2, &amount(1500)),
        Ok(Some(Transfer { to: bob(), amount: amount(1000) }))
    );
    let events = contract.bid(charlie(), 2, amount(1500), true);
    assert_eq!(
        events,
        Ok((
            Some(BidRefunded { previous_bidder: bob(), amount: amount(1000) }),
            BidPlaced { bidder: charlie(), amount: amount(1500) },
        ))
    );
    assert_eq!(contract.get_winner(), (Some(charlie()), amount(1500)));
}

#[test]
fn failed_refund_rejects_bid_and_keeps_state() {
    let mut contract = PoetChainX::new("Test poem".to_owned(), 100, alice(), 0);
    assert!(place_bid(&mut contract, bob(), 1, 1000).is_ok());
    assert_eq!(contract.bid(charlie(), 2, amount(1500), false), Err(Error::TransferFailed));
    assert_eq!(contract.get_winner(), (Some(bob()), amount(1000)));
}

#[test]
fn failed_payout_keeps_auction_open() {
    let mut contract = PoetChainX::new("Test poem".to_owned(), 100, alice(), 0);
    assert!(place_bid(&mut contract, bob(), 1, 1000).is_ok());
    assert_eq!(contract.end_auction(alice(), 101, false), Err(Error::TransferFailed));
    assert!(contract.active);
    assert_eq!(contract.get_winner(), (Some(bob()), amount(1000)));
    assert!(finish(&mut contract, alice(), 101).is_ok());
}

#[test]
fn tie_bid_is_too_low() {
    let mut contract = PoetChainX::new("Test poem".to_owned(), 100, alice(), 0);
    assert!(place_bid(&mut contract, bob(), 1, 1000).is_ok());
    assert_eq!(place_bid(&mut contract, charlie(), 2, 1000), Err(Error::BidTooLow));
}

#[test]
fn zero_bid_on_fresh_auction_is_too_low() {
    let mut contract = PoetChainX::new("Test poem".to_owned(), 100, alice(), 0);
    assert_eq!(contract.bid(bob(), 0, amount(0), true), Err(Error::BidTooLow));
    assert_eq!(contract.get_winner(), (None, amount(0)));
}

#[test]
fn bid_at_last_block_is_accepted() {
    let mut contract = PoetChainX::new("Test poem".to_owned(), 100, alice(), 0);
    assert!(place_bid(&mut contract, bob(), 100, 5).is_ok());
    assert_eq!(place_bid(&mut contract, charlie(), 101, 6), Err(Error::AuctionExpired));
}

#[test]
fn end_at_last_block_is_still_running() {
    let mut contract = PoetChainX::new("Test poem".to_owned(), 100, alice(), 0);
    assert_eq!(finish(&mut contract, alice(), 100), Err(Error::AuctionStillRunning));
    assert!(finish(&mut contract, alice(), 101).is_ok());
}

#[test]
fn second_end_is_already_ended() {
    let mut contract = PoetChainX::new("Test poem".to_owned(), 100, alice(), 0);
    assert!(finish(&mut contract, alice(), 200).is_ok());
    assert_eq!(finish(&mut contract, alice(), 300), Err(Error::AuctionAlreadyEnded));
    assert_eq!(place_bid(&mut contract, bob(), 300, 10), Err(Error::AuctionNotActive));
}

#[test]
fn only_seller_can_end() {
    let mut contract = PoetChainX::new("Test poem".to_owned(), 100, alice(), 0);
    assert_eq!(finish(&mut contract, bob(), 50), Err(Error::UnAuthorized));
    assert_eq!(finish(&mut contract, bob(), 500), Err(Error::UnAuthorized));
    assert!(contract.active);
    assert!(finish(&mut contract, alice(), 500).is_ok());
}

#[test]
fn end_block_saturates() {
    let contract = PoetChainX::new("Test poem".to_owned(), 100, alice(), u32::MAX - 10);
    assert_eq!(contract.get_auction_info(0), (0, u32::MAX, true));
    let contract = PoetChainX::new("Test poem".to_owned(), 7, alice(), 30);
    assert_eq!(contract.get_auction_info(30), (30, 37, true));
}

#[test]
fn creation_event_names_seller_and_poem() {
    let contract = PoetChainX::new("Test poem".to_owned(), 100, alice(), 0);
    let created = contract.creation_event();
    assert_eq!(created.seller, alice());
    assert_eq!(created.poem_id, contract.get_poem_id());
}
