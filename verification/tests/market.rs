use kitties::{Call, Config, Error, Event, GenesisConfig, Kitty, Origin, Pallet};

const ALICE: u64 = 100;
const BOB: u64 = 101;

fn ledger_with(existential_deposit: u128) -> Pallet {
    let genesis = GenesisConfig {
        config: Config { default_difficulty: 2, existential_deposit, kitty_id_limit: u32::MAX },
    };
    let mut pallet = genesis.build();
    pallet.set_extrinsic_index(Some(0));
    pallet
}

/// Alice owns kitty 0; Alice and Bob hold 1000 each.
fn market() -> (Pallet, Kitty) {
    let mut pallet = ledger_with(1);
    pallet.set_balance(ALICE, 1000);
    pallet.set_balance(BOB, 1000);
    assert!(pallet.create(Origin::Signed(ALICE)).is_ok());
    let kitty = pallet.kitties(ALICE, 0).unwrap();
    (pallet, kitty)
}

#[test]
fn set_price_lists_and_delists() {
    let (mut pallet, kitty) = market();
    assert_eq!(pallet.prices(0), None);
    assert_eq!(
        pallet.set_price(Origin::Signed(ALICE), 0, Some(100)),
        Ok(Event::KittyPriceUpdated(ALICE, 0, kitty, Some(100)))
    );
    assert_eq!(pallet.prices(0), Some(100));
    assert_eq!(
        pallet.set_price(Origin::Signed(ALICE), 0, Some(250)),
        Ok(Event::KittyPriceUpdated(ALICE, 0, kitty, Some(250)))
    );
    assert_eq!(pallet.prices(0), Some(250));
    assert_eq!(
        pallet.set_price(Origin::Signed(ALICE), 0, None),
        Ok(Event::KittyPriceUpdated(ALICE, 0, kitty, None))
    );
    assert_eq!(pallet.prices(0), None);
}

#[test]
fn set_price_needs_the_owner() {
    let (mut pallet, _) = market();
    assert_eq!(pallet.set_price(Origin::Signed(BOB), 0, Some(100)), Err(Error::NotOwner));
    assert_eq!(pallet.set_price(Origin::Signed(ALICE), 1, Some(100)), Err(Error::NotOwner));
    assert_eq!(pallet.prices(0), None);
    assert_eq!(pallet.prices(1), None);
}

#[test]
fn transfer_to_another_account_clears_the_listing() {
    let (mut pallet, kitty) = market();
    assert!(pallet.set_price(Origin::Signed(ALICE), 0, Some(100)).is_ok());
    assert_eq!(
        pallet.transfer(Origin::Signed(ALICE), BOB, 0),
        Ok(Some(Event::KittyTransferred(ALICE, BOB, 0, kitty)))
    );
    assert_eq!(pallet.prices(0), None);
    assert_eq!(pallet.kitties(BOB, 0), Some(kitty));
    assert_eq!(pallet.kitties(ALICE, 0), None);
}

#[test]
fn transfer_to_oneself_keeps_the_listing() {
    let (mut pallet, kitty) = market();
    assert!(pallet.set_price(Origin::Signed(ALICE), 0, Some(100)).is_ok());
    assert_eq!(pallet.transfer(Origin::Signed(ALICE), ALICE, 0), Ok(None));
    assert_eq!(pallet.prices(0), Some(100));
    assert_eq!(pallet.kitties(ALICE, 0), Some(kitty));
}

#[test]
fn transfer_of_a_kitty_one_does_not_own_fails() {
    let (mut pallet, kitty) = market();
    assert!(pallet.set_price(Origin::Signed(ALICE), 0, Some(100)).is_ok());
    assert_eq!(pallet.transfer(Origin::Signed(BOB), ALICE, 0), Err(Error::InvalidKittyId));
    assert_eq!(pallet.transfer(Origin::Signed(BOB), BOB, 0), Err(Error::InvalidKittyId));
    assert_eq!(pallet.transfer(Origin::Signed(ALICE), BOB, 7), Err(Error::InvalidKittyId));
    assert_eq!(pallet.prices(0), Some(100));
    assert_eq!(pallet.kitties(ALICE, 0), Some(kitty));
}

#[test]
fn buy_moves_kitty_and_price() {
    let (mut pallet, kitty) = market();
    assert!(pallet.set_price(Origin::Signed(ALICE), 0, Some(100)).is_ok());
    assert_eq!(
        pallet.buy(Origin::Signed(BOB), ALICE, 0, 150),
        Ok(Event::KittySold(ALICE, BOB, 0, kitty, 100))
    );
    assert_eq!(pallet.kitties(BOB, 0), Some(kitty));
    assert_eq!(pallet.kitties(ALICE, 0), None);
    assert_eq!(pallet.prices(0), None);
    assert_eq!(pallet.free_balance(BOB), 900);
    assert_eq!(pallet.free_balance(ALICE), 1100);
    // the listing is gone, so the kitty cannot be bought a second time
    assert_eq!(pallet.buy(Origin::Signed(ALICE), BOB, 0, 150), Err(Error::NotForSale));
}

#[test]
fn buy_at_exactly_the_price() {
    let (mut pallet, kitty) = market();
    assert!(pallet.set_price(Origin::Signed(ALICE), 0, Some(100)).is_ok());
    assert_eq!(
        pallet.buy(Origin::Signed(BOB), ALICE, 0, 100),
        Ok(Event::KittySold(ALICE, BOB, 0, kitty, 100))
    );
    assert_eq!(pallet.free_balance(BOB), 900);
    assert_eq!(pallet.free_balance(ALICE), 1100);
}

fn assert_untouched(pallet: &Pallet, kitty: Kitty, price: Option<u128>) {
    assert_eq!(pallet.kitties(ALICE, 0), Some(kitty));
    assert_eq!(pallet.kitties(BOB, 0), None);
    assert_eq!(pallet.prices(0), price);
    assert_eq!(pallet.free_balance(ALICE), 1000);
    assert_eq!(pallet.free_balance(BOB), 1000);
}

#[test]
fn buy_below_the_price_changes_nothing() {
    let (mut pallet, kitty) = market();
    assert!(pallet.set_price(Origin::Signed(ALICE), 0, Some(100)).is_ok());
    assert_eq!(pallet.buy(Origin::Signed(BOB), ALICE, 0, 99), Err(Error::PriceTooLow));
    assert_untouched(&pallet, kitty, Some(100));
}

#[test]
fn buy_from_oneself_fails() {
    let (mut pallet, kitty) = market();
    assert!(pallet.set_price(Origin::Signed(ALICE), 0, Some(100)).is_ok());
    assert_eq!(pallet.buy(Origin::Signed(ALICE), ALICE, 0, 100), Err(Error::BuyFromSelf));
    assert_untouched(&pallet, kitty, Some(100));
}

#[test]
fn buy_of_an_unlisted_kitty_fails() {
    let (mut pallet, kitty) = market();
    assert_eq!(pallet.buy(Origin::Signed(BOB), ALICE, 0, 100), Err(Error::NotForSale));
    assert_eq!(pallet.buy(Origin::Signed(BOB), ALICE, 5, 100), Err(Error::NotForSale));
    assert_untouched(&pallet, kitty, None);
}

#[test]
fn buy_from_an_account_that_is_not_the_owner_fails() {
    let (mut pallet, kitty) = market();
    assert!(pallet.set_price(Origin::Signed(ALICE), 0, Some(100)).is_ok());
    assert_eq!(pallet.buy(Origin::Signed(BOB), 102, 0, 100), Err(Error::InvalidKittyId));
    assert_untouched(&pallet, kitty, Some(100));
}

#[test]
fn buy_without_the_funds_changes_nothing() {
    let (mut pallet, kitty) = market();
    assert!(pallet.set_price(Origin::Signed(ALICE), 0, Some(1001)).is_ok());
    assert_eq!(pallet.buy(Origin::Signed(BOB), ALICE, 0, 5000), Err(Error::InsufficientBalance));
    assert_untouched(&pallet, kitty, Some(1001));
}

#[test]
fn buy_that_would_empty_the_buyer_changes_nothing() {
    let (mut pallet, kitty) = market();
    assert!(pallet.set_price(Origin::Signed(ALICE), 0, Some(1000)).is_ok());
    assert_eq!(pallet.buy(Origin::Signed(BOB), ALICE, 0, 1000), Err(Error::KeepAlive));
    assert_untouched(&pallet, kitty, Some(1000));
    // one unit less leaves the existential deposit
    assert!(pallet.set_price(Origin::Signed(ALICE), 0, Some(999)).is_ok());
    assert!(pallet.buy(Origin::Signed(BOB), ALICE, 0, 1000).is_ok());
    assert_eq!(pallet.free_balance(BOB), 1);
    assert_eq!(pallet.free_balance(ALICE), 1999);
}

#[test]
fn buy_that_would_overflow_the_seller_changes_nothing() {
    let (mut pallet, kitty) = market();
    pallet.set_balance(ALICE, u128::MAX - 50);
    assert!(pallet.set_price(Origin::Signed(ALICE), 0, Some(51)).is_ok());
    assert_eq!(pallet.buy(Origin::Signed(BOB), ALICE, 0, 51), Err(Error::BalanceOverflow));
    assert_eq!(pallet.kitties(ALICE, 0), Some(kitty));
    assert_eq!(pallet.prices(0), Some(51));
    assert_eq!(pallet.free_balance(ALICE), u128::MAX - 50);
    assert_eq!(pallet.free_balance(BOB), 1000);
}

#[test]
fn buy_for_nothing_needs_no_funds() {
    let (mut pallet, kitty) = market();
    pallet.set_balance(BOB, 0);
    assert!(pallet.set_price(Origin::Signed(ALICE), 0, Some(0)).is_ok());
    assert_eq!(
        pallet.buy(Origin::Signed(BOB), ALICE, 0, 0),
        Ok(Event::KittySold(ALICE, BOB, 0, kitty, 0))
    );
    assert_eq!(pallet.free_balance(BOB), 0);
    assert_eq!(pallet.free_balance(ALICE), 1000);
    assert_eq!(pallet.kitties(BOB, 0), Some(kitty));
}

#[test]
fn transfer_balance_checks_in_order() {
    let mut pallet = ledger_with(10);
    pallet.set_balance(ALICE, 100);
    assert_eq!(pallet.transfer_balance(ALICE, BOB, 101), Err(Error::InsufficientBalance));
    assert_eq!(pallet.transfer_balance(ALICE, BOB, 91), Err(Error::KeepAlive));
    assert_eq!(pallet.transfer_balance(BOB, ALICE, 1), Err(Error::InsufficientBalance));
    assert_eq!(pallet.free_balance(ALICE), 100);
    assert_eq!(pallet.free_balance(BOB), 0);
    assert_eq!(pallet.transfer_balance(ALICE, BOB, 90), Ok(()));
    assert_eq!(pallet.free_balance(ALICE), 10);
    assert_eq!(pallet.free_balance(BOB), 90);
    // paying nothing, or oneself, always works and changes nothing
    assert_eq!(pallet.transfer_balance(ALICE, BOB, 0), Ok(()));
    assert_eq!(pallet.transfer_balance(ALICE, ALICE, 500), Ok(()));
    assert_eq!(pallet.free_balance(ALICE), 10);
    assert_eq!(pallet.free_balance(BOB), 90);
}

#[test]
fn dispatch_routes_every_request() {
    let (mut pallet, kitty) = market();
    assert_eq!(
        pallet.dispatch(Origin::Signed(ALICE), Call::SetPrice(0, Some(100))),
        Ok(Some(Event::KittyPriceUpdated(ALICE, 0, kitty, Some(100))))
    );
    assert_eq!(
        pallet.dispatch(Origin::Signed(BOB), Call::Buy(ALICE, 0, 100)),
        Ok(Some(Event::KittySold(ALICE, BOB, 0, kitty, 100)))
    );
    assert_eq!(
        pallet.dispatch(Origin::Signed(BOB), Call::Transfer(ALICE, 0)),
        Ok(Some(Event::KittyTransferred(BOB, ALICE, 0, kitty)))
    );
    assert_eq!(pallet.dispatch(Origin::Signed(ALICE), Call::Transfer(ALICE, 0)), Ok(None));
    assert_eq!(pallet.dispatch(Origin::Signed(ALICE), Call::Create), Ok(Some(Event::KittyCreated(ALICE, 1, kitty))));
    assert_eq!(
        pallet.dispatch(Origin::Signed(ALICE), Call::Breed(0, 1)),
        Err(Error::SameGender)
    );
    assert_eq!(
        pallet.dispatch(Origin::Signed(ALICE), Call::AutoBreed(0, 1, 0, 2)),
        Err(Error::BadOrigin)
    );
    assert_eq!(pallet.dispatch(Origin::Unsigned, Call::Create), Err(Error::BadOrigin));
    assert_eq!(pallet.next_kitty_id(), 2);
}

#[test]
fn create_breed_list_and_sell() {
    let mut pallet = ledger_with(1);
    let (x, y) = (1u64, 2u64);
    pallet.set_balance(x, 500);
    pallet.set_balance(y, 500);
    let a = Kitty([251, 232, 87, 164, 157, 143, 12, 126, 179, 15, 113, 136, 48, 54, 62, 251]);
    let b = Kitty([172, 225, 207, 20, 67, 203, 239, 192, 206, 93, 135, 253, 119, 74, 255, 245]);
    pallet.set_random_seed([1; 32]);
    pallet.set_extrinsic_index(Some(0));
    assert_eq!(pallet.create(Origin::Signed(x)), Ok(Event::KittyCreated(x, 0, a)));
    pallet.set_random_seed([3; 32]);
    pallet.set_extrinsic_index(Some(1));
    assert_eq!(pallet.create(Origin::Signed(x)), Ok(Event::KittyCreated(x, 1, b)));
    assert_ne!(a.gender(), b.gender());

    pallet.set_extrinsic_index(Some(2));
    let selector = pallet.random_value(x);
    assert_eq!(selector, [107, 46, 165, 208, 100, 111, 191, 16, 130, 123, 83, 85, 22, 229, 110, 36]);
    let child = Kitty([184, 224, 215, 52, 217, 203, 175, 110, 179, 93, 35, 221, 54, 82, 126, 255]);
    assert_eq!(pallet.breed(Origin::Signed(x), 0, 1), Ok(Event::KittyBred(x, 2, child, 0, 1)));
    assert_eq!(pallet.next_kitty_id(), 3);
    for i in 0..16 {
        for k in 0..8 {
            let from = if (selector[i] >> k) & 1 == 1 { b.0[i] } else { a.0[i] };
            assert_eq!((child.0[i] >> k) & 1, (from >> k) & 1);
        }
    }

    assert_eq!(
        pallet.set_price(Origin::Signed(x), 2, Some(100)),
        Ok(Event::KittyPriceUpdated(x, 2, child, Some(100)))
    );
    assert_eq!(pallet.buy(Origin::Signed(y), x, 2, 100), Ok(Event::KittySold(x, y, 2, child, 100)));
    assert_eq!(pallet.kitties(y, 2), Some(child));
    assert_eq!(pallet.kitties(x, 2), None);
    assert_eq!(pallet.free_balance(y), 400);
    assert_eq!(pallet.free_balance(x), 600);
    assert_eq!(pallet.prices(2), None);
    // the parents stay as they were
    assert_eq!(pallet.kitties(x, 0), Some(a));
    assert_eq!(pallet.kitties(x, 1), Some(b));
}
