use kitties::{Config, Error, Event, GenesisConfig, Kitty, KittyGender, Origin, Pallet};

fn new_test_ext() -> Pallet {
    let genesis = GenesisConfig {
        config: Config { default_difficulty: 2, existential_deposit: 1, kitty_id_limit: u32::MAX },
    };
    let mut pallet = genesis.build();
    pallet.set_extrinsic_index(Some(0));
    pallet
}

#[test]
fn can_create() {
    let mut kitties = new_test_ext();
    // assert Kitty create call ends up OK
    let created = kitties.create(Origin::Signed(100));
    assert!(created.is_ok());
    let kitty = Kitty([
        59, 250, 138, 82, 209, 39, 141, 109, 163, 238, 183, 145, 235, 168, 18, 122,
    ]);
    assert_eq!(kitties.kitties(100, 0), Some(kitty.clone()));
    assert_eq!(kitties.next_kitty_id(), 1);
    assert_eq!(created, Ok(Event::KittyCreated(100, 0, kitty)));
}

#[test]
fn gender() {
    assert_eq!(Kitty([0; 16]).gender(), KittyGender::Male);
    assert_eq!(Kitty([1; 16]).gender(), KittyGender::Female);
}

#[test]
fn can_breed() {
    let mut kitties = new_test_ext();
    // create first parent on extrinsic index 0
    assert!(kitties.create(Origin::Signed(100)).is_ok());
    // change the seed so next kitty has opposite gender
    kitties.set_random_seed([2; 32]);
    // create 2nd parent with opposite gender
    assert!(kitties.create(Origin::Signed(100)).is_ok());
    // assert Invalid Kitty Id on Breed
    assert_eq!(kitties.breed(Origin::Signed(100), 0, 9), Err(Error::InvalidKittyId));
    assert_eq!(kitties.next_kitty_id(), 2);
    // validate parents have opposite genders
    assert_eq!(kitties.breed(Origin::Signed(100), 0, 0), Err(Error::SameGender));
    assert_eq!(kitties.next_kitty_id(), 2);
    // validate account does not own one of the kitties for breeding
    assert_eq!(kitties.breed(Origin::Signed(101), 0, 1), Err(Error::InvalidKittyId));
    assert_eq!(kitties.next_kitty_id(), 2);

    let bred = kitties.breed(Origin::Signed(100), 0, 1);
    assert!(bred.is_ok());

    let kitty = Kitty([
        187, 250, 235, 118, 211, 247, 237, 253, 187, 239, 191, 185, 239, 171, 211, 122,
    ]);
    assert_eq!(kitties.kitties(100, 2), Some(kitty.clone()));
    assert_eq!(kitties.next_kitty_id(), 3);
    assert_eq!(bred, Ok(Event::KittyBred(100u64, 2u32, kitty, 0u32, 1u32)));
}

#[test]
fn can_transfer() {
    let mut kitties = new_test_ext();
    // create first kitty on Account 100
    assert!(kitties.create(Origin::Signed(100)).is_ok());
    // create 2nd kitty on Account 101
    assert!(kitties.create(Origin::Signed(101)).is_ok());
    // assert Invalid Kitty Id if not owned kitty
    assert_eq!(kitties.transfer(Origin::Signed(100), 100, 1), Err(Error::InvalidKittyId));
    assert_eq!(kitties.kitties(101, 1).is_some(), true);

    let transferred = kitties.transfer(Origin::Signed(100), 101, 0);
    assert!(transferred.is_ok());
    let kitty1_transferred = kitties.kitties(101, 0).ok_or(Error::InvalidKittyId);
    assert_eq!(
        transferred,
        Ok(Some(Event::KittyTransferred(100u64, 101u64, 0, kitty1_transferred.unwrap())))
    );

    assert_eq!(kitties.next_kitty_id(), 2);
}

#[test]
fn genesis_is_empty() {
    let kitties = new_test_ext();
    assert_eq!(kitties.next_kitty_id(), 0);
    assert_eq!(kitties.auto_breed_nonce(), 0);
    assert_eq!(kitties.kitties(100, 0), None);
    assert_eq!(kitties.tokens(0), None);
    assert_eq!(kitties.prices(0), None);
    assert_eq!(kitties.free_balance(100), 0);
    assert_eq!(kitties.config().default_difficulty, 2);
}

#[test]
fn unsigned_requests_cannot_create_breed_or_trade() {
    let mut kitties = new_test_ext();
    assert_eq!(kitties.create(Origin::Unsigned), Err(Error::BadOrigin));
    assert_eq!(kitties.breed(Origin::Unsigned, 0, 1), Err(Error::BadOrigin));
    assert_eq!(kitties.transfer(Origin::Unsigned, 1, 0), Err(Error::BadOrigin));
    assert_eq!(kitties.set_price(Origin::Unsigned, 0, Some(1)), Err(Error::BadOrigin));
    assert_eq!(kitties.buy(Origin::Unsigned, 1, 0, 1), Err(Error::BadOrigin));
    assert_eq!(kitties.next_kitty_id(), 0);
}

#[test]
fn create_fails_when_ids_run_out() {
    let genesis = GenesisConfig {
        config: Config { default_difficulty: 2, existential_deposit: 1, kitty_id_limit: 2 },
    };
    let mut kitties = genesis.build();
    assert!(kitties.create(Origin::Signed(1)).is_ok());
    assert!(kitties.create(Origin::Signed(1)).is_ok());
    assert_eq!(kitties.create(Origin::Signed(1)), Err(Error::KittyIdOverflow));
    assert_eq!(kitties.next_kitty_id(), 2);
    assert_eq!(kitties.tokens(2), None);
}

#[test]
fn breed_fails_when_ids_run_out() {
    let genesis = GenesisConfig {
        config: Config { default_difficulty: 2, existential_deposit: 1, kitty_id_limit: 2 },
    };
    let mut kitties = genesis.build();
    kitties.set_extrinsic_index(Some(0));
    assert!(kitties.create(Origin::Signed(100)).is_ok());
    kitties.set_random_seed([2; 32]);
    assert!(kitties.create(Origin::Signed(100)).is_ok());
    assert_eq!(kitties.breed(Origin::Signed(100), 0, 1), Err(Error::KittyIdOverflow));
    assert_eq!(kitties.next_kitty_id(), 2);
}

#[test]
fn genome_depends_on_seed_owner_and_index() {
    let mut kitties = new_test_ext();
    let base = kitties.random_value(100);
    assert_eq!(kitties.random_value(100), base);
    assert_eq!(base, [59, 250, 138, 82, 209, 39, 141, 109, 163, 238, 183, 145, 235, 168, 18, 122]);
    assert_eq!(
        kitties.random_value(101),
        [226, 171, 3, 217, 191, 173, 4, 182, 99, 48, 251, 148, 189, 127, 7, 19]
    );
    kitties.set_extrinsic_index(None);
    assert_eq!(
        kitties.random_value(100),
        [104, 30, 85, 116, 31, 172, 235, 26, 189, 155, 81, 233, 223, 202, 237, 121]
    );
    kitties.set_extrinsic_index(Some(1));
    assert_ne!(kitties.random_value(100), base);
    kitties.set_extrinsic_index(Some(0));
    kitties.set_random_seed([2; 32]);
    assert_eq!(
        kitties.random_value(100),
        [138, 178, 107, 116, 67, 242, 232, 253, 56, 225, 143, 56, 13, 43, 209, 8]
    );
    kitties.set_random_seed([0; 32]);
    assert_eq!(kitties.random_value(100), base);
}

#[test]
fn every_kitty_has_one_owner() {
    let mut kitties = new_test_ext();
    assert!(kitties.create(Origin::Signed(100)).is_ok());
    assert!(kitties.create(Origin::Signed(101)).is_ok());
    assert_eq!(kitties.tokens(0).map(|t| t.owner), Some(100));
    assert_eq!(kitties.tokens(1).map(|t| t.owner), Some(101));
    assert_eq!(kitties.kitties(101, 0), None);
    assert_eq!(kitties.kitties(100, 1), None);
    assert_eq!(kitties.kitties(100, 2), None);
    assert!(kitties.transfer(Origin::Signed(100), 102, 0).is_ok());
    assert_eq!(kitties.kitties(100, 0), None);
    assert_eq!(kitties.kitties(101, 0), None);
    assert!(kitties.kitties(102, 0).is_some());
    assert_eq!(kitties.tokens(0).map(|t| t.owner), Some(102));
}
