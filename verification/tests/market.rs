use kitties::{Config, Context, Error, Event, Failure, Kitty, Pallet};
use sp_runtime::{DispatchError, TokenError};
use std::collections::HashMap;

const ALICE: u64 = 1;
const BOB: u64 = 2;
const CAROL: u64 = 3;
const PRICE: u128 = 100;
const PALLET_ID: [u8; 8] = *b"py/kitty";
const PALLET_ACCOUNT: u64 = 0x6b2f_7970_6c64_6f6d;

/// The random value of account 1 in the transaction of `context()`.
const VALUE_OF_ALICE: [u8; 16] = [
    0x26, 0xb7, 0x43, 0xef, 0x97, 0xe1, 0xb3, 0xc5, 0x57, 0x5a, 0x2a, 0xcd, 0x70, 0x5a, 0x12, 0xf3,
];

/// The random value of account 1 in the transaction of `later()`.
const VALUE_OF_ALICE_LATER: [u8; 16] = [
    0x48, 0x6f, 0xbb, 0xea, 0x08, 0x9e, 0x4a, 0x00, 0x95, 0x58, 0x41, 0x3e, 0xc4, 0xfd, 0x48, 0x21,
];

/// The random value of account 2 in the transaction of `context()`.
const VALUE_OF_BOB: [u8; 16] = [
    0x75, 0xae, 0x7a, 0x28, 0x2d, 0x9f, 0x45, 0x8e, 0xae, 0x6d, 0xc3, 0xe9, 0x24, 0x91, 0x2c, 0xaa,
];

/// A ledger that lets no account that pays fall under a minimum balance.
struct Bank {
    balances: HashMap<u64, u128>,
    minimum: u128,
    asked: Vec<(u64, u64, u128, bool)>,
}

impl Bank {
    fn with(accounts: &[(u64, u128)]) -> Bank {
        Bank { balances: accounts.iter().copied().collect(), minimum: 1, asked: Vec::new() }
    }

    fn balance(&self, who: u64) -> u128 {
        self.balances.get(&who).copied().unwrap_or(0)
    }
}

impl Config for Bank {
    fn transfer(
        &mut self,
        source: u64,
        dest: u64,
        value: u128,
        keep_alive: bool,
    ) -> Result<(), DispatchError> {
        self.asked.push((source, dest, value, keep_alive));
        let have = self.balance(source);
        if have < value {
            return Err(DispatchError::Token(TokenError::FundsUnavailable));
        }
        if keep_alive && have - value < self.minimum {
            return Err(DispatchError::Token(TokenError::NotExpendable));
        }
        self.balances.insert(source, have - value);
        let there = self.balance(dest);
        self.balances.insert(dest, there + value);
        Ok(())
    }
}

fn context() -> Context {
    Context { random_seed: [7u8; 32], seed_known_since: 3, extrinsic_index: Some(1) }
}

fn later() -> Context {
    Context { random_seed: [7u8; 32], seed_known_since: 3, extrinsic_index: Some(2) }
}

fn rich() -> Bank {
    Bank::with(&[(ALICE, 1_000), (BOB, 1_000), (CAROL, 1_000)])
}

/// A pallet in which Alice owns kitty 0 and Bob kitty 1.
fn two_kitties(bank: &mut Bank) -> Pallet {
    let mut pallet = Pallet::new(PRICE, PALLET_ID);
    pallet.create(bank, ALICE, &context()).unwrap();
    pallet.create(bank, BOB, &context()).unwrap();
    pallet
}

fn mixed(first: [u8; 16], second: [u8; 16], selected: [u8; 16]) -> [u8; 16] {
    let mut child = [0u8; 16];
    for i in 0..16 {
        child[i] = (first[i] & selected[i]) | (second[i] & !selected[i]);
    }
    child
}

#[test]
fn new_pallet_is_empty() {
    let pallet = Pallet::new(PRICE, PALLET_ID);
    assert_eq!(pallet.next_kitty_id(), 0);
    assert_eq!(pallet.kitty_count(), 0);
    assert_eq!(pallet.kitty_price(), PRICE);
    assert_eq!(pallet.kitties(0), None);
    assert_eq!(pallet.kitty_owner(0), None);
    assert_eq!(pallet.kitty_on_sale(0), None);
    assert_eq!(pallet.kitty_parents(0), None);
}

#[test]
fn pallet_account_is_made_of_tag_and_identifier() {
    assert_eq!(Pallet::new(PRICE, PALLET_ID).account_id(), PALLET_ACCOUNT);
    assert_eq!(Pallet::new(PRICE, PALLET_ID).account_id(), u64::from_le_bytes(*b"modlpy/k"));
    assert_eq!(Pallet::new(PRICE, [1, 2, 3, 4, 5, 6, 7, 8]).account_id(), 0x0403_0201_6c64_6f6d);
    assert_eq!(
        Pallet::new(PRICE, [1, 2, 3, 4, 0, 0, 0, 0]).account_id(),
        Pallet::new(PRICE, [1, 2, 3, 4, 9, 9, 9, 9]).account_id()
    );
}

#[test]
fn create_issues_identifiers_in_order() {
    let mut bank = rich();
    let mut pallet = Pallet::new(PRICE, PALLET_ID);
    let mut last = None;
    for expected in 0u32..5 {
        let event = pallet.create(&mut bank, ALICE, &context()).unwrap();
        let id = match event {
            Event::KittyCreated { kitty_id, .. } => kitty_id,
            other => panic!("unexpected event {:?}", other),
        };
        assert_eq!(id, expected);
        assert!(last.map_or(true, |before| before < id));
        assert_eq!(pallet.next_kitty_id(), id + 1);
        assert_eq!(pallet.kitty_count(), id as usize + 1);
        last = Some(id);
    }
}

#[test]
fn create_records_kitty_of_random_value() {
    let mut bank = rich();
    let mut pallet = Pallet::new(PRICE, PALLET_ID);
    let kitty = Kitty { dna: VALUE_OF_ALICE, name: None };
    assert_eq!(
        pallet.create(&mut bank, ALICE, &context()),
        Ok(Event::KittyCreated { who: ALICE, kitty_id: 0, kitty })
    );
    assert_eq!(pallet.kitties(0), Some(kitty));
    assert_eq!(pallet.kitty_owner(0), Some(ALICE));
    assert_eq!(pallet.kitty_parents(0), None);
    assert_eq!(pallet.kitty_on_sale(0), None);
    assert_eq!(pallet.kitties(1), None);
}

#[test]
fn create_pays_the_pallet_account() {
    let mut bank = rich();
    let mut pallet = Pallet::new(PRICE, PALLET_ID);
    pallet.create(&mut bank, ALICE, &context()).unwrap();
    assert_eq!(bank.asked, vec![(ALICE, PALLET_ACCOUNT, PRICE, true)]);
    assert_eq!(bank.balance(ALICE), 900);
    assert_eq!(bank.balance(PALLET_ACCOUNT), 100);
}

#[test]
fn create_without_identifier_left_is_refused() {
    let mut bank = rich();
    let mut pallet = Pallet::starting_at(PRICE, PALLET_ID, u32::MAX);
    assert_eq!(
        pallet.create(&mut bank, ALICE, &context()),
        Err(Failure::Pallet(Error::StorageOverflow))
    );
    assert_eq!(pallet.next_kitty_id(), u32::MAX);
    assert_eq!(pallet.kitties(u32::MAX), None);
    assert_eq!(pallet.kitty_owner(u32::MAX), None);
    assert!(bank.asked.is_empty());
    assert_eq!(bank.balance(ALICE), 1_000);
}

#[test]
fn create_uses_the_last_identifier_but_one() {
    let mut bank = rich();
    let mut pallet = Pallet::starting_at(PRICE, PALLET_ID, u32::MAX - 1);
    let event = pallet.create(&mut bank, ALICE, &context()).unwrap();
    assert!(matches!(event, Event::KittyCreated { kitty_id, .. } if kitty_id == u32::MAX - 1));
    assert_eq!(pallet.next_kitty_id(), u32::MAX);
    assert_eq!(
        pallet.create(&mut bank, ALICE, &context()),
        Err(Failure::Pallet(Error::StorageOverflow))
    );
    assert_eq!(bank.asked.len(), 1);
}

#[test]
fn create_without_funds_changes_nothing() {
    let mut bank = Bank::with(&[(ALICE, 99)]);
    let mut pallet = Pallet::new(PRICE, PALLET_ID);
    assert_eq!(
        pallet.create(&mut bank, ALICE, &context()),
        Err(Failure::Payment(DispatchError::Token(TokenError::FundsUnavailable)))
    );
    assert_eq!(pallet.next_kitty_id(), 0);
    assert_eq!(pallet.kitties(0), None);
    assert_eq!(pallet.kitty_owner(0), None);
    assert_eq!(bank.balance(ALICE), 99);
    assert_eq!(bank.balance(PALLET_ACCOUNT), 0);
}

#[test]
fn create_must_keep_the_caller_alive() {
    let mut bank = Bank::with(&[(ALICE, 100)]);
    let mut pallet = Pallet::new(PRICE, PALLET_ID);
    assert_eq!(
        pallet.create(&mut bank, ALICE, &context()),
        Err(Failure::Payment(DispatchError::Token(TokenError::NotExpendable)))
    );
    assert_eq!(bank.asked, vec![(ALICE, PALLET_ACCOUNT, PRICE, true)]);
    assert_eq!(pallet.next_kitty_id(), 0);
    assert_eq!(bank.balance(ALICE), 100);
}

#[test]
fn breed_mixes_the_parents_bit_by_bit() {
    let mut bank = rich();
    let mut pallet = two_kitties(&mut bank);
    let event = pallet.breed(&mut bank, ALICE, 0, 1, &later()).unwrap();
    let child = mixed(VALUE_OF_ALICE, VALUE_OF_BOB, VALUE_OF_ALICE_LATER);
    assert_eq!(
        child,
        [
            0x35, 0xa7, 0x43, 0xea, 0x25, 0x81, 0x07, 0x8e, 0x3f, 0x7d, 0x82, 0xcd, 0x60, 0x58, 0x24,
            0xab
        ]
    );
    let kitty = Kitty { dna: child, name: None };
    assert_eq!(event, Event::KittyBred { who: ALICE, kitty_id: 2, kitty });
    assert_eq!(pallet.kitties(2), Some(kitty));
    assert_eq!(pallet.kitty_owner(2), Some(ALICE));
    assert_eq!(pallet.kitty_parents(2), Some((0, 1)));
    assert_eq!(pallet.next_kitty_id(), 3);
}

#[test]
fn breed_leaves_the_parents_as_they_were() {
    let mut bank = rich();
    let mut pallet = two_kitties(&mut bank);
    pallet.breed(&mut bank, CAROL, 1, 0, &later()).unwrap();
    assert_eq!(pallet.kitties(0), Some(Kitty { dna: VALUE_OF_ALICE, name: None }));
    assert_eq!(pallet.kitties(1), Some(Kitty { dna: VALUE_OF_BOB, name: None }));
    assert_eq!(pallet.kitty_owner(0), Some(ALICE));
    assert_eq!(pallet.kitty_owner(1), Some(BOB));
    assert_eq!(pallet.kitty_owner(2), Some(CAROL));
    assert_eq!(pallet.kitty_parents(2), Some((1, 0)));
    assert_eq!(pallet.kitty_parents(0), None);
    assert_eq!(pallet.kitty_parents(1), None);
}

#[test]
fn breed_takes_the_first_parent_where_the_value_has_ones() {
    let mut bank = rich();
    let mut pallet = two_kitties(&mut bank);
    let event = pallet.breed(&mut bank, ALICE, 0, 1, &later()).unwrap();
    let swapped = {
        let mut bank = rich();
        let mut pallet = two_kitties(&mut bank);
        pallet.breed(&mut bank, ALICE, 1, 0, &later()).unwrap()
    };
    let (child, other) = match (event, swapped) {
        (Event::KittyBred { kitty: a, .. }, Event::KittyBred { kitty: b, .. }) => (a.dna, b.dna),
        _ => panic!("two kitties should have been bred"),
    };
    for i in 0..16 {
        for bit in 0..8 {
            let from_first = (VALUE_OF_ALICE_LATER[i] >> bit) & 1 == 1;
            let a = (VALUE_OF_ALICE[i] >> bit) & 1;
            let b = (VALUE_OF_BOB[i] >> bit) & 1;
            assert_eq!((child[i] >> bit) & 1, if from_first { a } else { b });
            assert_eq!((other[i] >> bit) & 1, if from_first { b } else { a });
        }
    }
}

#[test]
fn breed_again_in_the_same_transaction_gives_the_same_child() {
    let breed_once = || {
        let mut bank = rich();
        let mut pallet = two_kitties(&mut bank);
        pallet.breed(&mut bank, BOB, 0, 1, &later())
    };
    let first = breed_once();
    assert!(first.is_ok());
    assert_eq!(first, breed_once());
}

#[test]
fn breed_pays_the_pallet_account() {
    let mut bank = rich();
    let mut pallet = two_kitties(&mut bank);
    pallet.breed(&mut bank, CAROL, 0, 1, &later()).unwrap();
    assert_eq!(bank.asked.last(), Some(&(CAROL, PALLET_ACCOUNT, PRICE, true)));
    assert_eq!(bank.balance(CAROL), 900);
    assert_eq!(bank.balance(PALLET_ACCOUNT), 300);
}

#[test]
fn breed_with_itself_is_refused() {
    let mut bank = rich();
    let mut pallet = two_kitties(&mut bank);
    let asked = bank.asked.len();
    assert_eq!(
        pallet.breed(&mut bank, ALICE, 0, 0, &later()),
        Err(Failure::Pallet(Error::SameKittyId))
    );
    assert_eq!(
        pallet.breed(&mut bank, BOB, 1, 1, &later()),
        Err(Failure::Pallet(Error::SameKittyId))
    );
    assert_eq!(
        pallet.breed(&mut bank, ALICE, 9, 9, &later()),
        Err(Failure::Pallet(Error::SameKittyId))
    );
    assert_eq!(pallet.next_kitty_id(), 2);
    assert_eq!(bank.asked.len(), asked);
}

#[test]
fn breed_with_unknown_kitty_is_refused() {
    let mut bank = rich();
    let mut pallet = two_kitties(&mut bank);
    let asked = bank.asked.len();
    for (first, second) in [(0, 2), (2, 0), (5, 6)] {
        assert_eq!(
            pallet.breed(&mut bank, ALICE, first, second, &later()),
            Err(Failure::Pallet(Error::InvalidKittyId))
        );
    }
    assert_eq!(pallet.next_kitty_id(), 2);
    assert_eq!(pallet.kitties(2), None);
    assert_eq!(bank.asked.len(), asked);
}

#[test]
fn breed_without_identifier_left_is_refused() {
    let mut bank = rich();
    let mut pallet = Pallet::starting_at(PRICE, PALLET_ID, u32::MAX - 2);
    pallet.create(&mut bank, ALICE, &context()).unwrap();
    pallet.create(&mut bank, ALICE, &context()).unwrap();
    assert_eq!(pallet.next_kitty_id(), u32::MAX);
    assert_eq!(
        pallet.breed(&mut bank, ALICE, u32::MAX - 2, u32::MAX - 1, &later()),
        Err(Failure::Pallet(Error::StorageOverflow))
    );
    assert_eq!(pallet.next_kitty_id(), u32::MAX);
    assert_eq!(bank.asked.len(), 2);
}

#[test]
fn breed_without_funds_changes_nothing() {
    let mut bank = Bank::with(&[(ALICE, 1_000), (BOB, 1_000), (CAROL, 50)]);
    let mut pallet = two_kitties(&mut bank);
    assert_eq!(
        pallet.breed(&mut bank, CAROL, 0, 1, &later()),
        Err(Failure::Payment(DispatchError::Token(TokenError::FundsUnavailable)))
    );
    assert_eq!(pallet.next_kitty_id(), 2);
    assert_eq!(pallet.kitties(2), None);
    assert_eq!(pallet.kitty_owner(2), None);
    assert_eq!(pallet.kitty_parents(2), None);
    assert_eq!(bank.balance(CAROL), 50);
}

#[test]
fn transfer_changes_the_owner() {
    let mut bank = rich();
    let mut pallet = two_kitties(&mut bank);
    assert_eq!(
        pallet.transfer(ALICE, CAROL, 0),
        Ok(Event::KittyTransferred { from: ALICE, recipient: CAROL, kitty_id: 0 })
    );
    assert_eq!(pallet.kitty_owner(0), Some(CAROL));
    assert_eq!(pallet.kitty_owner(1), Some(BOB));
    assert_eq!(pallet.kitties(0), Some(Kitty { dna: VALUE_OF_ALICE, name: None }));
}

#[test]
fn transfer_by_another_is_refused() {
    let mut bank = rich();
    let mut pallet = two_kitties(&mut bank);
    assert_eq!(pallet.transfer(BOB, CAROL, 0), Err(Error::NotOwner));
    assert_eq!(pallet.transfer(CAROL, CAROL, 0), Err(Error::NotOwner));
    assert_eq!(pallet.kitty_owner(0), Some(ALICE));
    pallet.transfer(ALICE, CAROL, 0).unwrap();
    assert_eq!(pallet.transfer(ALICE, BOB, 0), Err(Error::NotOwner));
    assert_eq!(pallet.kitty_owner(0), Some(CAROL));
}

#[test]
fn transfer_of_unknown_kitty_is_refused() {
    let mut bank = rich();
    let mut pallet = two_kitties(&mut bank);
    assert_eq!(pallet.transfer(ALICE, BOB, 2), Err(Error::InvalidKittyId));
    assert_eq!(pallet.kitty_owner(2), None);
}

#[test]
fn transfer_leaves_the_sale_standing() {
    let mut bank = rich();
    let mut pallet = two_kitties(&mut bank);
    pallet.sale(ALICE, 0).unwrap();
    pallet.transfer(ALICE, BOB, 0).unwrap();
    assert_eq!(pallet.kitty_on_sale(0), Some(()));
    assert_eq!(pallet.kitty_owner(0), Some(BOB));
    assert_eq!(pallet.sale(BOB, 0), Err(Error::AlreadyOnSale));
    let asked = bank.asked.len();
    assert_eq!(pallet.buy(&mut bank, CAROL, 0), Ok(Event::KittyBought { who: CAROL, kitty_id: 0 }));
    assert_eq!(bank.asked[asked..], [(CAROL, BOB, PRICE, true)]);
    assert_eq!(pallet.kitty_owner(0), Some(CAROL));
    assert_eq!(pallet.kitty_on_sale(0), None);
}

#[test]
fn sale_puts_the_kitty_on_sale() {
    let mut bank = rich();
    let mut pallet = two_kitties(&mut bank);
    assert_eq!(pallet.sale(BOB, 1), Ok(Event::KittyOnSale { who: BOB, kitty_id: 1 }));
    assert_eq!(pallet.kitty_on_sale(1), Some(()));
    assert_eq!(pallet.kitty_on_sale(0), None);
    assert_eq!(pallet.kitty_owner(1), Some(BOB));
}

#[test]
fn sale_twice_is_refused() {
    let mut bank = rich();
    let mut pallet = two_kitties(&mut bank);
    pallet.sale(ALICE, 0).unwrap();
    assert_eq!(pallet.sale(ALICE, 0), Err(Error::AlreadyOnSale));
    assert_eq!(pallet.kitty_on_sale(0), Some(()));
}

#[test]
fn sale_by_another_is_refused() {
    let mut bank = rich();
    let mut pallet = two_kitties(&mut bank);
    assert_eq!(pallet.sale(BOB, 0), Err(Error::NotOwner));
    assert_eq!(pallet.kitty_on_sale(0), None);
    pallet.sale(ALICE, 0).unwrap();
    assert_eq!(pallet.sale(BOB, 0), Err(Error::NotOwner));
}

#[test]
fn sale_of_unknown_kitty_is_refused() {
    let mut bank = rich();
    let mut pallet = two_kitties(&mut bank);
    assert_eq!(pallet.sale(ALICE, 7), Err(Error::InvalidKittyId));
    assert_eq!(pallet.kitty_on_sale(7), None);
}

#[test]
fn buy_moves_price_and_kitty() {
    let mut bank = rich();
    let mut pallet = two_kitties(&mut bank);
    pallet.sale(ALICE, 0).unwrap();
    let alice_before = bank.balance(ALICE);
    let bob_before = bank.balance(BOB);
    let pallet_before = bank.balance(PALLET_ACCOUNT);
    let asked = bank.asked.len();
    assert_eq!(pallet.buy(&mut bank, BOB, 0), Ok(Event::KittyBought { who: BOB, kitty_id: 0 }));
    assert_eq!(pallet.kitty_owner(0), Some(BOB));
    assert_eq!(pallet.kitty_on_sale(0), None);
    assert_eq!(bank.balance(ALICE), alice_before + PRICE);
    assert_eq!(bank.balance(BOB), bob_before - PRICE);
    assert_eq!(bank.balance(PALLET_ACCOUNT), pallet_before);
    assert_eq!(bank.asked[asked..], [(BOB, ALICE, PRICE, true)]);
    assert_eq!(pallet.next_kitty_id(), 2);
}

#[test]
fn buy_lets_the_buyer_sell_again() {
    let mut bank = rich();
    let mut pallet = two_kitties(&mut bank);
    pallet.sale(ALICE, 0).unwrap();
    pallet.buy(&mut bank, BOB, 0).unwrap();
    assert_eq!(pallet.sale(ALICE, 0), Err(Error::NotOwner));
    assert_eq!(pallet.sale(BOB, 0), Ok(Event::KittyOnSale { who: BOB, kitty_id: 0 }));
    assert_eq!(pallet.buy(&mut bank, ALICE, 0), Ok(Event::KittyBought { who: ALICE, kitty_id: 0 }));
    assert_eq!(pallet.kitty_owner(0), Some(ALICE));
}

#[test]
fn buy_of_kitty_not_on_sale_is_refused() {
    let mut bank = rich();
    let mut pallet = two_kitties(&mut bank);
    let asked = bank.asked.len();
    assert_eq!(pallet.buy(&mut bank, BOB, 0), Err(Failure::Pallet(Error::NotOnSale)));
    assert_eq!(pallet.kitty_owner(0), Some(ALICE));
    assert_eq!(bank.asked.len(), asked);
    assert_eq!(bank.balance(BOB), 900);
}

#[test]
fn buy_by_owner_is_refused() {
    let mut bank = rich();
    let mut pallet = two_kitties(&mut bank);
    let asked = bank.asked.len();
    assert_eq!(pallet.buy(&mut bank, ALICE, 0), Err(Failure::Pallet(Error::AlreadyOnSale)));
    pallet.sale(ALICE, 0).unwrap();
    assert_eq!(pallet.buy(&mut bank, ALICE, 0), Err(Failure::Pallet(Error::AlreadyOnSale)));
    assert_eq!(pallet.kitty_on_sale(0), Some(()));
    assert_eq!(pallet.kitty_owner(0), Some(ALICE));
    assert_eq!(bank.asked.len(), asked);
}

#[test]
fn buy_of_unknown_kitty_is_refused() {
    let mut bank = rich();
    let mut pallet = two_kitties(&mut bank);
    assert_eq!(pallet.buy(&mut bank, CAROL, 2), Err(Failure::Pallet(Error::InvalidKittyId)));
}

#[test]
fn buy_without_funds_changes_nothing() {
    let mut bank = Bank::with(&[(ALICE, 1_000), (BOB, 1_000), (CAROL, 100)]);
    let mut pallet = two_kitties(&mut bank);
    pallet.sale(ALICE, 0).unwrap();
    assert_eq!(
        pallet.buy(&mut bank, CAROL, 0),
        Err(Failure::Payment(DispatchError::Token(TokenError::NotExpendable)))
    );
    assert_eq!(bank.asked.last(), Some(&(CAROL, ALICE, PRICE, true)));
    assert_eq!(pallet.kitty_owner(0), Some(ALICE));
    assert_eq!(pallet.kitty_on_sale(0), Some(()));
    assert_eq!(bank.balance(CAROL), 100);
    assert_eq!(bank.balance(ALICE), 900);
}

#[test]
fn create_breed_sell_and_buy() {
    let mut bank = Bank::with(&[(ALICE, 1_000), (BOB, 500)]);
    let mut pallet = Pallet::new(PRICE, PALLET_ID);

    let first = pallet.create(&mut bank, ALICE, &context()).unwrap();
    assert!(matches!(first, Event::KittyCreated { who: ALICE, kitty_id: 0, .. }));
    assert_eq!(pallet.kitty_owner(0), Some(ALICE));

    assert_eq!(
        pallet.breed(&mut bank, ALICE, 0, 0, &context()),
        Err(Failure::Pallet(Error::SameKittyId))
    );

    let second = pallet.create(&mut bank, ALICE, &later()).unwrap();
    assert!(matches!(second, Event::KittyCreated { who: ALICE, kitty_id: 1, .. }));

    let bred = pallet.breed(&mut bank, ALICE, 0, 1, &context()).unwrap();
    let child = mixed(VALUE_OF_ALICE, VALUE_OF_ALICE_LATER, VALUE_OF_ALICE);
    assert_eq!(
        bred,
        Event::KittyBred { who: ALICE, kitty_id: 2, kitty: Kitty { dna: child, name: None } }
    );
    assert_eq!(pallet.kitty_parents(2), Some((0, 1)));
    assert_eq!(pallet.kitties(2).map(|kitty| kitty.dna), Some(child));
    assert_eq!(bank.balance(ALICE), 700);

    assert_eq!(pallet.sale(ALICE, 2), Ok(Event::KittyOnSale { who: ALICE, kitty_id: 2 }));
    assert_eq!(pallet.kitty_on_sale(2), Some(()));

    assert_eq!(pallet.buy(&mut bank, BOB, 2), Ok(Event::KittyBought { who: BOB, kitty_id: 2 }));
    assert_eq!(pallet.kitty_owner(2), Some(BOB));
    assert_eq!(pallet.kitty_on_sale(2), None);
    assert_eq!(bank.balance(BOB), 400);
    assert_eq!(bank.balance(ALICE), 800);
    assert_eq!(bank.balance(PALLET_ACCOUNT), 300);
}
