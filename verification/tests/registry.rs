//! Wallet registry behaviour: identifier generation, wallet creation,
//! username uniqueness, lookups, and the derived address.
use wallet_core::CanisterError;
use wallet_core::CustomUuid;
use wallet_core::CustomUuidError;
use wallet_core::Identity;
use wallet_core::State;
use wallet_core::Subaccount;

fn owner() -> Identity {
    Identity::from_bytes(vec![1, 2, 3, 4])
}

#[test]
fn custom_uuid_stamps_version_and_variant() {
    let id = CustomUuid::new([0u8; 16]);
    let mut expected = vec![0u8; 16];
    expected[6] = 0x40;
    expected[8] = 0x80;
    assert_eq!(id.as_bytes().as_slice(), expected.as_slice());
}

#[test]
fn custom_uuid_keeps_drawn_bytes() {
    let mut draw = [0u8; 16];
    for i in 0..16 {
        draw[i] = i as u8;
    }
    let id = CustomUuid::new(draw);
    let mut expected = draw.to_vec();
    expected[6] = (6 & 0x0f) | 0x40;
    expected[8] = (8 & 0x3f) | 0x80;
    assert_eq!(id.as_bytes().as_slice(), expected.as_slice());
}

#[test]
fn custom_uuid_from_short_draw_fails() {
    let r = CustomUuid::from_random_bytes(&vec![0u8; 15]);
    assert!(matches!(r, Err(CustomUuidError::InvalidRandomBytesLength)));
}

#[test]
fn custom_uuid_from_draw_uses_first_sixteen_bytes() {
    let mut draw = vec![0u8; 32];
    for i in 0..32 {
        draw[i] = (i as u8).wrapping_mul(3);
    }
    let id = CustomUuid::from_random_bytes(&draw).unwrap();
    let mut first: [u8; 16] = [0u8; 16];
    first.copy_from_slice(&draw[..16]);
    let direct = CustomUuid::new(first);
    assert!(id.same_as(&direct));
}

#[test]
fn subaccount_from_short_draw_fails() {
    let r = Subaccount::from_random_bytes(&vec![0u8; 31]);
    assert!(matches!(r, Err(CanisterError::RandomnessTooShort)));
}

#[test]
fn subaccount_from_draw_uses_first_thirty_two_bytes() {
    let mut draw = vec![0u8; 40];
    for i in 0..40 {
        draw[i] = i as u8;
    }
    let sub = Subaccount::from_random_bytes(&draw).unwrap();
    assert_eq!(sub.as_bytes().as_slice(), &draw[..32]);
}

#[test]
fn create_wallet_with_short_id_draw_fails() {
    let mut state = State::new();
    let r = state.create_wallet("alice".to_string(), owner(), &vec![0u8; 12], &vec![0u8; 32]);
    assert!(matches!(
        r,
        Err(CanisterError::UuidError(CustomUuidError::InvalidRandomBytesLength))
    ));
}

#[test]
fn create_wallet_with_short_subaccount_draw_fails() {
    let mut state = State::new();
    let r = state.create_wallet("alice".to_string(), owner(), &vec![0u8; 16], &vec![0u8; 20]);
    assert!(matches!(r, Err(CanisterError::RandomnessTooShort)));
}

#[test]
fn scenario_username_taken_and_lookup() {
    let mut state = State::new();
    let w1 = state
        .create_wallet("alice".to_string(), owner(), &vec![1u8; 32], &vec![2u8; 32])
        .unwrap();
    let again = state.create_wallet("alice".to_string(), owner(), &vec![3u8; 32], &vec![4u8; 32]);
    assert!(matches!(again, Err(CanisterError::UserAlreadyExists)));
    let id = state.get_wallet_id_by_user(&"alice".to_string()).unwrap();
    assert!(id.same_as(&w1.get_wallet_id()));
}

#[test]
fn failed_create_leaves_no_partial_wallet() {
    let mut state = State::new();
    state
        .create_wallet("alice".to_string(), owner(), &vec![1u8; 32], &vec![2u8; 32])
        .unwrap();
    let second_id_draw = vec![9u8; 32];
    let refused =
        state.create_wallet("alice".to_string(), owner(), &second_id_draw, &vec![8u8; 32]);
    assert!(matches!(refused, Err(CanisterError::UserAlreadyExists)));
    // The wallet the second draw would have produced was never registered.
    let would_be_id = CustomUuid::from_random_bytes(&second_id_draw).unwrap();
    let lookup = state.get_wallet(&would_be_id);
    assert!(matches!(lookup, Err(CanisterError::NoWalletFound(_))));
}

#[test]
fn taken_username_wins_over_short_draw() {
    // The username check comes first: a taken name is reported even when
    // the draws are unusable.
    let mut state = State::new();
    state
        .create_wallet("alice".to_string(), owner(), &vec![1u8; 32], &vec![2u8; 32])
        .unwrap();
    let r = state.create_wallet("alice".to_string(), owner(), &vec![0u8; 3], &vec![0u8; 3]);
    assert!(matches!(r, Err(CanisterError::UserAlreadyExists)));
}

#[test]
fn identifier_collision_fails_creation() {
    // The registry never overwrites a stored wallet: a second creation whose
    // draw yields an already-registered identifier fails and binds nothing.
    let mut state = State::new();
    let shared_draw = vec![1u8; 32];
    let w1 = state
        .create_wallet("alice".to_string(), owner(), &shared_draw, &vec![2u8; 32])
        .unwrap();
    let r = state.create_wallet("bob".to_string(), owner(), &shared_draw, &vec![4u8; 32]);
    assert!(matches!(r, Err(CanisterError::IdentifierCollision)));
    assert!(matches!(
        state.get_wallet_id_by_user(&"bob".to_string()),
        Err(CanisterError::UserDoesNotExist)
    ));
    // The stored wallet kept its subaccount: nothing was replaced.
    let kept = state.get_wallet(&w1.get_wallet_id()).unwrap();
    assert_eq!(
        kept.get_subaccount().as_bytes().as_slice(),
        w1.get_subaccount().as_bytes().as_slice()
    );
}

#[test]
fn unknown_user_fails() {
    let state = State::new();
    let r = state.get_wallet_id_by_user(&"nobody".to_string());
    assert!(matches!(r, Err(CanisterError::UserDoesNotExist)));
}

#[test]
fn unknown_wallet_fails() {
    let state = State::new();
    let id = CustomUuid::new([5u8; 16]);
    let r = state.get_wallet(&id);
    match r {
        Err(CanisterError::NoWalletFound(missing)) => assert!(missing.same_as(&id)),
        _ => panic!("expected NoWalletFound"),
    }
    let a = state.get_account_identifier(&id);
    assert!(matches!(a, Err(CanisterError::NoWalletFound(_))));
}

#[test]
fn wallet_fields_come_from_the_draws() {
    let mut state = State::new();
    let id_draw = vec![1u8; 32];
    let sub_draw: Vec<u8> = (0..32).map(|i| i as u8).collect();
    let w = state
        .create_wallet("alice".to_string(), owner(), &id_draw, &sub_draw)
        .unwrap();
    assert_eq!(w.get_principal().as_bytes().as_slice(), &[1, 2, 3, 4]);
    assert_eq!(w.get_subaccount().as_bytes().as_slice(), &sub_draw[..32]);
    let expected_id = CustomUuid::from_random_bytes(&id_draw).unwrap();
    assert!(w.get_wallet_id().same_as(&expected_id));
    assert_eq!(w.get_account_identifier().as_bytes().len(), 32);
}

#[test]
fn registered_wallet_is_returned_whole() {
    let mut state = State::new();
    let w = state
        .create_wallet("alice".to_string(), owner(), &vec![1u8; 32], &vec![2u8; 32])
        .unwrap();
    let looked_up = state.get_wallet(&w.get_wallet_id()).unwrap();
    assert!(looked_up.get_wallet_id().same_as(&w.get_wallet_id()));
    assert!(looked_up.get_principal().same_as(&w.get_principal()));
    assert_eq!(
        looked_up.get_account_identifier().as_bytes(),
        w.get_account_identifier().as_bytes()
    );
    let addr = state.get_account_identifier(&w.get_wallet_id()).unwrap();
    assert_eq!(addr.as_bytes(), w.get_account_identifier().as_bytes());
}

#[test]
fn derived_address_matches_the_ledger_protocol() {
    let owner_bytes = vec![1u8, 2, 3, 4];
    let sub_draw: Vec<u8> = (0..32).map(|i| (i as u8).wrapping_mul(7)).collect();
    let mut state = State::new();
    let w = state
        .create_wallet(
            "alice".to_string(),
            Identity::from_bytes(owner_bytes.clone()),
            &vec![1u8; 32],
            &sub_draw,
        )
        .unwrap();
    let principal = candid::Principal::from_slice(&owner_bytes);
    let mut sub_arr = [0u8; 32];
    sub_arr.copy_from_slice(&sub_draw);
    let expected =
        ic_ledger_types::AccountIdentifier::new(&principal, &ic_ledger_types::Subaccount(sub_arr));
    assert_eq!(w.get_account_identifier().as_bytes().as_slice(), expected.as_ref());
}

#[test]
fn stored_wallets_never_change() {
    let mut state = State::new();
    let w1 = state
        .create_wallet("alice".to_string(), owner(), &vec![1u8; 32], &vec![2u8; 32])
        .unwrap();
    let before = state.get_wallet(&w1.get_wallet_id()).unwrap();
    state
        .create_wallet("bob".to_string(), owner(), &vec![3u8; 32], &vec![4u8; 32])
        .unwrap();
    let refused = state.create_wallet("alice".to_string(), owner(), &vec![5u8; 32], &vec![6u8; 32]);
    assert!(matches!(refused, Err(CanisterError::UserAlreadyExists)));
    let after = state.get_wallet(&w1.get_wallet_id()).unwrap();
    assert!(after.get_wallet_id().same_as(&before.get_wallet_id()));
    assert!(after.get_principal().same_as(&before.get_principal()));
    assert_eq!(
        after.get_subaccount().as_bytes(),
        before.get_subaccount().as_bytes()
    );
    assert_eq!(
        after.get_account_identifier().as_bytes(),
        before.get_account_identifier().as_bytes()
    );
}

#[test]
fn two_subaccounts_give_two_addresses() {
    let mut state = State::new();
    let w1 = state
        .create_wallet("alice".to_string(), owner(), &vec![1u8; 32], &vec![2u8; 32])
        .unwrap();
    let w2 = state
        .create_wallet("bob".to_string(), owner(), &vec![3u8; 32], &vec![4u8; 32])
        .unwrap();
    assert!(!w1.get_account_identifier().same_as(&w2.get_account_identifier()));
    assert_ne!(
        w1.get_account_identifier().as_bytes().as_slice(),
        w1.get_subaccount().as_bytes().as_slice()
    );
}
