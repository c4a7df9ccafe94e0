use subservice::{
    create_creator_account, create_user_account, purchase_subscription, record_subscription,
    CreateCreatorAccount, CreateUserAccount, Error, Pubkey, PurchaseSubscription,
    SUBSCRIPTION_DURATION,
};

fn key(b: u8) -> Pubkey {
    Pubkey::new_from_array([b; 32])
}

fn setup() -> PurchaseSubscription {
    let creator_account = create_creator_account(
        &CreateCreatorAccount { signer: key(1), payto_account: key(2) },
        "Art".to_string(),
        vec![100, 200],
        vec!["Basic".to_string(), "Pro".to_string()],
        vec!["aGVsbG8=".to_string(), "d29ybGQ=".to_string()],
    )
    .unwrap();
    let user_account = create_user_account(&CreateUserAccount { signer: key(3) });
    PurchaseSubscription {
        payto_account: key(2),
        creator_account_key: key(9),
        creator_account,
        user_account,
        signer: key(3),
    }
}

#[test]
fn purchase_scenario() {
    let mut ctx = setup();
    let now: i64 = 1_700_000_000;
    let transfer = purchase_subscription(&ctx, 100, 1).unwrap();
    assert_eq!(transfer.from, key(3));
    assert_eq!(transfer.to, key(2));
    assert_eq!(transfer.amount, 100);
    assert_eq!(transfer.plan_index, 0);
    let days = record_subscription(&mut ctx, &transfer, now);
    assert_eq!(days, 30);
    let u = &ctx.user_account;
    assert_eq!(u.subscription_endtime, vec![now + 30 * 86400]);
    assert_eq!(u.subscription_keys, vec![key(9)]);
    assert_eq!(u.subscription_names, vec![b"Basic".to_vec()]);
    assert_eq!(u.subscription_links, vec![b"hello".to_vec()]);
    assert_eq!(u.owner, key(3));

    assert_eq!(purchase_subscription(&ctx, 150, 1).err(), Some(Error::InvalidAmountOfSOL));
    assert_eq!(purchase_subscription(&ctx, 100, 3).err(), Some(Error::ItemDoesNotExist));
}

#[test]
fn purchase_amount_must_match_exactly() {
    let ctx = setup();
    assert_eq!(purchase_subscription(&ctx, 99, 1).err(), Some(Error::InvalidAmountOfSOL));
    assert_eq!(purchase_subscription(&ctx, 101, 1).err(), Some(Error::InvalidAmountOfSOL));
    assert_eq!(purchase_subscription(&ctx, 199, 2).err(), Some(Error::InvalidAmountOfSOL));
    assert_eq!(purchase_subscription(&ctx, 200, 2).unwrap().plan_index, 1);
}

#[test]
fn purchase_index_zero_and_past_end_fail() {
    let ctx = setup();
    assert_eq!(purchase_subscription(&ctx, 100, 0).err(), Some(Error::ItemDoesNotExist));
    assert_eq!(purchase_subscription(&ctx, 200, 3).err(), Some(Error::ItemDoesNotExist));
    assert_eq!(purchase_subscription(&ctx, 200, 255).err(), Some(Error::ItemDoesNotExist));
}

#[test]
fn purchase_wrong_payee_fails_first() {
    let mut ctx = setup();
    ctx.payto_account = key(7);
    assert_eq!(purchase_subscription(&ctx, 100, 1).err(), Some(Error::KeysMismatch));
    assert_eq!(purchase_subscription(&ctx, 5, 0).err(), Some(Error::KeysMismatch));
}

#[test]
fn purchase_appends_one_aligned_entry() {
    let mut ctx = setup();
    let t1 = purchase_subscription(&ctx, 200, 2).unwrap();
    record_subscription(&mut ctx, &t1, 1000);
    let t2 = purchase_subscription(&ctx, 200, 2).unwrap();
    record_subscription(&mut ctx, &t2, 2000);
    let u = &ctx.user_account;
    assert_eq!(u.subscription_keys.len(), 2);
    assert_eq!(u.subscription_names.len(), 2);
    assert_eq!(u.subscription_links.len(), 2);
    assert_eq!(u.subscription_endtime.len(), 2);
    assert_eq!(u.subscription_endtime, vec![1000 + SUBSCRIPTION_DURATION, 2000 + SUBSCRIPTION_DURATION]);
    assert_eq!(u.subscription_names[1], b"Pro".to_vec());
    assert_eq!(u.subscription_links[1], b"world".to_vec());
}

#[test]
fn purchase_on_full_record_fails_before_payment() {
    let mut ctx = setup();
    for i in 0..32 {
        let t = purchase_subscription(&ctx, 100, 1).unwrap();
        record_subscription(&mut ctx, &t, 1000 + i);
    }
    assert_eq!(ctx.user_account.subscription_keys.len(), 32);
    assert!(ctx.user_account.is_well_formed());
    assert_eq!(purchase_subscription(&ctx, 100, 1).err(), Some(Error::TooManySubscriptions));
    assert_eq!(purchase_subscription(&ctx, 150, 1).err(), Some(Error::InvalidAmountOfSOL));
}
