use subservice::{create_creator_account, encode_base64_url, CreateCreatorAccount, Error};

fn ctx() -> CreateCreatorAccount {
    CreateCreatorAccount {
        signer: subservice::Pubkey::new_from_array([1u8; 32]),
        payto_account: subservice::Pubkey::new_from_array([2u8; 32]),
    }
}

fn strings(v: &[&str]) -> Vec<String> {
    v.iter().map(|s| s.to_string()).collect()
}

#[test]
fn registration_keeps_plan_lists_aligned() {
    let c = create_creator_account(
        &ctx(),
        "Art".to_string(),
        vec![100, 200],
        strings(&["Basic", "Pro"]),
        strings(&["aGVsbG8=", "d29ybGQ="]),
    )
    .unwrap();
    assert_eq!(c.subscription_plans_prices.len(), 2);
    assert_eq!(c.subscription_plans_names.len(), 2);
    assert_eq!(c.subscription_plans_images.len(), 2);
    assert_eq!(c.creator, subservice::Pubkey::new_from_array([1u8; 32]));
    assert_eq!(c.payto, subservice::Pubkey::new_from_array([2u8; 32]));
    assert_eq!(c.name, b"Art".to_vec());
    assert_eq!(c.subscription_plans_prices[0], vec![100, 0, 0, 0, 0, 0, 0, 0]);
    assert_eq!(c.subscription_plans_prices[1], vec![200, 0, 0, 0, 0, 0, 0, 0]);
    assert_eq!(c.subscription_plans_names[1], b"Pro".to_vec());
    assert_eq!(c.subscription_plans_images[0], b"hello".to_vec());
    assert_eq!(c.subscription_plans_images[1], b"world".to_vec());
    assert_eq!(c.plan_price(1), 200);
}

#[test]
fn registration_stores_large_price_little_endian() {
    let c = create_creator_account(
        &ctx(),
        "t".to_string(),
        vec![0x0102030405060708],
        strings(&["p"]),
        strings(&["aGVsbG8="]),
    )
    .unwrap();
    assert_eq!(c.subscription_plans_prices[0], vec![8, 7, 6, 5, 4, 3, 2, 1]);
    assert_eq!(c.plan_price(0), 0x0102030405060708);
}

#[test]
fn registration_with_no_plans() {
    let c = create_creator_account(&ctx(), String::new(), vec![], vec![], vec![]).unwrap();
    assert_eq!(c.subscription_plans_prices.len(), 0);
    assert!(c.name.is_empty());
}

#[test]
fn mismatched_plan_lists_fail() {
    let r = create_creator_account(
        &ctx(),
        "t".to_string(),
        vec![1, 2],
        strings(&["a"]),
        strings(&["aGVsbG8=", "aGVsbG8="]),
    );
    assert_eq!(r.err(), Some(Error::InvalidInputLength));
    let r = create_creator_account(
        &ctx(),
        "t".to_string(),
        vec![1],
        strings(&["a"]),
        strings(&[]),
    );
    assert_eq!(r.err(), Some(Error::InvalidInputLength));
}

#[test]
fn mismatched_plan_lists_fail_even_when_too_many() {
    let prices: Vec<u64> = (0..40).collect();
    let r = create_creator_account(
        &ctx(),
        "a topic that is far longer than thirty-two bytes".to_string(),
        prices,
        strings(&["a", "b", "c"]),
        strings(&["!!", "!!", "!!"]),
    );
    assert_eq!(r.err(), Some(Error::InvalidInputLength));
}

#[test]
fn too_many_plans_fail() {
    let n = 33;
    let r = create_creator_account(
        &ctx(),
        "t".to_string(),
        vec![1; n],
        vec!["a".to_string(); n],
        vec!["aGVsbG8=".to_string(); n],
    );
    assert_eq!(r.err(), Some(Error::TooManyPlans));
    let n = 32;
    let r = create_creator_account(
        &ctx(),
        "t".to_string(),
        vec![1; n],
        vec!["a".to_string(); n],
        vec!["aGVsbG8=".to_string(); n],
    );
    assert_eq!(r.unwrap().subscription_plans_prices.len(), 32);
}

#[test]
fn topic_too_long_fails() {
    let r = create_creator_account(&ctx(), "x".repeat(33), vec![], vec![], vec![]);
    assert_eq!(r.err(), Some(Error::NameTooLong));
    let r = create_creator_account(&ctx(), "x".repeat(32), vec![], vec![], vec![]);
    assert!(r.is_ok());
    // Sixteen two-byte characters: 32 bytes.
    let r = create_creator_account(&ctx(), "é".repeat(16), vec![], vec![], vec![]);
    assert!(r.is_ok());
    let r = create_creator_account(&ctx(), "é".repeat(17), vec![], vec![], vec![]);
    assert_eq!(r.err(), Some(Error::NameTooLong));
}

#[test]
fn plan_name_too_long_fails() {
    let r = create_creator_account(
        &ctx(),
        "t".to_string(),
        vec![1, 2],
        vec!["ok".to_string(), "y".repeat(33)],
        strings(&["aGVsbG8=", "aGVsbG8="]),
    );
    assert_eq!(r.err(), Some(Error::NameTooLong));
}

#[test]
fn malformed_reference_fails() {
    for bad in ["aGVsbG8", "a$bc", "+/8=", "abc", "aGVsbG8=="] {
        let r = create_creator_account(
            &ctx(),
            "t".to_string(),
            vec![1],
            strings(&["p"]),
            vec![bad.to_string()],
        );
        assert_eq!(r.err(), Some(Error::InvalidURLFormat), "{}", bad);
    }
}

#[test]
fn long_reference_fails() {
    let long = encode_base64_url(&[7u8; 65]);
    let r = create_creator_account(
        &ctx(),
        "t".to_string(),
        vec![1],
        strings(&["p"]),
        vec![long],
    );
    assert_eq!(r.err(), Some(Error::URLTooLong));
    let fits = encode_base64_url(&[7u8; 64]);
    let c = create_creator_account(&ctx(), "t".to_string(), vec![1], strings(&["p"]), vec![fits])
        .unwrap();
    assert_eq!(c.subscription_plans_images[0], vec![7u8; 64]);
}

#[test]
fn undecodable_reference_outranks_long_reference() {
    let long = encode_base64_url(&[7u8; 65]);
    let r = create_creator_account(
        &ctx(),
        "t".to_string(),
        vec![1, 2, 3],
        strings(&["a", "b", "c"]),
        vec!["aGVsbG8=".to_string(), long.clone(), "!!".to_string()],
    );
    assert_eq!(r.err(), Some(Error::InvalidURLFormat));
    let r = create_creator_account(
        &ctx(),
        "t".to_string(),
        vec![1, 2],
        strings(&["a", "b"]),
        vec![long, "aGVsbG8=".to_string()],
    );
    assert_eq!(r.err(), Some(Error::URLTooLong));
}
