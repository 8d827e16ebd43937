use complyrail_contracts::{Address, ComplyRailContract, Env, PaymentStatus, VaspStatus};

/// The address whose strkey starts with `prefix`, padded with `A` to the
/// 56 characters of a strkey.
fn address(prefix: &str) -> Address {
    let mut strkey = prefix.as_bytes().to_vec();
    strkey.resize(56, b'A');
    Address::new(strkey).unwrap()
}

#[test]
fn test_initialize() {
    let mut env = Env::default();
    let admin = address("GADMINAAAAAAAAAAAAAAAAAAAAAAAAAAAAAAAAAAAAAAAAAAAAAAAAAA");

    ComplyRailContract::initialize(&mut env, admin.clone()).unwrap();

    let stored_admins: Vec<Address> = env.admins();
    assert_eq!(stored_admins.len(), 1);
    let stored_admin: Address = stored_admins[0].clone();
    assert_eq!(stored_admin, admin);
}

#[test]
fn test_register_vasp() {
    let mut env = Env::default();
    let admin = address("GADMINAAAAAAAAAAAAAAAAAAAAAAAAAAAAAAAAAAAAAAAAAAAAAAAAAA");
    let vasp = address("GVASPAAAAAAAAAAAAAAAAAAAAAAAAAAAAAAAAAAAAAAAAAAAAAAAAAAA");

    ComplyRailContract::initialize(&mut env, admin.clone()).unwrap();

    let name = b"Anchor A".to_vec();
    let jurisdiction = b"US".to_vec();
    let public_key = [0u8; 32];

    ComplyRailContract::register_vasp(
        &mut env,
        admin.clone(),
        vasp.clone(),
        name,
        jurisdiction,
        public_key,
    )
    .unwrap();

    let stored_vasp = ComplyRailContract::get_vasp(&env, vasp.clone());
    assert!(stored_vasp.is_some());

    let entry = stored_vasp.unwrap();
    assert_eq!(entry.address, vasp);
    assert_eq!(entry.status, VaspStatus::Active);
}

#[test]
fn test_set_threshold() {
    let mut env = Env::default();
    let admin = address("GADMINAAAAAAAAAAAAAAAAAAAAAAAAAAAAAAAAAAAAAAAAAAAAAAAAAA");
    let asset = address("CASSETAAAAAAAAAAAAAAAAAAAAAAAAAAAAAAAAAAAAAAAAAAAAAAAAAA");

    ComplyRailContract::initialize(&mut env, admin.clone()).unwrap();

    let jurisdiction = b"US".to_vec();
    let threshold: i128 = 1000_0000000; // 1000 in stroops

    ComplyRailContract::set_threshold(
        &mut env,
        admin.clone(),
        asset.clone(),
        jurisdiction.clone(),
        threshold,
    )
    .unwrap();

    let stored_threshold = ComplyRailContract::get_threshold(&env, asset.clone(), jurisdiction.clone());
    assert_eq!(stored_threshold, Some(threshold));
}

#[test]
fn test_below_threshold_auto_release() {
    let mut env = Env::default();
    let admin = address("GADMINAAAAAAAAAAAAAAAAAAAAAAAAAAAAAAAAAAAAAAAAAAAAAAAAAA");
    let from_vasp = address("GFROMAAAAAAAAAAAAAAAAAAAAAAAAAAAAAAAAAAAAAAAAAAAAAAAAAAA");
    let to_vasp = address("GTOAAAAAAAAAAAAAAAAAAAAAAAAAAAAAAAAAAAAAAAAAAAAAAAAAAAAA");
    let beneficiary = address("GBENEFAAAAAAAAAAAAAAAAAAAAAAAAAAAAAAAAAAAAAAAAAAAAAAAAAA");
    let asset = address("CASSETAAAAAAAAAAAAAAAAAAAAAAAAAAAAAAAAAAAAAAAAAAAAAAAAAA");

    ComplyRailContract::initialize(&mut env, admin.clone()).unwrap();

    // Register VASPs
    let name = b"Test VASP".to_vec();
    let jurisdiction = b"US".to_vec();
    let public_key = [0u8; 32];

    ComplyRailContract::register_vasp(
        &mut env,
        admin.clone(),
        from_vasp.clone(),
        name.clone(),
        jurisdiction.clone(),
        public_key,
    )
    .unwrap();

    ComplyRailContract::register_vasp(
        &mut env,
        admin.clone(),
        to_vasp.clone(),
        name,
        jurisdiction.clone(),
        public_key,
    )
    .unwrap();

    // Set threshold
    let threshold: i128 = 1000_0000000;
    ComplyRailContract::set_threshold(&mut env, admin.clone(), asset.clone(), jurisdiction.clone(), threshold)
        .unwrap();

    // Submit payment below threshold
    let payment_amount: i128 = 500_0000000;
    let payment_id = ComplyRailContract::submit_payment(
        &mut env,
        from_vasp.clone(),
        to_vasp.clone(),
        beneficiary.clone(),
        asset.clone(),
        payment_amount,
    )
    .unwrap();

    // Verify payment is released
    let payment = ComplyRailContract::get_payment(&env, payment_id);
    assert!(payment.is_some());

    let record = payment.unwrap();
    assert_eq!(record.status, PaymentStatus::Released);
    assert_eq!(record.amount, payment_amount);
}

#[test]
fn test_above_threshold_pending() {
    let mut env = Env::default();
    let admin = address("GADMINAAAAAAAAAAAAAAAAAAAAAAAAAAAAAAAAAAAAAAAAAAAAAAAAAA");
    let from_vasp = address("GFROMAAAAAAAAAAAAAAAAAAAAAAAAAAAAAAAAAAAAAAAAAAAAAAAAAAA");
    let to_vasp = address("GTOAAAAAAAAAAAAAAAAAAAAAAAAAAAAAAAAAAAAAAAAAAAAAAAAAAAAA");
    let beneficiary = address("GBENEFAAAAAAAAAAAAAAAAAAAAAAAAAAAAAAAAAAAAAAAAAAAAAAAAAA");
    let asset = address("CASSETAAAAAAAAAAAAAAAAAAAAAAAAAAAAAAAAAAAAAAAAAAAAAAAAAA");

    ComplyRailContract::initialize(&mut env, admin.clone()).unwrap();

    // Register VASPs
    let name = b"Test VASP".to_vec();
    let jurisdiction = b"US".to_vec();
    let public_key = [0u8; 32];

    ComplyRailContract::register_vasp(
        &mut env,
        admin.clone(),
        from_vasp.clone(),
        name.clone(),
        jurisdiction.clone(),
        public_key,
    )
    .unwrap();

    ComplyRailContract::register_vasp(
        &mut env,
        admin.clone(),
        to_vasp.clone(),
        name,
        jurisdiction.clone(),
        public_key,
    )
    .unwrap();

    // Set threshold
    let threshold: i128 = 1000_0000000;
    ComplyRailContract::set_threshold(&mut env, admin.clone(), asset.clone(), jurisdiction.clone(), threshold)
        .unwrap();

    // Submit payment above threshold
    let payment_amount: i128 = 2000_0000000;
    let payment_id = ComplyRailContract::submit_payment(
        &mut env,
        from_vasp.clone(),
        to_vasp.clone(),
        beneficiary.clone(),
        asset.clone(),
        payment_amount,
    )
    .unwrap();

    // Verify payment is pending (not released)
    let payment = ComplyRailContract::get_payment(&env, payment_id);
    assert!(payment.is_some());

    let record = payment.unwrap();
    assert_eq!(record.status, PaymentStatus::Pending);
    assert_eq!(record.amount, payment_amount);
}
