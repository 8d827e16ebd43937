use complyrail_contracts::rules::{
    advance_counter, attest, check_admin, check_jurisdiction, format_threshold_key,
    payment_id_for, payment_status_for,
};
use complyrail_contracts::steps::{
    payment_threshold_key, release_payment_step, set_threshold_step, submit_payment_step,
};
use complyrail_contracts::{
    Address, Approvals, ComplyRailContract, ContractError, Env, Event, PaymentStatus, VaspStatus,
};

/// The address whose strkey starts with `prefix`, padded with `A` to the
/// 56 characters of a strkey.
fn address(prefix: &str) -> Address {
    let mut strkey = prefix.as_bytes().to_vec();
    strkey.resize(56, b'A');
    Address::new(strkey).unwrap()
}

fn admin() -> Address {
    address("GADMIN")
}
fn second_admin() -> Address {
    address("GSECOND")
}
fn from_vasp() -> Address {
    address("GFROM")
}
fn to_vasp() -> Address {
    address("GTO")
}
fn beneficiary() -> Address {
    address("GBENEF")
}
fn asset() -> Address {
    address("CASSET")
}

const THRESHOLD: i128 = 1000_0000000;

/// A contract with two admins, two active VASPs in "US" and a threshold
/// for the asset there.
fn setup() -> Env {
    let mut env = Env::default();
    ComplyRailContract::initialize(&mut env, admin()).unwrap();
    ComplyRailContract::set_admin(&mut env, admin(), second_admin()).unwrap();
    for v in [from_vasp(), to_vasp()] {
        ComplyRailContract::register_vasp(&mut env, admin(), v, b"VASP".to_vec(), b"US".to_vec(), [7u8; 32])
            .unwrap();
    }
    ComplyRailContract::set_threshold(&mut env, admin(), asset(), b"US".to_vec(), THRESHOLD).unwrap();
    env
}

fn pending_payment(env: &mut Env) -> [u8; 32] {
    ComplyRailContract::submit_payment(env, from_vasp(), to_vasp(), beneficiary(), asset(), THRESHOLD)
        .unwrap()
}

#[test]
fn payment_at_threshold_is_pending() {
    let mut env = setup();
    let id = pending_payment(&mut env);
    let p = ComplyRailContract::get_payment(&env, id).unwrap();
    assert_eq!(p.status, PaymentStatus::Pending);
    assert_eq!(p.resolved_at, None);
}

#[test]
fn payment_without_threshold_is_released() {
    let mut env = setup();
    env.set_timestamp(42);
    let other_asset = address("COTHER");
    let id = ComplyRailContract::submit_payment(&mut env, from_vasp(), to_vasp(), beneficiary(), other_asset, 1_000_000_000_000)
        .unwrap();
    let p = ComplyRailContract::get_payment(&env, id).unwrap();
    assert_eq!(p.status, PaymentStatus::Released);
    assert_eq!(p.created_at, 42);
    assert_eq!(p.resolved_at, Some(42));
}

#[test]
fn threshold_follows_beneficiary_jurisdiction() {
    let mut env = setup();
    let de_vasp = address("GDE");
    ComplyRailContract::register_vasp(&mut env, admin(), de_vasp.clone(), b"DE VASP".to_vec(), b"DE".to_vec(), [1u8; 32])
        .unwrap();
    let id = ComplyRailContract::submit_payment(&mut env, from_vasp(), de_vasp, beneficiary(), asset(), 2 * THRESHOLD)
        .unwrap();
    assert_eq!(ComplyRailContract::get_payment(&env, id).unwrap().status, PaymentStatus::Released);
}

#[test]
fn payment_ids_count_up_and_stay_distinct() {
    let mut env = setup();
    let first = pending_payment(&mut env);
    let second = pending_payment(&mut env);
    let mut expected_first = [0u8; 32];
    let mut expected_second = [0u8; 32];
    expected_second[0] = 1;
    expected_first[..8].copy_from_slice(&0u64.to_le_bytes());
    assert_eq!(first, expected_first);
    assert_eq!(second, expected_second);
    assert_eq!(ComplyRailContract::get_payment(&env, first).unwrap().id, first);
    assert_eq!(ComplyRailContract::get_payment(&env, second).unwrap().id, second);
}

#[test]
fn payment_id_is_little_endian_counter() {
    let id = payment_id_for(0x0102_0304_0506_0708);
    let mut expected = [0u8; 32];
    expected[..8].copy_from_slice(&0x0102_0304_0506_0708u64.to_le_bytes());
    assert_eq!(id, expected);
}

#[test]
fn counter_overflow_is_refused() {
    assert_eq!(advance_counter(u64::MAX), Err(ContractError::CounterOverflow));
    assert_eq!(advance_counter(41), Ok(42));
}

#[test]
fn attestation_by_beneficiary_releases() {
    let mut env = setup();
    let id = pending_payment(&mut env);
    env.set_timestamp(99);
    ComplyRailContract::submit_attestation(&mut env, to_vasp(), id, [9u8; 32], b"ivms101-2023".to_vec()).unwrap();
    let p = ComplyRailContract::get_payment(&env, id).unwrap();
    assert_eq!(p.status, PaymentStatus::Released);
    assert_eq!(p.attestation_hash, Some([9u8; 32]));
    assert_eq!(p.ivms_version, Some(b"ivms101-2023".to_vec()));
    assert_eq!(p.resolved_at, Some(99));
}

#[test]
fn attestation_by_other_vasp_is_refused() {
    let mut env = setup();
    let id = pending_payment(&mut env);
    assert_eq!(
        ComplyRailContract::submit_attestation(&mut env, from_vasp(), id, [9u8; 32], b"v".to_vec()),
        Err(ContractError::OnlyBeneficiaryCanAttest)
    );
    assert_eq!(ComplyRailContract::get_payment(&env, id).unwrap().status, PaymentStatus::Pending);
}

#[test]
fn attestation_with_empty_hash_is_refused() {
    let mut env = setup();
    let id = pending_payment(&mut env);
    assert_eq!(
        ComplyRailContract::submit_attestation(&mut env, to_vasp(), id, [0u8; 32], b"v".to_vec()),
        Err(ContractError::EmptyMessageHash)
    );
}

#[test]
fn attestation_of_unknown_or_released_payment_is_refused() {
    let mut env = setup();
    assert_eq!(
        ComplyRailContract::submit_attestation(&mut env, to_vasp(), [5u8; 32], [9u8; 32], b"v".to_vec()),
        Err(ContractError::PaymentNotFound)
    );
    let id = pending_payment(&mut env);
    ComplyRailContract::submit_attestation(&mut env, to_vasp(), id, [9u8; 32], b"v".to_vec()).unwrap();
    assert_eq!(
        ComplyRailContract::submit_attestation(&mut env, to_vasp(), id, [9u8; 32], b"v".to_vec()),
        Err(ContractError::PaymentNotPending)
    );
}

#[test]
fn attestation_needs_active_vasps() {
    let mut env = setup();
    let id = pending_payment(&mut env);
    ComplyRailContract::update_vasp_status(&mut env, admin(), to_vasp(), VaspStatus::Suspended).unwrap();
    assert_eq!(
        ComplyRailContract::submit_attestation(&mut env, to_vasp(), id, [9u8; 32], b"v".to_vec()),
        Err(ContractError::ToVaspNotActive)
    );
    ComplyRailContract::update_vasp_status(&mut env, admin(), to_vasp(), VaspStatus::Active).unwrap();
    ComplyRailContract::update_vasp_status(&mut env, admin(), from_vasp(), VaspStatus::Revoked).unwrap();
    assert_eq!(
        ComplyRailContract::submit_attestation(&mut env, to_vasp(), id, [9u8; 32], b"v".to_vec()),
        Err(ContractError::FromVaspNotActive)
    );
}

#[test]
fn attestation_rule_with_unregistered_vasps() {
    let mut env = setup();
    let id = pending_payment(&mut env);
    let p = ComplyRailContract::get_payment(&env, id).unwrap();
    let to_entry = ComplyRailContract::get_vasp(&env, to_vasp()).unwrap();
    assert_eq!(
        attest(&p, None, Some(&to_entry), &to_vasp(), [9u8; 32], b"v".to_vec(), 0).err(),
        Some(ContractError::ToVaspNotFound)
    );
    assert_eq!(
        attest(&p, Some(&to_entry), None, &to_vasp(), [9u8; 32], b"v".to_vec(), 0).err(),
        Some(ContractError::FromVaspNotFound)
    );
}

#[test]
fn payment_needs_registered_active_vasps() {
    let mut env = setup();
    let stranger = address("GSTRANGER");
    assert_eq!(
        ComplyRailContract::submit_payment(&mut env, stranger.clone(), to_vasp(), beneficiary(), asset(), 1),
        Err(ContractError::FromVaspNotRegistered)
    );
    assert_eq!(
        ComplyRailContract::submit_payment(&mut env, from_vasp(), stranger, beneficiary(), asset(), 1),
        Err(ContractError::ToVaspNotRegistered)
    );
    ComplyRailContract::update_vasp_status(&mut env, admin(), from_vasp(), VaspStatus::Suspended).unwrap();
    assert_eq!(
        ComplyRailContract::submit_payment(&mut env, from_vasp(), to_vasp(), beneficiary(), asset(), 1),
        Err(ContractError::FromVaspNotActive)
    );
    ComplyRailContract::update_vasp_status(&mut env, admin(), from_vasp(), VaspStatus::Active).unwrap();
    ComplyRailContract::update_vasp_status(&mut env, admin(), to_vasp(), VaspStatus::Revoked).unwrap();
    assert_eq!(
        ComplyRailContract::submit_payment(&mut env, from_vasp(), to_vasp(), beneficiary(), asset(), 1),
        Err(ContractError::ToVaspNotActive)
    );
}

#[test]
fn admin_operations_need_the_admin() {
    let mut env = Env::default();
    assert_eq!(
        ComplyRailContract::register_vasp(&mut env, admin(), from_vasp(), b"n".to_vec(), b"US".to_vec(), [0u8; 32]),
        Err(ContractError::AdminNotSet)
    );
    ComplyRailContract::initialize(&mut env, admin()).unwrap();
    let intruder = address("GINTRUDER");
    assert_eq!(
        ComplyRailContract::register_vasp(&mut env, intruder.clone(), from_vasp(), b"n".to_vec(), b"US".to_vec(), [0u8; 32]),
        Err(ContractError::Unauthorized)
    );
    assert_eq!(
        ComplyRailContract::set_threshold(&mut env, intruder.clone(), asset(), b"US".to_vec(), 5),
        Err(ContractError::Unauthorized)
    );
    assert_eq!(
        ComplyRailContract::update_vasp_status(&mut env, intruder.clone(), from_vasp(), VaspStatus::Revoked),
        Err(ContractError::Unauthorized)
    );
    assert_eq!(
        ComplyRailContract::release_payment(&mut env, intruder.clone(), [0u8; 32], b"r".to_vec()),
        Err(ContractError::OnlyAdminCanRelease)
    );
    assert_eq!(
        ComplyRailContract::reject_payment(&mut env, intruder, [0u8; 32], b"r".to_vec()),
        Err(ContractError::OnlyAdminCanReject)
    );
    assert_eq!(check_admin(&Vec::new(), &admin(), ContractError::Unauthorized), Err(ContractError::AdminNotSet));
    assert_eq!(env.events().len(), 1);
    assert!(ComplyRailContract::get_vasp(&env, from_vasp()).is_none());
}

#[test]
fn update_of_unknown_vasp_is_refused() {
    let mut env = setup();
    assert_eq!(
        ComplyRailContract::update_vasp_status(&mut env, admin(), address("GNOBODY"), VaspStatus::Suspended),
        Err(ContractError::VaspNotFound)
    );
}

#[test]
fn update_vasp_status_keeps_the_rest_of_the_entry() {
    let mut env = setup();
    ComplyRailContract::update_vasp_status(&mut env, admin(), to_vasp(), VaspStatus::Suspended).unwrap();
    let e = ComplyRailContract::get_vasp(&env, to_vasp()).unwrap();
    assert_eq!(e.status, VaspStatus::Suspended);
    assert_eq!(e.name, b"VASP".to_vec());
    assert_eq!(e.jurisdiction, b"US".to_vec());
    assert_eq!(e.public_key, [7u8; 32]);
}

#[test]
fn admin_release_and_reject() {
    let mut env = setup();
    let id = pending_payment(&mut env);
    env.set_timestamp(7);
    // One admin's approval is recorded but does not reject the payment.
    ComplyRailContract::reject_payment(&mut env, admin(), id, b"sanctions".to_vec()).unwrap();
    assert_eq!(ComplyRailContract::get_payment(&env, id).unwrap().status, PaymentStatus::Pending);
    assert_eq!(env.approvals(id).reject, vec![admin()]);
    assert_eq!(
        ComplyRailContract::reject_payment(&mut env, admin(), id, b"sanctions".to_vec()),
        Err(ContractError::AlreadyApproved)
    );
    // The second admin's approval completes the rejection.
    ComplyRailContract::reject_payment(&mut env, second_admin(), id, b"sanctions".to_vec()).unwrap();
    let p = ComplyRailContract::get_payment(&env, id).unwrap();
    assert_eq!(p.status, PaymentStatus::Rejected);
    assert_eq!(p.resolved_at, Some(7));
    assert!(env.approvals(id).reject.is_empty());
    assert_eq!(
        ComplyRailContract::reject_payment(&mut env, admin(), id, b"again".to_vec()),
        Err(ContractError::PaymentAlreadyRejected)
    );
    // A rejected payment can still be released by two admins.
    ComplyRailContract::release_payment(&mut env, second_admin(), id, b"cleared".to_vec()).unwrap();
    assert_eq!(ComplyRailContract::get_payment(&env, id).unwrap().status, PaymentStatus::Rejected);
    ComplyRailContract::release_payment(&mut env, admin(), id, b"cleared".to_vec()).unwrap();
    assert_eq!(ComplyRailContract::get_payment(&env, id).unwrap().status, PaymentStatus::Released);
    assert_eq!(
        ComplyRailContract::release_payment(&mut env, admin(), id, b"again".to_vec()),
        Err(ContractError::PaymentAlreadyReleased)
    );
    assert_eq!(
        ComplyRailContract::reject_payment(&mut env, admin(), id, b"late".to_vec()),
        Err(ContractError::CannotRejectReleased)
    );
    assert_eq!(
        ComplyRailContract::release_payment(&mut env, admin(), [3u8; 32], b"r".to_vec()),
        Err(ContractError::PaymentNotFound)
    );
    assert_eq!(
        ComplyRailContract::reject_payment(&mut env, admin(), [3u8; 32], b"r".to_vec()),
        Err(ContractError::PaymentNotFound)
    );
}

#[test]
fn single_admin_cannot_release_escrow() {
    let mut env = Env::default();
    ComplyRailContract::initialize(&mut env, admin()).unwrap();
    for v in [from_vasp(), to_vasp()] {
        ComplyRailContract::register_vasp(&mut env, admin(), v, b"VASP".to_vec(), b"US".to_vec(), [7u8; 32])
            .unwrap();
    }
    ComplyRailContract::set_threshold(&mut env, admin(), asset(), b"US".to_vec(), THRESHOLD).unwrap();
    let id = pending_payment(&mut env);
    ComplyRailContract::release_payment(&mut env, admin(), id, b"ok".to_vec()).unwrap();
    assert_eq!(ComplyRailContract::get_payment(&env, id).unwrap().status, PaymentStatus::Pending);
    assert_eq!(
        ComplyRailContract::release_payment(&mut env, admin(), id, b"ok".to_vec()),
        Err(ContractError::AlreadyApproved)
    );
    // The beneficiary VASP's attestation still releases it.
    ComplyRailContract::submit_attestation(&mut env, to_vasp(), id, [9u8; 32], b"v".to_vec()).unwrap();
    assert_eq!(ComplyRailContract::get_payment(&env, id).unwrap().status, PaymentStatus::Released);
}

#[test]
fn every_change_publishes_one_event() {
    let mut env = Env::default();
    ComplyRailContract::initialize(&mut env, admin()).unwrap();
    ComplyRailContract::set_admin(&mut env, admin(), second_admin()).unwrap();
    ComplyRailContract::register_vasp(&mut env, admin(), from_vasp(), b"n".to_vec(), b"US".to_vec(), [0u8; 32]).unwrap();
    ComplyRailContract::register_vasp(&mut env, admin(), to_vasp(), b"n".to_vec(), b"US".to_vec(), [0u8; 32]).unwrap();
    ComplyRailContract::set_threshold(&mut env, admin(), asset(), b"US".to_vec(), THRESHOLD).unwrap();
    let id = pending_payment(&mut env);
    ComplyRailContract::release_payment(&mut env, admin(), id, b"ok".to_vec()).unwrap();
    ComplyRailContract::release_payment(&mut env, second_admin(), id, b"ok".to_vec()).unwrap();
    let _ = ComplyRailContract::release_payment(&mut env, admin(), id, b"twice".to_vec());
    let events = env.events();
    assert_eq!(events.len(), 8);
    assert!(matches!(&events[0], Event::AdminAdded { admin: a } if *a == admin()));
    assert!(matches!(&events[2], Event::VaspRegistered { vasp } if *vasp == from_vasp()));
    assert!(matches!(&events[4], Event::ThresholdSet { asset: a } if *a == asset()));
    assert!(matches!(&events[5], Event::PaymentSubmitted { payment_id } if *payment_id == id));
    assert!(matches!(&events[6], Event::ReleaseApproved { payment_id, admin: a, reason } if *payment_id == id && *a == admin() && reason == b"ok"));
    assert!(matches!(&events[7], Event::PaymentReleased { payment_id, reason } if *payment_id == id && reason == b"ok"));
}

#[test]
fn threshold_read_back_and_independent() {
    let mut env = setup();
    assert_eq!(ComplyRailContract::get_threshold(&env, asset(), b"US".to_vec()), Some(THRESHOLD));
    assert_eq!(ComplyRailContract::get_threshold(&env, asset(), b"DE".to_vec()), None);
    ComplyRailContract::set_threshold(&mut env, admin(), asset(), b"DE".to_vec(), 7).unwrap();
    ComplyRailContract::set_threshold(&mut env, admin(), asset(), b"US".to_vec(), 9).unwrap();
    assert_eq!(ComplyRailContract::get_threshold(&env, asset(), b"DE".to_vec()), Some(7));
    assert_eq!(ComplyRailContract::get_threshold(&env, asset(), b"US".to_vec()), Some(9));
    assert_eq!(ComplyRailContract::get_threshold(&env, address("COTHER"), b"US".to_vec()), None);
}

#[test]
fn threshold_key_joins_asset_and_jurisdiction() {
    let asset = address("CABC");
    let mut expected = asset.as_bytes().to_vec();
    expected.extend_from_slice(b":US");
    assert_eq!(format_threshold_key(&asset, &b"US".to_vec()), expected);
    assert_ne!(
        format_threshold_key(&address("CAB"), &b"US".to_vec()),
        format_threshold_key(&address("CABB"), &b"US".to_vec())
    );
}

#[test]
fn jurisdiction_must_be_an_iso_code() {
    let mut env = setup();
    for bad in [&b"USA"[..], b"", b"us", b"U1", b"us-1", b"JJ", b"EU", b"XK", b"ZZ"] {
        assert_eq!(
            ComplyRailContract::register_vasp(&mut env, admin(), address("GNEW"), b"n".to_vec(), bad.to_vec(), [0u8; 32]),
            Err(ContractError::InvalidJurisdiction)
        );
        assert_eq!(
            ComplyRailContract::set_threshold(&mut env, admin(), asset(), bad.to_vec(), 1),
            Err(ContractError::InvalidJurisdiction)
        );
    }
    assert!(ComplyRailContract::get_vasp(&env, address("GNEW")).is_none());
    assert_eq!(env.events().len(), 5);
    for good in [&b"SG"[..], b"US", b"GB", b"DE", b"AX", b"ZW", b"SS", b"BQ"] {
        assert_eq!(check_jurisdiction(&good.to_vec()), Ok(()));
    }
}

#[test]
fn addresses_must_be_strkeys() {
    assert!(Address::new(b"GA".to_vec()).is_none());
    let mut lower = vec![b'G'];
    lower.resize(56, b'a');
    assert!(Address::new(lower).is_none());
    let mut wrong_kind = vec![b'X'];
    wrong_kind.resize(56, b'A');
    assert!(Address::new(wrong_kind).is_none());
    let mut good = b"C".to_vec();
    good.resize(56, b'7');
    assert_eq!(Address::new(good.clone()).unwrap().as_bytes(), &good[..]);
}

#[test]
fn payment_status_rule() {
    assert_eq!(payment_status_for(5, None), PaymentStatus::Released);
    assert_eq!(payment_status_for(4, Some(5)), PaymentStatus::Released);
    assert_eq!(payment_status_for(5, Some(5)), PaymentStatus::Pending);
    assert_eq!(payment_status_for(-1, Some(0)), PaymentStatus::Released);
}

#[test]
fn registered_vasp_reads_back() {
    let mut env = Env::default();
    env.set_timestamp(1234);
    ComplyRailContract::initialize(&mut env, admin()).unwrap();
    ComplyRailContract::register_vasp(&mut env, admin(), to_vasp(), b"Anchor B".to_vec(), b"SG".to_vec(), [3u8; 32]).unwrap();
    let e = ComplyRailContract::get_vasp(&env, to_vasp()).unwrap();
    assert_eq!(e.address, to_vasp());
    assert_eq!(e.name, b"Anchor B".to_vec());
    assert_eq!(e.jurisdiction, b"SG".to_vec());
    assert_eq!(e.public_key, [3u8; 32]);
    assert_eq!(e.status, VaspStatus::Active);
    assert_eq!(e.added_at, 1234);
    assert_eq!(env.timestamp(), 1234);
}

#[test]
fn admins_are_added_by_admins() {
    let mut env = Env::default();
    ComplyRailContract::initialize(&mut env, admin()).unwrap();
    assert_eq!(
        ComplyRailContract::initialize(&mut env, address("GNEWADMIN")),
        Err(ContractError::AlreadyInitialized)
    );
    assert_eq!(
        ComplyRailContract::set_admin(&mut env, address("GNEWADMIN"), address("GNEWADMIN")),
        Err(ContractError::Unauthorized)
    );
    ComplyRailContract::set_admin(&mut env, admin(), address("GNEWADMIN")).unwrap();
    ComplyRailContract::set_admin(&mut env, address("GNEWADMIN"), admin()).unwrap();
    assert_eq!(env.admins(), vec![admin(), address("GNEWADMIN")]);
    assert_eq!(env.events().len(), 3);
    ComplyRailContract::set_threshold(&mut env, admin(), asset(), b"US".to_vec(), 1).unwrap();
    ComplyRailContract::set_threshold(&mut env, address("GNEWADMIN"), asset(), b"GB".to_vec(), 2).unwrap();
    assert_eq!(ComplyRailContract::get_threshold(&env, asset(), b"GB".to_vec()), Some(2));
}

#[test]
fn steps_give_the_writes_of_each_call() {
    let admins = vec![admin(), second_admin()];
    let (key, amount, _) = set_threshold_step(&admins, &admin(), asset(), &b"US".to_vec(), 5).unwrap();
    assert_eq!(key, format_threshold_key(&asset(), &b"US".to_vec()));
    assert_eq!(amount, 5);
    let env = setup();
    let from = ComplyRailContract::get_vasp(&env, from_vasp()).unwrap();
    let to = ComplyRailContract::get_vasp(&env, to_vasp()).unwrap();
    assert_eq!(payment_threshold_key(Some(&from), Some(&to), &asset()).unwrap(), key);
    assert_eq!(payment_threshold_key(None, Some(&to), &asset()), Err(ContractError::FromVaspNotRegistered));
    let (record, next, _) = submit_payment_step(
        Some(&from), Some(&to), 7, Some(5), from_vasp(), to_vasp(), beneficiary(), asset(), 5, 3,
    )
    .unwrap();
    assert_eq!(next, 8);
    assert_eq!(record.id, payment_id_for(7));
    assert_eq!(record.status, PaymentStatus::Pending);
    let (written, approvals, event) =
        release_payment_step(&admins, Some(&record), &Approvals::new(), &admin(), record.id, b"r".to_vec(), 4)
            .unwrap();
    assert!(written.is_none());
    assert_eq!(approvals.release, vec![admin()]);
    assert!(matches!(event, Event::ReleaseApproved { .. }));
    let (written, approvals, _) =
        release_payment_step(&admins, Some(&record), &approvals, &second_admin(), record.id, b"r".to_vec(), 4)
            .unwrap();
    let released = written.unwrap();
    assert_eq!(released.status, PaymentStatus::Released);
    assert_eq!(released.resolved_at, Some(4));
    assert!(approvals.release.is_empty());
}
