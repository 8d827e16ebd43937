//! One step per entry point of the contract: from the values that the call
//! reads out of storage, the values that it writes back and the event that
//! it publishes, or its refusal. The deployed contract reads, calls the
//! step and writes; the model `ComplyRailContract` over `Env` does the same.

use vstd::prelude::*;

use crate::rules::{
    add_admin, admin_error, approval_error, approve, approved, attest,
    attestation_error, attested, check_admin, check_jurisdiction, check_payment_parties,
    format_threshold_key, generate_payment_id, jurisdiction_from_vasp, iso_country_code, is_approved, new_payment_record,
    new_vasp_entry, opt_entry_view, payment_id_seq, payment_parties_error, registered_entry,
    reject, reject_error, release, release_error, resolved, submitted_record, threshold_key,
    with_admin, with_status,
};
use crate::types::{
    addresses_view, copy_addresses, no_approvals, Address, Approvals, ApprovalsView, Bytes32,
    ContractError, Event, EventView, PaymentRecord, PaymentRecordView, PaymentStatus, VaspEntry,
    VaspEntryView, VaspStatus,
};

verus! {

/// The view of an optional borrowed payment record.
pub open spec fn opt_payment_view(p: Option<&PaymentRecord>) -> Option<PaymentRecordView> {
    match p {
        Some(x) => Some(x@),
        None => None,
    }
}

/// The view of an optional payment record.
pub open spec fn opt_record_view(p: Option<PaymentRecord>) -> Option<PaymentRecordView> {
    match p {
        Some(x) => Some(x@),
        None => None,
    }
}

// ---------------------------------------------------------------- admins

/// The first admin: the admins become `[admin]`, unless there are admins
/// already.
pub open spec fn initialize_outcome(admins: Seq<Seq<u8>>, admin: Seq<u8>) -> Result<
    (Seq<Seq<u8>>, EventView),
    ContractError,
> {
    if admins.len() != 0 {
        Err(ContractError::AlreadyInitialized)
    } else {
        Ok((seq![admin], EventView::AdminAdded { admin }))
    }
}

/// The admins after `caller` adds `admin`, on an admin's call.
pub open spec fn set_admin_outcome(admins: Seq<Seq<u8>>, caller: Seq<u8>, admin: Seq<u8>) -> Result<
    (Seq<Seq<u8>>, EventView),
    ContractError,
> {
    match admin_error(admins, caller, ContractError::Unauthorized) {
        Some(e) => Err(e),
        None => Ok((with_admin(admins, admin), EventView::AdminAdded { admin })),
    }
}

/// The admins once `admin` is the first admin, with the event.
pub fn initialize_step(admins: &Vec<Address>, admin: Address) -> (r: Result<(Vec<Address>, Event), ContractError>)
    ensures
        match (r, initialize_outcome(addresses_view(admins@), admin@)) {
            (Ok((a, e)), Ok((a2, e2))) => addresses_view(a@) == a2 && e@ == e2,
            (Err(x), Err(y)) => x == y,
            _ => false,
        },
{
    if admins.len() != 0 {
        return Err(ContractError::AlreadyInitialized);
    }
    let event = Event::AdminAdded { admin: admin.duplicate() };
    let mut r: Vec<Address> = Vec::new();
    r.push(admin);
    assert(addresses_view(r@) =~= seq![event@->AdminAdded_admin]);
    Ok((r, event))
}

/// The admins once `caller` adds `admin`, with the event.
pub fn set_admin_step(admins: &Vec<Address>, caller: &Address, admin: Address) -> (r: Result<
    (Vec<Address>, Event),
    ContractError,
>)
    ensures
        match (r, set_admin_outcome(addresses_view(admins@), caller@, admin@)) {
            (Ok((a, e)), Ok((a2, e2))) => addresses_view(a@) == a2 && e@ == e2,
            (Err(x), Err(y)) => x == y,
            _ => false,
        },
{
    check_admin(admins, caller, ContractError::Unauthorized)?;
    let event = Event::AdminAdded { admin: admin.duplicate() };
    let mut r = copy_addresses(admins);
    add_admin(&mut r, admin);
    Ok((r, event))
}

// -------------------------------------------------------------- registry

/// The entry stored under `vasp` when `caller` registers it at `now`.
pub open spec fn register_vasp_outcome(
    admins: Seq<Seq<u8>>,
    caller: Seq<u8>,
    vasp: Seq<u8>,
    name: Seq<u8>,
    jurisdiction: Seq<u8>,
    public_key: Seq<u8>,
    now: u64,
) -> Result<(VaspEntryView, EventView), ContractError> {
    match admin_error(admins, caller, ContractError::Unauthorized) {
        Some(e) => Err(e),
        None => if !iso_country_code(jurisdiction) {
            Err(ContractError::InvalidJurisdiction)
        } else {
            Ok(
                (
                    registered_entry(vasp, name, jurisdiction, public_key, now),
                    EventView::VaspRegistered { vasp },
                ),
            )
        },
    }
}

/// The entry to store under `vasp` when `caller` registers it at `now`,
/// with the event.
pub fn register_vasp_step(
    admins: &Vec<Address>,
    caller: &Address,
    vasp: Address,
    name: Vec<u8>,
    jurisdiction: Vec<u8>,
    public_key: Bytes32,
    now: u64,
) -> (r: Result<(VaspEntry, Event), ContractError>)
    ensures
        match (
            r,
            register_vasp_outcome(
                addresses_view(admins@),
                caller@,
                vasp@,
                name@,
                jurisdiction@,
                public_key@,
                now,
            ),
        ) {
            (Ok((v, e)), Ok((v2, e2))) => v@ == v2 && e@ == e2,
            (Err(x), Err(y)) => x == y,
            _ => false,
        },
{
    check_admin(admins, caller, ContractError::Unauthorized)?;
    check_jurisdiction(&jurisdiction)?;
    let entry = new_vasp_entry(vasp.duplicate(), name, jurisdiction, public_key, now);
    Ok((entry, Event::VaspRegistered { vasp }))
}

/// The entry stored under `vasp` when `caller` sets its status; `entry` is
/// what the registry holds for `vasp`.
pub open spec fn update_vasp_status_outcome(
    admins: Seq<Seq<u8>>,
    caller: Seq<u8>,
    entry: Option<VaspEntryView>,
    vasp: Seq<u8>,
    status: VaspStatus,
) -> Result<(VaspEntryView, EventView), ContractError> {
    match admin_error(admins, caller, ContractError::Unauthorized) {
        Some(e) => Err(e),
        None => match entry {
            None => Err(ContractError::VaspNotFound),
            Some(e) => Ok((VaspEntryView { status, ..e }, EventView::VaspUpdated { vasp })),
        },
    }
}

/// The entry to store under `vasp` when `caller` sets its status, with the
/// event; `entry` is what the registry holds for `vasp`.
pub fn update_vasp_status_step(
    admins: &Vec<Address>,
    caller: &Address,
    entry: Option<&VaspEntry>,
    vasp: Address,
    status: VaspStatus,
) -> (r: Result<(VaspEntry, Event), ContractError>)
    ensures
        match (
            r,
            update_vasp_status_outcome(
                addresses_view(admins@),
                caller@,
                opt_entry_view(entry),
                vasp@,
                status,
            ),
        ) {
            (Ok((v, e)), Ok((v2, e2))) => v@ == v2 && e@ == e2,
            (Err(x), Err(y)) => x == y,
            _ => false,
        },
{
    check_admin(admins, caller, ContractError::Unauthorized)?;
    match entry {
        None => Err(ContractError::VaspNotFound),
        Some(e) => Ok((with_status(e, status), Event::VaspUpdated { vasp })),
    }
}

// ------------------------------------------------------------ thresholds

/// The threshold key and amount stored when `caller` sets the threshold
/// for `asset` in `jurisdiction` to `amount`.
pub open spec fn set_threshold_outcome(
    admins: Seq<Seq<u8>>,
    caller: Seq<u8>,
    asset: Seq<u8>,
    jurisdiction: Seq<u8>,
    amount: i128,
) -> Result<(Seq<u8>, i128, EventView), ContractError> {
    match admin_error(admins, caller, ContractError::Unauthorized) {
        Some(e) => Err(e),
        None => if !iso_country_code(jurisdiction) {
            Err(ContractError::InvalidJurisdiction)
        } else {
            Ok((threshold_key(asset, jurisdiction), amount, EventView::ThresholdSet { asset }))
        },
    }
}

/// The threshold key and amount to store when `caller` sets the threshold
/// for `asset` in `jurisdiction` to `amount`, with the event.
pub fn set_threshold_step(
    admins: &Vec<Address>,
    caller: &Address,
    asset: Address,
    jurisdiction: &Vec<u8>,
    amount: i128,
) -> (r: Result<(Vec<u8>, i128, Event), ContractError>)
    ensures
        match (
            r,
            set_threshold_outcome(addresses_view(admins@), caller@, asset@, jurisdiction@, amount),
        ) {
            (Ok((k, a, e)), Ok((k2, a2, e2))) => k@ == k2 && a == a2 && e@ == e2,
            (Err(x), Err(y)) => x == y,
            _ => false,
        },
{
    check_admin(admins, caller, ContractError::Unauthorized)?;
    check_jurisdiction(jurisdiction)?;
    let key = format_threshold_key(&asset, jurisdiction);
    Ok((key, amount, Event::ThresholdSet { asset }))
}

// -------------------------------------------------------------- payments

/// The threshold key that a payment of `asset` from the VASP entry `from`
/// to the VASP entry `to` reads: that of the beneficiary VASP's
/// jurisdiction.
pub open spec fn payment_threshold_key_outcome(
    from: Option<VaspEntryView>,
    to: Option<VaspEntryView>,
    asset: Seq<u8>,
) -> Result<Seq<u8>, ContractError> {
    match payment_parties_error(from, to) {
        Some(e) => Err(e),
        None => Ok(threshold_key(asset, to->Some_0.jurisdiction)),
    }
}

/// The threshold key that a payment of `asset` from the VASP entry `from`
/// to the VASP entry `to` reads, or the payment's refusal.
pub fn payment_threshold_key(from: Option<&VaspEntry>, to: Option<&VaspEntry>, asset: &Address) -> (r:
    Result<Vec<u8>, ContractError>)
    ensures
        match (r, payment_threshold_key_outcome(opt_entry_view(from), opt_entry_view(to), asset@)) {
            (Ok(k), Ok(k2)) => k@ == k2,
            (Err(x), Err(y)) => x == y,
            _ => false,
        },
{
    check_payment_parties(from, to)?;
    match to {
        Some(t) => Ok(format_threshold_key(asset, &jurisdiction_from_vasp(t))),
        None => Err(ContractError::ToVaspNotRegistered),
    }
}

/// The record stored, and the counter after it, when a payment is
/// submitted at `now`; `from` and `to` are what the registry holds for the
/// two VASPs, `counter` the payment counter, and `threshold` what is stored
/// under the payment's threshold key.
pub open spec fn submit_payment_outcome(
    from: Option<VaspEntryView>,
    to: Option<VaspEntryView>,
    counter: u64,
    threshold: Option<i128>,
    from_vasp: Seq<u8>,
    to_vasp: Seq<u8>,
    beneficiary: Seq<u8>,
    asset: Seq<u8>,
    amount: i128,
    now: u64,
) -> Result<(PaymentRecordView, u64, EventView), ContractError> {
    match payment_parties_error(from, to) {
        Some(e) => Err(e),
        None => if counter == u64::MAX {
            Err(ContractError::CounterOverflow)
        } else {
            let id = payment_id_seq(counter);
            Ok(
                (
                    submitted_record(
                        id,
                        from_vasp,
                        to_vasp,
                        beneficiary,
                        asset,
                        amount,
                        threshold,
                        now,
                    ),
                    (counter + 1) as u64,
                    EventView::PaymentSubmitted { payment_id: id },
                ),
            )
        },
    }
}

/// The record to store under its id, and the counter to store, when a
/// payment is submitted at `now`, with the event.
pub fn submit_payment_step(
    from: Option<&VaspEntry>,
    to: Option<&VaspEntry>,
    counter: u64,
    threshold: Option<i128>,
    from_vasp: Address,
    to_vasp: Address,
    beneficiary: Address,
    asset: Address,
    amount: i128,
    now: u64,
) -> (r: Result<(PaymentRecord, u64, Event), ContractError>)
    ensures
        match (
            r,
            submit_payment_outcome(
                opt_entry_view(from),
                opt_entry_view(to),
                counter,
                threshold,
                from_vasp@,
                to_vasp@,
                beneficiary@,
                asset@,
                amount,
                now,
            ),
        ) {
            (Ok((p, c, e)), Ok((p2, c2, e2))) => p@ == p2 && c == c2 && e@ == e2,
            (Err(x), Err(y)) => x == y,
            _ => false,
        },
{
    check_payment_parties(from, to)?;
    let (id, next) = generate_payment_id(counter)?;
    let record = new_payment_record(
        id,
        from_vasp,
        to_vasp,
        beneficiary,
        asset,
        amount,
        threshold,
        now,
    );
    Ok((record, next, Event::PaymentSubmitted { payment_id: id }))
}

/// The record stored under `payment_id` when `caller` attests it at `now`;
/// `payment` is what is stored under `payment_id`, `to` and `from` what the
/// registry holds for its beneficiary and sending VASPs.
pub open spec fn submit_attestation_outcome(
    payment: Option<PaymentRecordView>,
    to: Option<VaspEntryView>,
    from: Option<VaspEntryView>,
    caller: Seq<u8>,
    payment_id: Seq<u8>,
    hash: Seq<u8>,
    ivms: Seq<u8>,
    now: u64,
) -> Result<(PaymentRecordView, EventView), ContractError> {
    match payment {
        None => Err(ContractError::PaymentNotFound),
        Some(p) => match attestation_error(p, to, from, caller, hash) {
            Some(e) => Err(e),
            None => Ok((attested(p, hash, ivms, now), EventView::AttestationSubmitted { payment_id })),
        },
    }
}

/// The record to store under `payment_id` when `caller` attests it at
/// `now`, with the event.
pub fn submit_attestation_step(
    payment: Option<&PaymentRecord>,
    to: Option<&VaspEntry>,
    from: Option<&VaspEntry>,
    caller: &Address,
    payment_id: Bytes32,
    message_hash: Bytes32,
    ivms_version: Vec<u8>,
    now: u64,
) -> (r: Result<(PaymentRecord, Event), ContractError>)
    ensures
        match (
            r,
            submit_attestation_outcome(
                opt_payment_view(payment),
                opt_entry_view(to),
                opt_entry_view(from),
                caller@,
                payment_id@,
                message_hash@,
                ivms_version@,
                now,
            ),
        ) {
            (Ok((p, e)), Ok((p2, e2))) => p@ == p2 && e@ == e2,
            (Err(x), Err(y)) => x == y,
            _ => false,
        },
{
    let p = match payment {
        None => {
            return Err(ContractError::PaymentNotFound);
        },
        Some(p) => p,
    };
    let updated = attest(p, to, from, caller, message_hash, ivms_version, now)?;
    Ok((updated, Event::AttestationSubmitted { payment_id }))
}

/// What is stored when `caller` approves releasing payment `payment_id` at
/// `now`: the payment's new record once the approvals are complete, the
/// payment's approvals, and the event. `payment` is what is stored under
/// `payment_id`, `approvals` the approvals stored for it.
pub open spec fn release_payment_outcome(
    admins: Seq<Seq<u8>>,
    payment: Option<PaymentRecordView>,
    approvals: ApprovalsView,
    caller: Seq<u8>,
    payment_id: Seq<u8>,
    reason: Seq<u8>,
    now: u64,
) -> Result<(Option<PaymentRecordView>, ApprovalsView, EventView), ContractError> {
    match admin_error(admins, caller, ContractError::OnlyAdminCanRelease) {
        Some(e) => Err(e),
        None => match payment {
            None => Err(ContractError::PaymentNotFound),
            Some(p) => match release_error(p) {
                Some(e) => Err(e),
                None => match approval_error(approvals.release, caller) {
                    Some(e) => Err(e),
                    None => {
                        let approvers = approvals.release.push(caller);
                        if approved(approvers) {
                            Ok(
                                (
                                    Some(resolved(p, PaymentStatus::Released, now)),
                                    no_approvals(),
                                    EventView::PaymentReleased { payment_id, reason },
                                ),
                            )
                        } else {
                            Ok(
                                (
                                    None,
                                    ApprovalsView { release: approvers, ..approvals },
                                    EventView::ReleaseApproved { payment_id, admin: caller, reason },
                                ),
                            )
                        }
                    },
                },
            },
        },
    }
}

/// What to store when `caller` approves releasing payment `payment_id` at
/// `now`, with the event.
pub fn release_payment_step(
    admins: &Vec<Address>,
    payment: Option<&PaymentRecord>,
    approvals: &Approvals,
    caller: &Address,
    payment_id: Bytes32,
    reason: Vec<u8>,
    now: u64,
) -> (r: Result<(Option<PaymentRecord>, Approvals, Event), ContractError>)
    ensures
        match (
            r,
            release_payment_outcome(
                addresses_view(admins@),
                opt_payment_view(payment),
                approvals@,
                caller@,
                payment_id@,
                reason@,
                now,
            ),
        ) {
            (Ok((p, a, e)), Ok((p2, a2, e2))) => opt_record_view(p) == p2 && a@ == a2 && e@ == e2,
            (Err(x), Err(y)) => x == y,
            _ => false,
        },
{
    check_admin(admins, caller, ContractError::OnlyAdminCanRelease)?;
    let p = match payment {
        None => {
            return Err(ContractError::PaymentNotFound);
        },
        Some(p) => p,
    };
    let updated = release(p, now)?;
    let approvers = approve(&approvals.release, caller)?;
    if is_approved(&approvers) {
        Ok((Some(updated), Approvals::new(), Event::PaymentReleased { payment_id, reason }))
    } else {
        let kept = Approvals { release: approvers, reject: copy_addresses(&approvals.reject) };
        Ok((None, kept, Event::ReleaseApproved { payment_id, admin: caller.duplicate(), reason }))
    }
}

/// What is stored when `caller` approves rejecting payment `payment_id` at
/// `now`: the payment's new record once the approvals are complete, the
/// payment's approvals, and the event.
pub open spec fn reject_payment_outcome(
    admins: Seq<Seq<u8>>,
    payment: Option<PaymentRecordView>,
    approvals: ApprovalsView,
    caller: Seq<u8>,
    payment_id: Seq<u8>,
    reason: Seq<u8>,
    now: u64,
) -> Result<(Option<PaymentRecordView>, ApprovalsView, EventView), ContractError> {
    match admin_error(admins, caller, ContractError::OnlyAdminCanReject) {
        Some(e) => Err(e),
        None => match payment {
            None => Err(ContractError::PaymentNotFound),
            Some(p) => match reject_error(p) {
                Some(e) => Err(e),
                None => match approval_error(approvals.reject, caller) {
                    Some(e) => Err(e),
                    None => {
                        let approvers = approvals.reject.push(caller);
                        if approved(approvers) {
                            Ok(
                                (
                                    Some(resolved(p, PaymentStatus::Rejected, now)),
                                    no_approvals(),
                                    EventView::PaymentRejected { payment_id, reason },
                                ),
                            )
                        } else {
                            Ok(
                                (
                                    None,
                                    ApprovalsView { reject: approvers, ..approvals },
                                    EventView::RejectApproved { payment_id, admin: caller, reason },
                                ),
                            )
                        }
                    },
                },
            },
        },
    }
}

/// What to store when `caller` approves rejecting payment `payment_id` at
/// `now`, with the event.
pub fn reject_payment_step(
    admins: &Vec<Address>,
    payment: Option<&PaymentRecord>,
    approvals: &Approvals,
    caller: &Address,
    payment_id: Bytes32,
    reason: Vec<u8>,
    now: u64,
) -> (r: Result<(Option<PaymentRecord>, Approvals, Event), ContractError>)
    ensures
        match (
            r,
            reject_payment_outcome(
                addresses_view(admins@),
                opt_payment_view(payment),
                approvals@,
                caller@,
                payment_id@,
                reason@,
                now,
            ),
        ) {
            (Ok((p, a, e)), Ok((p2, a2, e2))) => opt_record_view(p) == p2 && a@ == a2 && e@ == e2,
            (Err(x), Err(y)) => x == y,
            _ => false,
        },
{
    check_admin(admins, caller, ContractError::OnlyAdminCanReject)?;
    let p = match payment {
        None => {
            return Err(ContractError::PaymentNotFound);
        },
        Some(p) => p,
    };
    let updated = reject(p, now)?;
    let approvers = approve(&approvals.reject, caller)?;
    if is_approved(&approvers) {
        Ok((Some(updated), Approvals::new(), Event::PaymentRejected { payment_id, reason }))
    } else {
        let kept = Approvals { release: copy_addresses(&approvals.release), reject: approvers };
        Ok((None, kept, Event::RejectApproved { payment_id, admin: caller.duplicate(), reason }))
    }
}

} // verus!
