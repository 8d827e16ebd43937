//! What holds of the contract across its calls.

use vstd::prelude::*;

use crate::bytes::all_zero;
use crate::contract::{
    lemma_approvals_sound_more_admins, lemma_decision_keeps_sound, lemma_ids_issued_after_update,
    lemma_push_keeps, lemma_with_admin_keeps_admins, EnvView,
};
use crate::steps::{reject_payment_outcome, release_payment_outcome};
use crate::rules::{
    iso_country_code, lemma_payment_id_injective, payment_id_seq, threshold_key, with_admin,
    KEY_SEPARATOR, REQUIRED_APPROVALS,
};
use crate::types::{
    is_base32_char, strkey_shaped, ContractError, EventView, PaymentStatus, VaspEntryView,
    VaspStatus,
};

verus! {

/// One call of the contract, with its arguments.
pub enum Call {
    Initialize { admin: Seq<u8> },
    SetAdmin { caller: Seq<u8>, admin: Seq<u8> },
    RegisterVasp {
        caller: Seq<u8>,
        vasp: Seq<u8>,
        name: Seq<u8>,
        jurisdiction: Seq<u8>,
        public_key: Seq<u8>,
    },
    UpdateVaspStatus { caller: Seq<u8>, vasp: Seq<u8>, status: VaspStatus },
    SetThreshold { caller: Seq<u8>, asset: Seq<u8>, jurisdiction: Seq<u8>, amount: i128 },
    SubmitPayment {
        from_vasp: Seq<u8>,
        to_vasp: Seq<u8>,
        beneficiary: Seq<u8>,
        asset: Seq<u8>,
        amount: i128,
    },
    SubmitAttestation { caller: Seq<u8>, payment_id: Seq<u8>, hash: Seq<u8>, ivms: Seq<u8> },
    ReleasePayment { caller: Seq<u8>, payment_id: Seq<u8>, reason: Seq<u8> },
    RejectPayment { caller: Seq<u8>, payment_id: Seq<u8>, reason: Seq<u8> },
}

/// The state after `call` in state `s`, or the refusal.
pub open spec fn step(s: EnvView, call: Call) -> Result<EnvView, ContractError> {
    match call {
        Call::Initialize { admin } => s.initialize(admin),
        Call::SetAdmin { caller, admin } => s.set_admin(caller, admin),
        Call::RegisterVasp { caller, vasp, name, jurisdiction, public_key } => s.register_vasp(
            caller,
            vasp,
            name,
            jurisdiction,
            public_key,
        ),
        Call::UpdateVaspStatus { caller, vasp, status } => s.update_vasp_status(
            caller,
            vasp,
            status,
        ),
        Call::SetThreshold { caller, asset, jurisdiction, amount } => s.set_threshold(
            caller,
            asset,
            jurisdiction,
            amount,
        ),
        Call::SubmitPayment { from_vasp, to_vasp, beneficiary, asset, amount } => match s.submit_payment(
            from_vasp,
            to_vasp,
            beneficiary,
            asset,
            amount,
        ) {
            Ok((s2, _id)) => Ok(s2),
            Err(e) => Err(e),
        },
        Call::SubmitAttestation { caller, payment_id, hash, ivms } => s.submit_attestation(
            caller,
            payment_id,
            hash,
            ivms,
        ),
        Call::ReleasePayment { caller, payment_id, reason } => s.release_payment(
            caller,
            payment_id,
            reason,
        ),
        Call::RejectPayment { caller, payment_id, reason } => s.reject_payment(
            caller,
            payment_id,
            reason,
        ),
    }
}

/// Whether `call` may only be made by an admin; its caller then.
pub open spec fn admin_caller(call: Call) -> Option<Seq<u8>> {
    match call {
        Call::SetAdmin { caller, .. } => Some(caller),
        Call::RegisterVasp { caller, .. } => Some(caller),
        Call::UpdateVaspStatus { caller, .. } => Some(caller),
        Call::SetThreshold { caller, .. } => Some(caller),
        Call::ReleasePayment { caller, .. } => Some(caller),
        Call::RejectPayment { caller, .. } => Some(caller),
        _ => None,
    }
}

/// After a threshold is set, reading it back gives the amount that was set.
pub proof fn lemma_threshold_read_after_write(
    s: EnvView,
    caller: Seq<u8>,
    asset: Seq<u8>,
    jurisdiction: Seq<u8>,
    amount: i128,
)
    requires
        s.set_threshold(caller, asset, jurisdiction, amount) is Ok,
    ensures
        s.set_threshold(caller, asset, jurisdiction, amount)->Ok_0.get_threshold(
            asset,
            jurisdiction,
        ) == Some(amount),
{
}

/// No strkey holds the separator `:`.
pub proof fn lemma_strkey_has_no_separator(a: Seq<u8>)
    requires
        strkey_shaped(a),
    ensures
        !a.contains(KEY_SEPARATOR),
{
    if a.contains(KEY_SEPARATOR) {
        let i = choose|i: int| 0 <= i < a.len() && a[i] == KEY_SEPARATOR;
        assert(is_base32_char(a[i]));
    }
}

/// Threshold keys of addresses are distinct for distinct (asset,
/// jurisdiction) pairs: a key splits back into its asset and jurisdiction.
pub proof fn lemma_threshold_key_injective(a1: Seq<u8>, j1: Seq<u8>, a2: Seq<u8>, j2: Seq<u8>)
    requires
        strkey_shaped(a1),
        strkey_shaped(a2),
    ensures
        threshold_key(a1, j1) == threshold_key(a2, j2) <==> (a1 == a2 && j1 == j2),
{
    if threshold_key(a1, j1) == threshold_key(a2, j2) {
        lemma_strkey_has_no_separator(a1);
        lemma_strkey_has_no_separator(a2);
        lemma_key_splits(a1, j1, a2, j2);
    }
}

/// A threshold key splits back into its asset and jurisdiction when
/// neither asset holds `:`.
proof fn lemma_key_splits(a1: Seq<u8>, j1: Seq<u8>, a2: Seq<u8>, j2: Seq<u8>)
    requires
        !a1.contains(KEY_SEPARATOR),
        !a2.contains(KEY_SEPARATOR),
        threshold_key(a1, j1) == threshold_key(a2, j2),
    ensures
        a1 == a2,
        j1 == j2,
{
    let k = threshold_key(a1, j1);
    if a1.len() < a2.len() {
        assert(k[a1.len() as int] == KEY_SEPARATOR);
        assert(threshold_key(a2, j2)[a1.len() as int] == a2[a1.len() as int]);
        assert(a2.contains(KEY_SEPARATOR));
    } else if a2.len() < a1.len() {
        assert(threshold_key(a2, j2)[a2.len() as int] == KEY_SEPARATOR);
        assert(k[a2.len() as int] == a1[a2.len() as int]);
        assert(a1.contains(KEY_SEPARATOR));
    } else {
        assert forall|i: int| 0 <= i < a1.len() implies a1[i] == a2[i] by {
            assert(k[i] == a1[i]);
            assert(threshold_key(a2, j2)[i] == a2[i]);
        }
        assert(a1 =~= a2);
        assert(k.len() == threshold_key(a2, j2).len());
        assert(j1.len() == j2.len());
        assert(j1 =~= k.subrange(a1.len() as int + 1, k.len() as int));
        assert(j2 =~= threshold_key(a2, j2).subrange(a2.len() as int + 1, k.len() as int));
    }
}

/// Setting the threshold of one asset in one jurisdiction leaves the
/// thresholds of every other asset and jurisdiction as they were.
pub proof fn lemma_threshold_independent(
    s: EnvView,
    caller: Seq<u8>,
    asset: Seq<u8>,
    jurisdiction: Seq<u8>,
    amount: i128,
    other_asset: Seq<u8>,
    other_jurisdiction: Seq<u8>,
)
    requires
        s.set_threshold(caller, asset, jurisdiction, amount) is Ok,
        strkey_shaped(asset),
        strkey_shaped(other_asset),
        asset != other_asset || jurisdiction != other_jurisdiction,
    ensures
        s.set_threshold(caller, asset, jurisdiction, amount)->Ok_0.get_threshold(
            other_asset,
            other_jurisdiction,
        ) == s.get_threshold(other_asset, other_jurisdiction),
{
    if threshold_key(asset, jurisdiction) == threshold_key(other_asset, other_jurisdiction) {
        lemma_threshold_key_injective(asset, jurisdiction, other_asset, other_jurisdiction);
    }
}

/// A VASP is registered only under a two-letter ISO country code, and
/// reads back as an active entry with the given details, added at the
/// current ledger time.
pub proof fn lemma_registered_vasp_is_active(
    s: EnvView,
    caller: Seq<u8>,
    vasp: Seq<u8>,
    name: Seq<u8>,
    jurisdiction: Seq<u8>,
    public_key: Seq<u8>,
)
    requires
        s.register_vasp(caller, vasp, name, jurisdiction, public_key) is Ok,
    ensures
        iso_country_code(jurisdiction),
        s.register_vasp(caller, vasp, name, jurisdiction, public_key)->Ok_0.get_vasp(vasp) == Some(
            VaspEntryView {
                address: vasp,
                name,
                jurisdiction,
                public_key,
                status: VaspStatus::Active,
                added_at: s.timestamp,
            },
        ),
{
}

/// A submitted payment is held pending exactly when a threshold is set for
/// its asset in the beneficiary VASP's jurisdiction and the amount is at or
/// above it; otherwise it is released at once, at the current ledger time.
pub proof fn lemma_threshold_gates_payment(
    s: EnvView,
    from_vasp: Seq<u8>,
    to_vasp: Seq<u8>,
    beneficiary: Seq<u8>,
    asset: Seq<u8>,
    amount: i128,
)
    requires
        s.submit_payment(from_vasp, to_vasp, beneficiary, asset, amount) is Ok,
    ensures
        ({
            let (s2, id) = s.submit_payment(from_vasp, to_vasp, beneficiary, asset, amount)->Ok_0;
            let t = s.get_threshold(asset, s.vasps[to_vasp].jurisdiction);
            &&& s2.get_payment(id) is Some
            &&& (s2.payments[id].status == PaymentStatus::Pending) <==> (t is Some && amount
                >= t->Some_0)
            &&& (s2.payments[id].status == PaymentStatus::Released) <==> !(t is Some && amount
                >= t->Some_0)
            &&& s2.payments[id].status == PaymentStatus::Released ==> s2.payments[id].resolved_at
                == Some(s.timestamp)
            &&& s2.payments[id].amount == amount
        }),
{
}

/// A payment can be submitted only between two registered, active VASPs.
pub proof fn lemma_payment_needs_active_vasps(
    s: EnvView,
    from_vasp: Seq<u8>,
    to_vasp: Seq<u8>,
    beneficiary: Seq<u8>,
    asset: Seq<u8>,
    amount: i128,
)
    requires
        s.submit_payment(from_vasp, to_vasp, beneficiary, asset, amount) is Ok,
    ensures
        s.vasps.contains_key(from_vasp),
        s.vasps.contains_key(to_vasp),
        s.vasps[from_vasp].status == VaspStatus::Active,
        s.vasps[to_vasp].status == VaspStatus::Active,
{
}

/// Each submitted payment gets an id that no stored payment has, and the
/// stored payments stay as they were.
pub proof fn lemma_payment_ids_fresh(
    s: EnvView,
    from_vasp: Seq<u8>,
    to_vasp: Seq<u8>,
    beneficiary: Seq<u8>,
    asset: Seq<u8>,
    amount: i128,
)
    requires
        s.ids_issued(),
        s.submit_payment(from_vasp, to_vasp, beneficiary, asset, amount) is Ok,
    ensures
        ({
            let (s2, id) = s.submit_payment(from_vasp, to_vasp, beneficiary, asset, amount)->Ok_0;
            &&& !s.payments.contains_key(id)
            &&& s2.counter == s.counter + 1
            &&& forall|k: Seq<u8>| #[trigger]
                s.payments.contains_key(k) ==> s2.payments.contains_key(k) && s2.payments[k]
                    == s.payments[k]
        }),
{
    let id = payment_id_seq(s.counter);
    if s.payments.contains_key(id) {
        let c = choose|c: u64| c < s.counter && #[trigger] payment_id_seq(c) == id;
        lemma_payment_id_injective(c, s.counter);
    }
}

/// A payment attestation succeeds only for a pending payment between two
/// active VASPs, from the payment's beneficiary VASP, with a message hash
/// that is not all zeros; it releases the payment and records the hash.
pub proof fn lemma_attestation_by_beneficiary(
    s: EnvView,
    caller: Seq<u8>,
    payment_id: Seq<u8>,
    hash: Seq<u8>,
    ivms: Seq<u8>,
)
    requires
        s.submit_attestation(caller, payment_id, hash, ivms) is Ok,
    ensures
        ({
            let s2 = s.submit_attestation(caller, payment_id, hash, ivms)->Ok_0;
            let p = s.payments[payment_id];
            &&& s.payments.contains_key(payment_id)
            &&& p.status == PaymentStatus::Pending
            &&& caller == p.to_vasp
            &&& !all_zero(hash)
            &&& s.vasps.contains_key(p.to_vasp) && s.vasps[p.to_vasp].status == VaspStatus::Active
            &&& s.vasps.contains_key(p.from_vasp) && s.vasps[p.from_vasp].status
                == VaspStatus::Active
            &&& s2.payments[payment_id].status == PaymentStatus::Released
            &&& s2.payments[payment_id].attestation_hash == Some(hash)
            &&& s2.payments[payment_id].ivms_version == Some(ivms)
        }),
{
}

/// Every admin-only call succeeds only when its caller is an admin.
pub proof fn lemma_admin_only(s: EnvView, call: Call)
    requires
        admin_caller(call) is Some,
        step(s, call) is Ok,
    ensures
        s.admins.contains(admin_caller(call)->Some_0),
{
}

/// A released payment is final: no call changes it.
pub proof fn lemma_released_is_final(s: EnvView, call: Call, payment_id: Seq<u8>)
    requires
        s.ids_issued(),
        s.payments.contains_key(payment_id),
        s.payments[payment_id].status == PaymentStatus::Released,
        step(s, call) is Ok,
    ensures
        step(s, call)->Ok_0.payments.contains_key(payment_id),
        step(s, call)->Ok_0.payments[payment_id] == s.payments[payment_id],
{
    if let Call::SubmitPayment { from_vasp, to_vasp, beneficiary, asset, amount } = call {
        lemma_payment_ids_fresh(s, from_vasp, to_vasp, beneficiary, asset, amount);
    }
}

/// A payment held pending in escrow is released only by an attestation
/// from its beneficiary VASP, or by the admins once `REQUIRED_APPROVALS`
/// distinct admins have approved its release.
pub proof fn lemma_escrow_released_by_beneficiary_or_admins(
    s: EnvView,
    call: Call,
    payment_id: Seq<u8>,
)
    requires
        s.sound(),
        s.payments.contains_key(payment_id),
        s.payments[payment_id].status == PaymentStatus::Pending,
        step(s, call) is Ok,
        step(s, call)->Ok_0.payments[payment_id].status == PaymentStatus::Released,
    ensures
        match call {
            Call::SubmitAttestation { caller, payment_id: p, .. } => p == payment_id && caller
                == s.payments[payment_id].to_vasp,
            Call::ReleasePayment { caller, payment_id: p, .. } => {
                let approvers = s.approvals_of(payment_id).release.push(caller);
                &&& p == payment_id
                &&& approvers.len() >= REQUIRED_APPROVALS
                &&& approvers.no_duplicates()
                &&& forall|i: int| 0 <= i < approvers.len() ==> s.admins.contains(#[trigger] approvers[i])
            },
            _ => false,
        },
{
    if let Call::SubmitPayment { from_vasp, to_vasp, beneficiary, asset, amount } = call {
        lemma_payment_ids_fresh(s, from_vasp, to_vasp, beneficiary, asset, amount);
    }
    if let Call::ReleasePayment { caller, payment_id: p, .. } = call {
        if p == payment_id {
            let a = s.approvals_of(payment_id);
            lemma_push_keeps(a.release, caller, s.admins);
        }
    }
}

/// An admin's approval of a release that does not complete the approvals
/// of `REQUIRED_APPROVALS` distinct admins changes no payment: it is
/// recorded, and the payment stays as it was.
pub proof fn lemma_release_needs_approvals(
    s: EnvView,
    caller: Seq<u8>,
    payment_id: Seq<u8>,
    reason: Seq<u8>,
)
    requires
        s.release_payment(caller, payment_id, reason) is Ok,
        s.approvals_of(payment_id).release.len() + 1 < REQUIRED_APPROVALS,
    ensures
        s.release_payment(caller, payment_id, reason)->Ok_0.payments == s.payments,
        s.release_payment(caller, payment_id, reason)->Ok_0.approvals_of(payment_id).release
            == s.approvals_of(payment_id).release.push(caller),
{
}

/// An admin's approval of a rejection that does not complete the
/// approvals of `REQUIRED_APPROVALS` distinct admins changes no payment:
/// it is recorded, and the payment stays as it was.
pub proof fn lemma_reject_needs_approvals(
    s: EnvView,
    caller: Seq<u8>,
    payment_id: Seq<u8>,
    reason: Seq<u8>,
)
    requires
        s.reject_payment(caller, payment_id, reason) is Ok,
        s.approvals_of(payment_id).reject.len() + 1 < REQUIRED_APPROVALS,
    ensures
        s.reject_payment(caller, payment_id, reason)->Ok_0.payments == s.payments,
        s.reject_payment(caller, payment_id, reason)->Ok_0.approvals_of(payment_id).reject
            == s.approvals_of(payment_id).reject.push(caller),
{
}

/// No call puts a payment that has left the pending state back into it,
/// and no call removes a payment or a registered VASP.
pub proof fn lemma_no_return_to_pending(s: EnvView, call: Call, payment_id: Seq<u8>, vasp: Seq<u8>)
    requires
        s.ids_issued(),
        step(s, call) is Ok,
    ensures
        s.payments.contains_key(payment_id) ==> step(s, call)->Ok_0.payments.contains_key(
            payment_id,
        ),
        s.payments.contains_key(payment_id) && s.payments[payment_id].status
            != PaymentStatus::Pending ==> step(s, call)->Ok_0.payments[payment_id].status
            != PaymentStatus::Pending,
        s.vasps.contains_key(vasp) ==> step(s, call)->Ok_0.vasps.contains_key(vasp),
{
    if let Call::SubmitPayment { from_vasp, to_vasp, beneficiary, asset, amount } = call {
        lemma_payment_ids_fresh(s, from_vasp, to_vasp, beneficiary, asset, amount);
    }
}

/// Every call that succeeds publishes exactly one event after those
/// already published.
pub proof fn lemma_every_change_is_published(s: EnvView, call: Call)
    requires
        step(s, call) is Ok,
    ensures
        step(s, call)->Ok_0.events.len() == s.events.len() + 1,
        step(s, call)->Ok_0.events.subrange(0, s.events.len() as int) == s.events,
{
    let s2 = step(s, call)->Ok_0;
    assert(s2.events.subrange(0, s.events.len() as int) =~= s.events);
}

/// Every call keeps each stored payment under an issued id of its own,
/// each registry entry under its own address, and every approval by an
/// admin with no admin twice.
pub proof fn lemma_step_keeps_sound(s: EnvView, call: Call)
    requires
        s.sound(),
        step(s, call) is Ok,
    ensures
        step(s, call)->Ok_0.sound(),
{
    match call {
        Call::Initialize { admin } => {
            lemma_approvals_sound_more_admins(s, seq![admin]);
        },
        Call::SetAdmin { caller, admin } => {
            lemma_with_admin_keeps_admins(s.admins, admin);
            lemma_approvals_sound_more_admins(s, with_admin(s.admins, admin));
        },
        Call::SubmitPayment { from_vasp, to_vasp, beneficiary, asset, amount } => {
            lemma_payment_ids_fresh(s, from_vasp, to_vasp, beneficiary, asset, amount);
            let s2 = step(s, call)->Ok_0;
            assert forall|k: Seq<u8>| #[trigger] s2.payments.contains_key(k) implies {
                &&& s2.payments[k].id == k
                &&& exists|c: u64| c < s2.counter && #[trigger] payment_id_seq(c) == k
            } by {
                if s.payments.contains_key(k) {
                    let c = choose|c: u64| c < s.counter && #[trigger] payment_id_seq(c) == k;
                    assert(c < s2.counter);
                } else {
                    assert(payment_id_seq(s.counter) == k);
                }
            }
        },
        Call::SubmitAttestation { payment_id, .. } => {
            lemma_ids_issued_after_update(
                s,
                payment_id,
                step(s, call)->Ok_0.payments[payment_id],
            );
        },
        Call::ReleasePayment { caller, payment_id, reason } => {
            let (record, a, _e) = release_payment_outcome(
                s.admins,
                s.get_payment(payment_id),
                s.approvals_of(payment_id),
                caller,
                payment_id,
                reason,
                s.timestamp,
            )->Ok_0;
            lemma_decision_keeps_sound(s, payment_id, record, a, caller);
        },
        Call::RejectPayment { caller, payment_id, reason } => {
            let (record, a, _e) = reject_payment_outcome(
                s.admins,
                s.get_payment(payment_id),
                s.approvals_of(payment_id),
                caller,
                payment_id,
                reason,
                s.timestamp,
            )->Ok_0;
            lemma_decision_keeps_sound(s, payment_id, record, a, caller);
        },
        _ => {},
    }
}

/// Admins are added only as the first admin of a contract that has none,
/// or by an admin; no admin is ever removed.
pub proof fn lemma_admins_added_by_admins(s: EnvView, call: Call)
    requires
        step(s, call) is Ok,
    ensures
        forall|x: Seq<u8>| s.admins.contains(x) ==> #[trigger] step(s, call)->Ok_0.admins.contains(x),
        step(s, call)->Ok_0.admins != s.admins ==> match call {
            Call::Initialize { .. } => s.admins.len() == 0,
            Call::SetAdmin { caller, .. } => s.admins.contains(caller),
            _ => false,
        },
{
    if let Call::SetAdmin { admin, .. } = call {
        lemma_with_admin_keeps_admins(s.admins, admin);
    }
}

/// Every stored payment is pending, released or rejected, never held; it
/// has a resolution time exactly when it is released or rejected; and an
/// attestation hash and an IVMS101 version are recorded together.
pub open spec fn payments_consistent(s: EnvView) -> bool {
    forall|k: Seq<u8>| #[trigger]
        s.payments.contains_key(k) ==> {
            let p = s.payments[k];
            &&& p.status != PaymentStatus::Held
            &&& (p.resolved_at is Some <==> (p.status == PaymentStatus::Released || p.status
                == PaymentStatus::Rejected))
            &&& (p.attestation_hash is Some <==> p.ivms_version is Some)
        }
}

/// Every call keeps the stored payments consistent.
pub proof fn lemma_step_keeps_payments_consistent(s: EnvView, call: Call)
    requires
        payments_consistent(s),
        step(s, call) is Ok,
    ensures
        payments_consistent(step(s, call)->Ok_0),
{
}


/// Whether the bytes `a`, `b` are one of the 249 ISO 3166-1 alpha-2 codes
/// assigned to a country or territory, listed one by one.
pub open spec fn listed_iso_3166_code(a: u8, b: u8) -> bool {
    (a == 65u8 && b == 68u8)  // AD
    || (a == 65u8 && b == 69u8)  // AE
    || (a == 65u8 && b == 70u8)  // AF
    || (a == 65u8 && b == 71u8)  // AG
    || (a == 65u8 && b == 73u8)  // AI
    || (a == 65u8 && b == 76u8)  // AL
    || (a == 65u8 && b == 77u8)  // AM
    || (a == 65u8 && b == 79u8)  // AO
    || (a == 65u8 && b == 81u8)  // AQ
    || (a == 65u8 && b == 82u8)  // AR
    || (a == 65u8 && b == 83u8)  // AS
    || (a == 65u8 && b == 84u8)  // AT
    || (a == 65u8 && b == 85u8)  // AU
    || (a == 65u8 && b == 87u8)  // AW
    || (a == 65u8 && b == 88u8)  // AX
    || (a == 65u8 && b == 90u8)  // AZ
    || (a == 66u8 && b == 65u8)  // BA
    || (a == 66u8 && b == 66u8)  // BB
    || (a == 66u8 && b == 68u8)  // BD
    || (a == 66u8 && b == 69u8)  // BE
    || (a == 66u8 && b == 70u8)  // BF
    || (a == 66u8 && b == 71u8)  // BG
    || (a == 66u8 && b == 72u8)  // BH
    || (a == 66u8 && b == 73u8)  // BI
    || (a == 66u8 && b == 74u8)  // BJ
    || (a == 66u8 && b == 76u8)  // BL
    || (a == 66u8 && b == 77u8)  // BM
    || (a == 66u8 && b == 78u8)  // BN
    || (a == 66u8 && b == 79u8)  // BO
    || (a == 66u8 && b == 81u8)  // BQ
    || (a == 66u8 && b == 82u8)  // BR
    || (a == 66u8 && b == 83u8)  // BS
    || (a == 66u8 && b == 84u8)  // BT
    || (a == 66u8 && b == 86u8)  // BV
    || (a == 66u8 && b == 87u8)  // BW
    || (a == 66u8 && b == 89u8)  // BY
    || (a == 66u8 && b == 90u8)  // BZ
    || (a == 67u8 && b == 65u8)  // CA
    || (a == 67u8 && b == 67u8)  // CC
    || (a == 67u8 && b == 68u8)  // CD
    || (a == 67u8 && b == 70u8)  // CF
    || (a == 67u8 && b == 71u8)  // CG
    || (a == 67u8 && b == 72u8)  // CH
    || (a == 67u8 && b == 73u8)  // CI
    || (a == 67u8 && b == 75u8)  // CK
    || (a == 67u8 && b == 76u8)  // CL
    || (a == 67u8 && b == 77u8)  // CM
    || (a == 67u8 && b == 78u8)  // CN
    || (a == 67u8 && b == 79u8)  // CO
    || (a == 67u8 && b == 82u8)  // CR
    || (a == 67u8 && b == 85u8)  // CU
    || (a == 67u8 && b == 86u8)  // CV
    || (a == 67u8 && b == 87u8)  // CW
    || (a == 67u8 && b == 88u8)  // CX
    || (a == 67u8 && b == 89u8)  // CY
    || (a == 67u8 && b == 90u8)  // CZ
    || (a == 68u8 && b == 69u8)  // DE
    || (a == 68u8 && b == 74u8)  // DJ
    || (a == 68u8 && b == 75u8)  // DK
    || (a == 68u8 && b == 77u8)  // DM
    || (a == 68u8 && b == 79u8)  // DO
    || (a == 68u8 && b == 90u8)  // DZ
    || (a == 69u8 && b == 67u8)  // EC
    || (a == 69u8 && b == 69u8)  // EE
    || (a == 69u8 && b == 71u8)  // EG
    || (a == 69u8 && b == 72u8)  // EH
    || (a == 69u8 && b == 82u8)  // ER
    || (a == 69u8 && b == 83u8)  // ES
    || (a == 69u8 && b == 84u8)  // ET
    || (a == 70u8 && b == 73u8)  // FI
    || (a == 70u8 && b == 74u8)  // FJ
    || (a == 70u8 && b == 75u8)  // FK
    || (a == 70u8 && b == 77u8)  // FM
    || (a == 70u8 && b == 79u8)  // FO
    || (a == 70u8 && b == 82u8)  // FR
    || (a == 71u8 && b == 65u8)  // GA
    || (a == 71u8 && b == 66u8)  // GB
    || (a == 71u8 && b == 68u8)  // GD
    || (a == 71u8 && b == 69u8)  // GE
    || (a == 71u8 && b == 70u8)  // GF
    || (a == 71u8 && b == 71u8)  // GG
    || (a == 71u8 && b == 72u8)  // GH
    || (a == 71u8 && b == 73u8)  // GI
    || (a == 71u8 && b == 76u8)  // GL
    || (a == 71u8 && b == 77u8)  // GM
    || (a == 71u8 && b == 78u8)  // GN
    || (a == 71u8 && b == 80u8)  // GP
    || (a == 71u8 && b == 81u8)  // GQ
    || (a == 71u8 && b == 82u8)  // GR
    || (a == 71u8 && b == 83u8)  // GS
    || (a == 71u8 && b == 84u8)  // GT
    || (a == 71u8 && b == 85u8)  // GU
    || (a == 71u8 && b == 87u8)  // GW
    || (a == 71u8 && b == 89u8)  // GY
    || (a == 72u8 && b == 75u8)  // HK
    || (a == 72u8 && b == 77u8)  // HM
    || (a == 72u8 && b == 78u8)  // HN
    || (a == 72u8 && b == 82u8)  // HR
    || (a == 72u8 && b == 84u8)  // HT
    || (a == 72u8 && b == 85u8)  // HU
    || (a == 73u8 && b == 68u8)  // ID
    || (a == 73u8 && b == 69u8)  // IE
    || (a == 73u8 && b == 76u8)  // IL
    || (a == 73u8 && b == 77u8)  // IM
    || (a == 73u8 && b == 78u8)  // IN
    || (a == 73u8 && b == 79u8)  // IO
    || (a == 73u8 && b == 81u8)  // IQ
    || (a == 73u8 && b == 82u8)  // IR
    || (a == 73u8 && b == 83u8)  // IS
    || (a == 73u8 && b == 84u8)  // IT
    || (a == 74u8 && b == 69u8)  // JE
    || (a == 74u8 && b == 77u8)  // JM
    || (a == 74u8 && b == 79u8)  // JO
    || (a == 74u8 && b == 80u8)  // JP
    || (a == 75u8 && b == 69u8)  // KE
    || (a == 75u8 && b == 71u8)  // KG
    || (a == 75u8 && b == 72u8)  // KH
    || (a == 75u8 && b == 73u8)  // KI
    || (a == 75u8 && b == 77u8)  // KM
    || (a == 75u8 && b == 78u8)  // KN
    || (a == 75u8 && b == 80u8)  // KP
    || (a == 75u8 && b == 82u8)  // KR
    || (a == 75u8 && b == 87u8)  // KW
    || (a == 75u8 && b == 89u8)  // KY
    || (a == 75u8 && b == 90u8)  // KZ
    || (a == 76u8 && b == 65u8)  // LA
    || (a == 76u8 && b == 66u8)  // LB
    || (a == 76u8 && b == 67u8)  // LC
    || (a == 76u8 && b == 73u8)  // LI
    || (a == 76u8 && b == 75u8)  // LK
    || (a == 76u8 && b == 82u8)  // LR
    || (a == 76u8 && b == 83u8)  // LS
    || (a == 76u8 && b == 84u8)  // LT
    || (a == 76u8 && b == 85u8)  // LU
    || (a == 76u8 && b == 86u8)  // LV
    || (a == 76u8 && b == 89u8)  // LY
    || (a == 77u8 && b == 65u8)  // MA
    || (a == 77u8 && b == 67u8)  // MC
    || (a == 77u8 && b == 68u8)  // MD
    || (a == 77u8 && b == 69u8)  // ME
    || (a == 77u8 && b == 70u8)  // MF
    || (a == 77u8 && b == 71u8)  // MG
    || (a == 77u8 && b == 72u8)  // MH
    || (a == 77u8 && b == 75u8)  // MK
    || (a == 77u8 && b == 76u8)  // ML
    || (a == 77u8 && b == 77u8)  // MM
    || (a == 77u8 && b == 78u8)  // MN
    || (a == 77u8 && b == 79u8)  // MO
    || (a == 77u8 && b == 80u8)  // MP
    || (a == 77u8 && b == 81u8)  // MQ
    || (a == 77u8 && b == 82u8)  // MR
    || (a == 77u8 && b == 83u8)  // MS
    || (a == 77u8 && b == 84u8)  // MT
    || (a == 77u8 && b == 85u8)  // MU
    || (a == 77u8 && b == 86u8)  // MV
    || (a == 77u8 && b == 87u8)  // MW
    || (a == 77u8 && b == 88u8)  // MX
    || (a == 77u8 && b == 89u8)  // MY
    || (a == 77u8 && b == 90u8)  // MZ
    || (a == 78u8 && b == 65u8)  // NA
    || (a == 78u8 && b == 67u8)  // NC
    || (a == 78u8 && b == 69u8)  // NE
    || (a == 78u8 && b == 70u8)  // NF
    || (a == 78u8 && b == 71u8)  // NG
    || (a == 78u8 && b == 73u8)  // NI
    || (a == 78u8 && b == 76u8)  // NL
    || (a == 78u8 && b == 79u8)  // NO
    || (a == 78u8 && b == 80u8)  // NP
    || (a == 78u8 && b == 82u8)  // NR
    || (a == 78u8 && b == 85u8)  // NU
    || (a == 78u8 && b == 90u8)  // NZ
    || (a == 79u8 && b == 77u8)  // OM
    || (a == 80u8 && b == 65u8)  // PA
    || (a == 80u8 && b == 69u8)  // PE
    || (a == 80u8 && b == 70u8)  // PF
    || (a == 80u8 && b == 71u8)  // PG
    || (a == 80u8 && b == 72u8)  // PH
    || (a == 80u8 && b == 75u8)  // PK
    || (a == 80u8 && b == 76u8)  // PL
    || (a == 80u8 && b == 77u8)  // PM
    || (a == 80u8 && b == 78u8)  // PN
    || (a == 80u8 && b == 82u8)  // PR
    || (a == 80u8 && b == 83u8)  // PS
    || (a == 80u8 && b == 84u8)  // PT
    || (a == 80u8 && b == 87u8)  // PW
    || (a == 80u8 && b == 89u8)  // PY
    || (a == 81u8 && b == 65u8)  // QA
    || (a == 82u8 && b == 69u8)  // RE
    || (a == 82u8 && b == 79u8)  // RO
    || (a == 82u8 && b == 83u8)  // RS
    || (a == 82u8 && b == 85u8)  // RU
    || (a == 82u8 && b == 87u8)  // RW
    || (a == 83u8 && b == 65u8)  // SA
    || (a == 83u8 && b == 66u8)  // SB
    || (a == 83u8 && b == 67u8)  // SC
    || (a == 83u8 && b == 68u8)  // SD
    || (a == 83u8 && b == 69u8)  // SE
    || (a == 83u8 && b == 71u8)  // SG
    || (a == 83u8 && b == 72u8)  // SH
    || (a == 83u8 && b == 73u8)  // SI
    || (a == 83u8 && b == 74u8)  // SJ
    || (a == 83u8 && b == 75u8)  // SK
    || (a == 83u8 && b == 76u8)  // SL
    || (a == 83u8 && b == 77u8)  // SM
    || (a == 83u8 && b == 78u8)  // SN
    || (a == 83u8 && b == 79u8)  // SO
    || (a == 83u8 && b == 82u8)  // SR
    || (a == 83u8 && b == 83u8)  // SS
    || (a == 83u8 && b == 84u8)  // ST
    || (a == 83u8 && b == 86u8)  // SV
    || (a == 83u8 && b == 88u8)  // SX
    || (a == 83u8 && b == 89u8)  // SY
    || (a == 83u8 && b == 90u8)  // SZ
    || (a == 84u8 && b == 67u8)  // TC
    || (a == 84u8 && b == 68u8)  // TD
    || (a == 84u8 && b == 70u8)  // TF
    || (a == 84u8 && b == 71u8)  // TG
    || (a == 84u8 && b == 72u8)  // TH
    || (a == 84u8 && b == 74u8)  // TJ
    || (a == 84u8 && b == 75u8)  // TK
    || (a == 84u8 && b == 76u8)  // TL
    || (a == 84u8 && b == 77u8)  // TM
    || (a == 84u8 && b == 78u8)  // TN
    || (a == 84u8 && b == 79u8)  // TO
    || (a == 84u8 && b == 82u8)  // TR
    || (a == 84u8 && b == 84u8)  // TT
    || (a == 84u8 && b == 86u8)  // TV
    || (a == 84u8 && b == 87u8)  // TW
    || (a == 84u8 && b == 90u8)  // TZ
    || (a == 85u8 && b == 65u8)  // UA
    || (a == 85u8 && b == 71u8)  // UG
    || (a == 85u8 && b == 77u8)  // UM
    || (a == 85u8 && b == 83u8)  // US
    || (a == 85u8 && b == 89u8)  // UY
    || (a == 85u8 && b == 90u8)  // UZ
    || (a == 86u8 && b == 65u8)  // VA
    || (a == 86u8 && b == 67u8)  // VC
    || (a == 86u8 && b == 69u8)  // VE
    || (a == 86u8 && b == 71u8)  // VG
    || (a == 86u8 && b == 73u8)  // VI
    || (a == 86u8 && b == 78u8)  // VN
    || (a == 86u8 && b == 85u8)  // VU
    || (a == 87u8 && b == 70u8)  // WF
    || (a == 87u8 && b == 83u8)  // WS
    || (a == 89u8 && b == 69u8)  // YE
    || (a == 89u8 && b == 84u8)  // YT
    || (a == 90u8 && b == 65u8)  // ZA
    || (a == 90u8 && b == 77u8)  // ZM
    || (a == 90u8 && b == 87u8)  // ZW
}

/// A jurisdiction is accepted exactly when it is one of the listed
/// ISO 3166-1 alpha-2 codes.
pub proof fn lemma_iso_codes_are_the_listed_ones(j: Seq<u8>)
    ensures
        iso_country_code(j) <==> (j.len() == 2 && listed_iso_3166_code(j[0], j[1])),
{
}

/// An admin registers a VASP under every listed ISO 3166-1 code, and the
/// entry keeps that jurisdiction; under any other jurisdiction an admin's
/// registration is refused with `InvalidJurisdiction` and changes nothing.
pub proof fn lemma_register_accepts_exactly_iso_codes(
    s: EnvView,
    caller: Seq<u8>,
    vasp: Seq<u8>,
    name: Seq<u8>,
    jurisdiction: Seq<u8>,
    public_key: Seq<u8>,
)
    requires
        s.admins.contains(caller),
    ensures
        (jurisdiction.len() == 2 && listed_iso_3166_code(jurisdiction[0], jurisdiction[1]))
            ==> s.register_vasp(caller, vasp, name, jurisdiction, public_key) is Ok && s.register_vasp(
            caller,
            vasp,
            name,
            jurisdiction,
            public_key,
        )->Ok_0.vasps[vasp].jurisdiction == jurisdiction,
        !(jurisdiction.len() == 2 && listed_iso_3166_code(jurisdiction[0], jurisdiction[1]))
            ==> s.register_vasp(caller, vasp, name, jurisdiction, public_key) == Err::<
            EnvView,
            ContractError,
        >(ContractError::InvalidJurisdiction),
{
    lemma_iso_codes_are_the_listed_ones(jurisdiction);
}

/// An admin sets a threshold under every listed ISO 3166-1 code; under any
/// other jurisdiction an admin's call is refused with `InvalidJurisdiction`.
pub proof fn lemma_set_threshold_accepts_exactly_iso_codes(
    s: EnvView,
    caller: Seq<u8>,
    asset: Seq<u8>,
    jurisdiction: Seq<u8>,
    amount: i128,
)
    requires
        s.admins.contains(caller),
    ensures
        (jurisdiction.len() == 2 && listed_iso_3166_code(jurisdiction[0], jurisdiction[1]))
            ==> s.set_threshold(caller, asset, jurisdiction, amount) is Ok,
        !(jurisdiction.len() == 2 && listed_iso_3166_code(jurisdiction[0], jurisdiction[1]))
            ==> s.set_threshold(caller, asset, jurisdiction, amount) == Err::<
            EnvView,
            ContractError,
        >(ContractError::InvalidJurisdiction),
{
    lemma_iso_codes_are_the_listed_ones(jurisdiction);
}

/// A submitted payment is stored under the returned id, which no payment
/// had, with exactly the parties, asset and amount of the call, created at
/// the current ledger time, unattested, resolved now when released and
/// unresolved when pending; nothing but the payments, the counter and the
/// events changes.
pub proof fn lemma_submitted_payment_records_the_call(
    s: EnvView,
    from_vasp: Seq<u8>,
    to_vasp: Seq<u8>,
    beneficiary: Seq<u8>,
    asset: Seq<u8>,
    amount: i128,
)
    requires
        s.ids_issued(),
        s.submit_payment(from_vasp, to_vasp, beneficiary, asset, amount) is Ok,
    ensures
        ({
            let (s2, id) = s.submit_payment(from_vasp, to_vasp, beneficiary, asset, amount)->Ok_0;
            let p = s2.payments[id];
            &&& !s.payments.contains_key(id)
            &&& s2.payments.contains_key(id)
            &&& id.len() == 32
            &&& p.id == id
            &&& p.from_vasp == from_vasp
            &&& p.to_vasp == to_vasp
            &&& p.beneficiary == beneficiary
            &&& p.asset == asset
            &&& p.amount == amount
            &&& p.created_at == s.timestamp
            &&& p.attestation_hash is None
            &&& p.ivms_version is None
            &&& (p.status == PaymentStatus::Released || p.status == PaymentStatus::Pending)
            &&& (p.status == PaymentStatus::Released ==> p.resolved_at == Some(s.timestamp))
            &&& (p.status == PaymentStatus::Pending ==> p.resolved_at is None)
            &&& s2.vasps == s.vasps
            &&& s2.thresholds == s.thresholds
            &&& s2.admins == s.admins
            &&& s2.approvals == s.approvals
            &&& s2.timestamp == s.timestamp
        }),
{
    lemma_payment_ids_fresh(s, from_vasp, to_vasp, beneficiary, asset, amount);
}

/// The id of payment number `c` is the 32 bytes whose first eight are `c`
/// in little-endian order and whose others are zero.
pub proof fn lemma_payment_id_little_endian(c: u64)
    ensures
        payment_id_seq(c).len() == 32,
        payment_id_seq(c)[0] == c % 0x100,
        payment_id_seq(c)[1] == (c / 0x100) % 0x100,
        payment_id_seq(c)[2] == (c / 0x10000) % 0x100,
        payment_id_seq(c)[3] == (c / 0x1000000) % 0x100,
        payment_id_seq(c)[4] == (c / 0x100000000) % 0x100,
        payment_id_seq(c)[5] == (c / 0x10000000000) % 0x100,
        payment_id_seq(c)[6] == (c / 0x1000000000000) % 0x100,
        payment_id_seq(c)[7] == (c / 0x100000000000000) % 0x100,
        forall|k: int| 8 <= k < 32 ==> payment_id_seq(c)[k] == 0,
{
    let s = payment_id_seq(c);
    assert(s[0] == c as u8);
    assert(s[1] == (c >> 8u64) as u8);
    assert(s[2] == (c >> 16u64) as u8);
    assert(s[3] == (c >> 24u64) as u8);
    assert(s[4] == (c >> 32u64) as u8);
    assert(s[5] == (c >> 40u64) as u8);
    assert(s[6] == (c >> 48u64) as u8);
    assert(s[7] == (c >> 56u64) as u8);
    assert((c as u8) as u64 == c % 0x100) by (bit_vector);
    assert(((c >> 8u64) as u8) as u64 == (c / 0x100) % 0x100) by (bit_vector);
    assert(((c >> 16u64) as u8) as u64 == (c / 0x10000) % 0x100) by (bit_vector);
    assert(((c >> 24u64) as u8) as u64 == (c / 0x1000000) % 0x100) by (bit_vector);
    assert(((c >> 32u64) as u8) as u64 == (c / 0x100000000) % 0x100) by (bit_vector);
    assert(((c >> 40u64) as u8) as u64 == (c / 0x10000000000) % 0x100) by (bit_vector);
    assert(((c >> 48u64) as u8) as u64 == (c / 0x1000000000000) % 0x100) by (bit_vector);
    assert(((c >> 56u64) as u8) as u64 == (c / 0x100000000000000) % 0x100) by (bit_vector);
}

/// A status update sets the entry's status to the given one and keeps the
/// rest of the entry; every other entry, and everything but the registry
/// and the events, stays as it was. It is refused with `VaspNotFound`
/// exactly when an admin asks it for an unregistered VASP.
pub proof fn lemma_update_vasp_status_sets_status(
    s: EnvView,
    caller: Seq<u8>,
    vasp: Seq<u8>,
    status: VaspStatus,
    other: Seq<u8>,
)
    ensures
        s.update_vasp_status(caller, vasp, status) is Ok ==> {
            let s2 = s.update_vasp_status(caller, vasp, status)->Ok_0;
            &&& s.vasps.contains_key(vasp)
            &&& s2.get_vasp(vasp) is Some
            &&& s2.vasps[vasp].status == status
            &&& s2.vasps[vasp].address == s.vasps[vasp].address
            &&& s2.vasps[vasp].name == s.vasps[vasp].name
            &&& s2.vasps[vasp].jurisdiction == s.vasps[vasp].jurisdiction
            &&& s2.vasps[vasp].public_key == s.vasps[vasp].public_key
            &&& s2.vasps[vasp].added_at == s.vasps[vasp].added_at
            &&& (other != vasp ==> s2.get_vasp(other) == s.get_vasp(other))
            &&& s2.payments == s.payments
            &&& s2.thresholds == s.thresholds
            &&& s2.admins == s.admins
        },
        s.admins.contains(caller) ==> (s.update_vasp_status(caller, vasp, status) == Err::<
            EnvView,
            ContractError,
        >(ContractError::VaspNotFound) <==> !s.vasps.contains_key(vasp)),
{
}

/// An attestation is refused as `EmptyMessageHash` only when every byte of
/// the hash is zero; for a pending payment between two active VASPs,
/// attested by its beneficiary VASP with a hash holding a byte that is not
/// zero, it succeeds. A successful attestation releases the payment at the
/// current ledger time, records the hash and the IVMS101 version, and keeps
/// the rest of the record.
pub proof fn lemma_attestation_hash_rule(
    s: EnvView,
    caller: Seq<u8>,
    payment_id: Seq<u8>,
    hash: Seq<u8>,
    ivms: Seq<u8>,
)
    ensures
        s.submit_attestation(caller, payment_id, hash, ivms) == Err::<EnvView, ContractError>(
            ContractError::EmptyMessageHash,
        ) ==> forall|i: int| 0 <= i < hash.len() ==> hash[i] == 0,
        s.submit_attestation(caller, payment_id, hash, ivms) is Ok ==> exists|i: int|
            0 <= i < hash.len() && hash[i] != 0,
        ({
            let p = s.payments[payment_id];
            &&& s.payments.contains_key(payment_id)
            &&& p.status == PaymentStatus::Pending
            &&& caller == p.to_vasp
            &&& s.vasps.contains_key(p.to_vasp)
            &&& s.vasps[p.to_vasp].status == VaspStatus::Active
            &&& s.vasps.contains_key(p.from_vasp)
            &&& s.vasps[p.from_vasp].status == VaspStatus::Active
            &&& exists|i: int| 0 <= i < hash.len() && hash[i] != 0
        }) ==> s.submit_attestation(caller, payment_id, hash, ivms) is Ok,
        s.submit_attestation(caller, payment_id, hash, ivms) is Ok ==> {
            let s2 = s.submit_attestation(caller, payment_id, hash, ivms)->Ok_0;
            let p = s.payments[payment_id];
            let q = s2.payments[payment_id];
            &&& q.status == PaymentStatus::Released
            &&& q.resolved_at == Some(s.timestamp)
            &&& q.attestation_hash == Some(hash)
            &&& q.ivms_version == Some(ivms)
            &&& q.id == p.id
            &&& q.from_vasp == p.from_vasp
            &&& q.to_vasp == p.to_vasp
            &&& q.beneficiary == p.beneficiary
            &&& q.asset == p.asset
            &&& q.amount == p.amount
            &&& q.created_at == p.created_at
        },
{
    if s.submit_attestation(caller, payment_id, hash, ivms) is Ok {
        assert(!all_zero(hash));
    }
}

/// A release that completes the admins' approvals releases the payment at
/// the current ledger time, keeps the rest of its record, and clears its
/// approvals.
pub proof fn lemma_release_resolves_now(
    s: EnvView,
    caller: Seq<u8>,
    payment_id: Seq<u8>,
    reason: Seq<u8>,
)
    requires
        s.release_payment(caller, payment_id, reason) is Ok,
        s.approvals_of(payment_id).release.len() + 1 >= REQUIRED_APPROVALS,
    ensures
        ({
            let s2 = s.release_payment(caller, payment_id, reason)->Ok_0;
            let p = s.payments[payment_id];
            let q = s2.payments[payment_id];
            &&& s.payments.contains_key(payment_id)
            &&& p.status != PaymentStatus::Released
            &&& q.status == PaymentStatus::Released
            &&& q.resolved_at == Some(s.timestamp)
            &&& q.id == p.id
            &&& q.from_vasp == p.from_vasp
            &&& q.to_vasp == p.to_vasp
            &&& q.beneficiary == p.beneficiary
            &&& q.asset == p.asset
            &&& q.amount == p.amount
            &&& q.created_at == p.created_at
            &&& q.attestation_hash == p.attestation_hash
            &&& q.ivms_version == p.ivms_version
            &&& s2.approvals_of(payment_id).release.len() == 0
            &&& s2.approvals_of(payment_id).reject.len() == 0
        }),
{
}

/// A rejection that completes the admins' approvals rejects the payment at
/// the current ledger time, keeps the rest of its record, and clears its
/// approvals.
pub proof fn lemma_reject_resolves_now(
    s: EnvView,
    caller: Seq<u8>,
    payment_id: Seq<u8>,
    reason: Seq<u8>,
)
    requires
        s.reject_payment(caller, payment_id, reason) is Ok,
        s.approvals_of(payment_id).reject.len() + 1 >= REQUIRED_APPROVALS,
    ensures
        ({
            let s2 = s.reject_payment(caller, payment_id, reason)->Ok_0;
            let p = s.payments[payment_id];
            let q = s2.payments[payment_id];
            &&& s.payments.contains_key(payment_id)
            &&& p.status != PaymentStatus::Released
            &&& p.status != PaymentStatus::Rejected
            &&& q.status == PaymentStatus::Rejected
            &&& q.resolved_at == Some(s.timestamp)
            &&& q.id == p.id
            &&& q.from_vasp == p.from_vasp
            &&& q.to_vasp == p.to_vasp
            &&& q.beneficiary == p.beneficiary
            &&& q.asset == p.asset
            &&& q.amount == p.amount
            &&& q.created_at == p.created_at
            &&& q.attestation_hash == p.attestation_hash
            &&& q.ivms_version == p.ivms_version
            &&& s2.approvals_of(payment_id).release.len() == 0
            &&& s2.approvals_of(payment_id).reject.len() == 0
        }),
{
}

/// The event that each successful call publishes, in terms of the call's
/// arguments.
pub proof fn lemma_published_event(s: EnvView, call: Call)
    requires
        step(s, call) is Ok,
    ensures
        ({
            let last = step(s, call)->Ok_0.events.last();
            match call {
                Call::Initialize { admin } => last == EventView::AdminAdded { admin },
                Call::SetAdmin { admin, .. } => last == EventView::AdminAdded { admin },
                Call::RegisterVasp { vasp, .. } => last == EventView::VaspRegistered { vasp },
                Call::UpdateVaspStatus { vasp, .. } => last == EventView::VaspUpdated { vasp },
                Call::SetThreshold { asset, .. } => last == EventView::ThresholdSet { asset },
                Call::SubmitPayment { from_vasp, to_vasp, beneficiary, asset, amount } => last
                    == EventView::PaymentSubmitted {
                    payment_id: s.submit_payment(
                        from_vasp,
                        to_vasp,
                        beneficiary,
                        asset,
                        amount,
                    )->Ok_0.1,
                },
                Call::SubmitAttestation { payment_id, .. } => last
                    == EventView::AttestationSubmitted { payment_id },
                Call::ReleasePayment { caller, payment_id, reason } => if s.approvals_of(
                    payment_id,
                ).release.len() + 1 >= REQUIRED_APPROVALS {
                    last == EventView::PaymentReleased { payment_id, reason }
                } else {
                    last == EventView::ReleaseApproved { payment_id, admin: caller, reason }
                },
                Call::RejectPayment { caller, payment_id, reason } => if s.approvals_of(
                    payment_id,
                ).reject.len() + 1 >= REQUIRED_APPROVALS {
                    last == EventView::PaymentRejected { payment_id, reason }
                } else {
                    last == EventView::RejectApproved { payment_id, admin: caller, reason }
                },
            }
        }),
{
}

} // verus!
