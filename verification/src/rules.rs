//! The contract's decisions, each from the values that a call reads out of
//! storage to the value that it writes back or the refusal that it answers.

use vstd::prelude::*;

use crate::bytemap::ByteMap;
use crate::bytes::{all_zero, is_all_zero};
use crate::types::{
    addresses_view, contains_address, copy_addresses, copy_bytes, Address, Bytes32, ContractError, PaymentRecord,
    PaymentRecordView, PaymentStatus, VaspEntry, VaspEntryView, VaspStatus,
};

verus! {

/// The byte `:` that joins an asset and a jurisdiction in a threshold key.
pub const KEY_SEPARATOR: u8 = 58u8;

/// The storage key of the threshold for `asset` in `jurisdiction`: the
/// asset's strkey, `:`, and the jurisdiction.
pub open spec fn threshold_key(asset: Seq<u8>, jurisdiction: Seq<u8>) -> Seq<u8> {
    asset + seq![KEY_SEPARATOR] + jurisdiction
}

/// The refusal of an admin-only call by `caller` when the stored admins are
/// `admins`; `denied` is the refusal for a caller who is not an admin.
pub open spec fn admin_error(
    admins: Seq<Seq<u8>>,
    caller: Seq<u8>,
    denied: ContractError,
) -> Option<ContractError> {
    if admins.len() == 0 {
        Some(ContractError::AdminNotSet)
    } else if !admins.contains(caller) {
        Some(denied)
    } else {
        None
    }
}

/// The admins once `admin` is added to `admins`.
pub open spec fn with_admin(admins: Seq<Seq<u8>>, admin: Seq<u8>) -> Seq<Seq<u8>> {
    if admins.contains(admin) {
        admins
    } else {
        admins.push(admin)
    }
}

/// Whether `first` and `second` spell one of the ISO 3166-1 alpha-2 codes
/// assigned to a country or territory.
pub open spec fn assigned_country_code(first: u8, second: u8) -> bool {
    match first {
        // AD AE AF AG AI AL AM AO AQ AR AS AT AU AW AX AZ
        65u8 => second == 68u8 || second == 69u8 || second == 70u8 || second == 71u8 || second == 73u8 || second == 76u8
            || second == 77u8 || second == 79u8 || second == 81u8 || second == 82u8 || second == 83u8 || second == 84u8
            || second == 85u8 || second == 87u8 || second == 88u8 || second == 90u8,
        // BA BB BD BE BF BG BH BI BJ BL BM BN BO BQ BR BS BT BV BW BY BZ
        66u8 => second == 65u8 || second == 66u8 || second == 68u8 || second == 69u8 || second == 70u8 || second == 71u8
            || second == 72u8 || second == 73u8 || second == 74u8 || second == 76u8 || second == 77u8 || second == 78u8
            || second == 79u8 || second == 81u8 || second == 82u8 || second == 83u8 || second == 84u8 || second == 86u8
            || second == 87u8 || second == 89u8 || second == 90u8,
        // CA CC CD CF CG CH CI CK CL CM CN CO CR CU CV CW CX CY CZ
        67u8 => second == 65u8 || second == 67u8 || second == 68u8 || second == 70u8 || second == 71u8 || second == 72u8
            || second == 73u8 || second == 75u8 || second == 76u8 || second == 77u8 || second == 78u8 || second == 79u8
            || second == 82u8 || second == 85u8 || second == 86u8 || second == 87u8 || second == 88u8 || second == 89u8
            || second == 90u8,
        // DE DJ DK DM DO DZ
        68u8 => second == 69u8 || second == 74u8 || second == 75u8 || second == 77u8 || second == 79u8 || second == 90u8,
        // EC EE EG EH ER ES ET
        69u8 => second == 67u8 || second == 69u8 || second == 71u8 || second == 72u8 || second == 82u8 || second == 83u8
            || second == 84u8,
        // FI FJ FK FM FO FR
        70u8 => second == 73u8 || second == 74u8 || second == 75u8 || second == 77u8 || second == 79u8 || second == 82u8,
        // GA GB GD GE GF GG GH GI GL GM GN GP GQ GR GS GT GU GW GY
        71u8 => second == 65u8 || second == 66u8 || second == 68u8 || second == 69u8 || second == 70u8 || second == 71u8
            || second == 72u8 || second == 73u8 || second == 76u8 || second == 77u8 || second == 78u8 || second == 80u8
            || second == 81u8 || second == 82u8 || second == 83u8 || second == 84u8 || second == 85u8 || second == 87u8
            || second == 89u8,
        // HK HM HN HR HT HU
        72u8 => second == 75u8 || second == 77u8 || second == 78u8 || second == 82u8 || second == 84u8 || second == 85u8,
        // ID IE IL IM IN IO IQ IR IS IT
        73u8 => second == 68u8 || second == 69u8 || second == 76u8 || second == 77u8 || second == 78u8 || second == 79u8
            || second == 81u8 || second == 82u8 || second == 83u8 || second == 84u8,
        // JE JM JO JP
        74u8 => second == 69u8 || second == 77u8 || second == 79u8 || second == 80u8,
        // KE KG KH KI KM KN KP KR KW KY KZ
        75u8 => second == 69u8 || second == 71u8 || second == 72u8 || second == 73u8 || second == 77u8 || second == 78u8
            || second == 80u8 || second == 82u8 || second == 87u8 || second == 89u8 || second == 90u8,
        // LA LB LC LI LK LR LS LT LU LV LY
        76u8 => second == 65u8 || second == 66u8 || second == 67u8 || second == 73u8 || second == 75u8 || second == 82u8
            || second == 83u8 || second == 84u8 || second == 85u8 || second == 86u8 || second == 89u8,
        // MA MC MD ME MF MG MH MK ML MM MN MO MP MQ MR MS MT MU MV MW MX MY MZ
        77u8 => second == 65u8 || second == 67u8 || second == 68u8 || second == 69u8 || second == 70u8 || second == 71u8
            || second == 72u8 || second == 75u8 || second == 76u8 || second == 77u8 || second == 78u8 || second == 79u8
            || second == 80u8 || second == 81u8 || second == 82u8 || second == 83u8 || second == 84u8 || second == 85u8
            || second == 86u8 || second == 87u8 || second == 88u8 || second == 89u8 || second == 90u8,
        // NA NC NE NF NG NI NL NO NP NR NU NZ
        78u8 => second == 65u8 || second == 67u8 || second == 69u8 || second == 70u8 || second == 71u8 || second == 73u8
            || second == 76u8 || second == 79u8 || second == 80u8 || second == 82u8 || second == 85u8 || second == 90u8,
        // OM
        79u8 => second == 77u8,
        // PA PE PF PG PH PK PL PM PN PR PS PT PW PY
        80u8 => second == 65u8 || second == 69u8 || second == 70u8 || second == 71u8 || second == 72u8 || second == 75u8
            || second == 76u8 || second == 77u8 || second == 78u8 || second == 82u8 || second == 83u8 || second == 84u8
            || second == 87u8 || second == 89u8,
        // QA
        81u8 => second == 65u8,
        // RE RO RS RU RW
        82u8 => second == 69u8 || second == 79u8 || second == 83u8 || second == 85u8 || second == 87u8,
        // SA SB SC SD SE SG SH SI SJ SK SL SM SN SO SR SS ST SV SX SY SZ
        83u8 => second == 65u8 || second == 66u8 || second == 67u8 || second == 68u8 || second == 69u8 || second == 71u8
            || second == 72u8 || second == 73u8 || second == 74u8 || second == 75u8 || second == 76u8 || second == 77u8
            || second == 78u8 || second == 79u8 || second == 82u8 || second == 83u8 || second == 84u8 || second == 86u8
            || second == 88u8 || second == 89u8 || second == 90u8,
        // TC TD TF TG TH TJ TK TL TM TN TO TR TT TV TW TZ
        84u8 => second == 67u8 || second == 68u8 || second == 70u8 || second == 71u8 || second == 72u8 || second == 74u8
            || second == 75u8 || second == 76u8 || second == 77u8 || second == 78u8 || second == 79u8 || second == 82u8
            || second == 84u8 || second == 86u8 || second == 87u8 || second == 90u8,
        // UA UG UM US UY UZ
        85u8 => second == 65u8 || second == 71u8 || second == 77u8 || second == 83u8 || second == 89u8 || second == 90u8,
        // VA VC VE VG VI VN VU
        86u8 => second == 65u8 || second == 67u8 || second == 69u8 || second == 71u8 || second == 73u8 || second == 78u8
            || second == 85u8,
        // WF WS
        87u8 => second == 70u8 || second == 83u8,
        // YE YT
        89u8 => second == 69u8 || second == 84u8,
        // ZA ZM ZW
        90u8 => second == 65u8 || second == 77u8 || second == 87u8,
        _ => false,
    }
}

/// Whether `j` is a two-letter ISO 3166-1 country code.
pub open spec fn iso_country_code(j: Seq<u8>) -> bool {
    j.len() == 2 && assigned_country_code(j[0], j[1])
}

/// How many distinct admins must approve the release or the rejection of
/// a payment before it takes effect.
pub const REQUIRED_APPROVALS: usize = 2usize;

/// The refusal of `caller`'s approval when `approvers` have approved.
pub open spec fn approval_error(approvers: Seq<Seq<u8>>, caller: Seq<u8>) -> Option<ContractError> {
    if approvers.contains(caller) {
        Some(ContractError::AlreadyApproved)
    } else {
        None
    }
}

/// Whether `approvers` are enough for the decision to take effect.
pub open spec fn approved(approvers: Seq<Seq<u8>>) -> bool {
    approvers.len() >= REQUIRED_APPROVALS
}

/// The refusal of a payment between the VASP entries `from` and `to`, as
/// read from the registry.
pub open spec fn payment_parties_error(
    from: Option<VaspEntryView>,
    to: Option<VaspEntryView>,
) -> Option<ContractError> {
    match (from, to) {
        (None, _) => Some(ContractError::FromVaspNotRegistered),
        (_, None) => Some(ContractError::ToVaspNotRegistered),
        (Some(f), Some(t)) => if f.status != VaspStatus::Active {
            Some(ContractError::FromVaspNotActive)
        } else if t.status != VaspStatus::Active {
            Some(ContractError::ToVaspNotActive)
        } else {
            None
        },
    }
}

/// The status of a new payment of `amount` under the applicable
/// `threshold`: released below it or when there is none, pending at or
/// above it.
pub open spec fn initial_status(amount: i128, threshold: Option<i128>) -> PaymentStatus {
    match threshold {
        Some(t) => if amount < t {
            PaymentStatus::Released
        } else {
            PaymentStatus::Pending
        },
        None => PaymentStatus::Released,
    }
}

/// The registry entry of a newly registered VASP: active, added at `now`.
pub open spec fn registered_entry(
    vasp: Seq<u8>,
    name: Seq<u8>,
    jurisdiction: Seq<u8>,
    public_key: Seq<u8>,
    now: u64,
) -> VaspEntryView {
    VaspEntryView {
        address: vasp,
        name,
        jurisdiction,
        public_key,
        status: VaspStatus::Active,
        added_at: now,
    }
}

/// The record of a payment submitted at `now` under the applicable
/// `threshold`: unattested, and resolved at once when it is released.
pub open spec fn submitted_record(
    id: Seq<u8>,
    from_vasp: Seq<u8>,
    to_vasp: Seq<u8>,
    beneficiary: Seq<u8>,
    asset: Seq<u8>,
    amount: i128,
    threshold: Option<i128>,
    now: u64,
) -> PaymentRecordView {
    let status = initial_status(amount, threshold);
    PaymentRecordView {
        id,
        from_vasp,
        to_vasp,
        beneficiary,
        asset,
        amount,
        status,
        attestation_hash: None,
        ivms_version: None,
        created_at: now,
        resolved_at: if status == PaymentStatus::Released {
            Some(now)
        } else {
            None
        },
    }
}

/// The id of the payment numbered `c`: the eight little-endian bytes of
/// `c` followed by 24 zero bytes.
pub open spec fn payment_id_seq(c: u64) -> Seq<u8> {
    seq![
        c as u8,
        (c >> 8u64) as u8,
        (c >> 16u64) as u8,
        (c >> 24u64) as u8,
        (c >> 32u64) as u8,
        (c >> 40u64) as u8,
        (c >> 48u64) as u8,
        (c >> 56u64) as u8,
    ] + Seq::new(24, |i: int| 0u8)
}

/// The refusal of an attestation by `caller` with `hash` for payment `p`,
/// whose beneficiary and sending VASPs read `to` and `from` in the registry.
pub open spec fn attestation_error(
    p: PaymentRecordView,
    to: Option<VaspEntryView>,
    from: Option<VaspEntryView>,
    caller: Seq<u8>,
    hash: Seq<u8>,
) -> Option<ContractError> {
    if p.status != PaymentStatus::Pending {
        Some(ContractError::PaymentNotPending)
    } else {
        match (to, from) {
            (None, _) => Some(ContractError::ToVaspNotFound),
            (_, None) => Some(ContractError::FromVaspNotFound),
            (Some(t), Some(f)) => if t.status != VaspStatus::Active {
                Some(ContractError::ToVaspNotActive)
            } else if f.status != VaspStatus::Active {
                Some(ContractError::FromVaspNotActive)
            } else if caller != p.to_vasp {
                Some(ContractError::OnlyBeneficiaryCanAttest)
            } else if all_zero(hash) {
                Some(ContractError::EmptyMessageHash)
            } else {
                None
            },
        }
    }
}

/// Payment `p` once attested with `hash` under IVMS101 version `ivms` at
/// time `now`.
pub open spec fn attested(
    p: PaymentRecordView,
    hash: Seq<u8>,
    ivms: Seq<u8>,
    now: u64,
) -> PaymentRecordView {
    PaymentRecordView {
        status: PaymentStatus::Released,
        attestation_hash: Some(hash),
        ivms_version: Some(ivms),
        resolved_at: Some(now),
        ..p
    }
}

/// Payment `p` resolved to `status` at time `now`.
pub open spec fn resolved(p: PaymentRecordView, status: PaymentStatus, now: u64) -> PaymentRecordView {
    PaymentRecordView { status, resolved_at: Some(now), ..p }
}

/// The refusal of an admin release of payment `p`.
pub open spec fn release_error(p: PaymentRecordView) -> Option<ContractError> {
    if p.status == PaymentStatus::Released {
        Some(ContractError::PaymentAlreadyReleased)
    } else {
        None
    }
}

/// The refusal of an admin rejection of payment `p`.
pub open spec fn reject_error(p: PaymentRecordView) -> Option<ContractError> {
    if p.status == PaymentStatus::Rejected {
        Some(ContractError::PaymentAlreadyRejected)
    } else if p.status == PaymentStatus::Released {
        Some(ContractError::CannotRejectReleased)
    } else {
        None
    }
}

/// The view of an optional borrowed VASP entry.
pub open spec fn opt_entry_view(e: Option<&VaspEntry>) -> Option<VaspEntryView> {
    match e {
        Some(x) => Some(x@),
        None => None,
    }
}

/// The storage key of the threshold for `asset` in `jurisdiction`.
pub fn format_threshold_key(asset: &Address, jurisdiction: &Vec<u8>) -> (r: Vec<u8>)
    ensures
        r@ == threshold_key(asset@, jurisdiction@),
{
    let mut r = asset.to_vec();
    r.push(KEY_SEPARATOR);
    let n = jurisdiction.len();
    let mut i: usize = 0;
    while i < n
        invariant
            n == jurisdiction@.len(),
            i <= n,
            r@ == asset@ + seq![KEY_SEPARATOR] + jurisdiction@.subrange(0, i as int),
        decreases n - i,
    {
        r.push(jurisdiction[i]);
        i = i + 1;
        assert(r@ =~= asset@ + seq![KEY_SEPARATOR] + jurisdiction@.subrange(0, i as int));
    }
    assert(jurisdiction@.subrange(0, n as int) =~= jurisdiction@);
    r
}

/// The threshold that `table` holds for `asset` in `jurisdiction`.
pub fn lookup_threshold(table: &ByteMap<i128>, asset: &Address, jurisdiction: &Vec<u8>) -> (r:
    Option<i128>)
    requires
        table.wf(),
    ensures
        r == (if table@.contains_key(threshold_key(asset@, jurisdiction@)) {
            Some(table@[threshold_key(asset@, jurisdiction@)])
        } else {
            None
        }),
{
    let key = format_threshold_key(asset, jurisdiction);
    match table.get(key.as_slice()) {
        Some(t) => Some(*t),
        None => None,
    }
}

/// The jurisdiction of a VASP, which decides the threshold that applies
/// to payments to it.
pub fn jurisdiction_from_vasp(vasp: &VaspEntry) -> (r: Vec<u8>)
    ensures
        r@ == vasp.jurisdiction@,
{
    copy_bytes(&vasp.jurisdiction)
}

/// Whether `caller` may make an admin-only call while `admins` are stored.
pub fn check_admin(admins: &Vec<Address>, caller: &Address, denied: ContractError) -> (r: Result<
    (),
    ContractError,
>)
    ensures
        match r {
            Ok(()) => admin_error(addresses_view(admins@), caller@, denied) is None,
            Err(e) => admin_error(addresses_view(admins@), caller@, denied) == Some(e),
        },
{
    if admins.len() == 0 {
        Err(ContractError::AdminNotSet)
    } else if !contains_address(admins, caller) {
        Err(denied)
    } else {
        Ok(())
    }
}

/// The admins once `admin` is added to `admins`.
pub fn add_admin(admins: &mut Vec<Address>, admin: Address)
    ensures
        addresses_view(final(admins)@) == with_admin(addresses_view(old(admins)@), admin@),
{
    if !contains_address(admins, &admin) {
        admins.push(admin);
        assert(addresses_view(admins@) =~= addresses_view(old(admins)@).push(admin@));
    }
}

/// Whether `first` and `second` spell an assigned ISO 3166-1 alpha-2 code.
pub fn is_assigned_country_code(first: u8, second: u8) -> (r: bool)
    ensures
        r == assigned_country_code(first, second),
{
    match first {
        // AD AE AF AG AI AL AM AO AQ AR AS AT AU AW AX AZ
        65u8 => second == 68u8 || second == 69u8 || second == 70u8 || second == 71u8 || second == 73u8 || second == 76u8
            || second == 77u8 || second == 79u8 || second == 81u8 || second == 82u8 || second == 83u8 || second == 84u8
            || second == 85u8 || second == 87u8 || second == 88u8 || second == 90u8,
        // BA BB BD BE BF BG BH BI BJ BL BM BN BO BQ BR BS BT BV BW BY BZ
        66u8 => second == 65u8 || second == 66u8 || second == 68u8 || second == 69u8 || second == 70u8 || second == 71u8
            || second == 72u8 || second == 73u8 || second == 74u8 || second == 76u8 || second == 77u8 || second == 78u8
            || second == 79u8 || second == 81u8 || second == 82u8 || second == 83u8 || second == 84u8 || second == 86u8
            || second == 87u8 || second == 89u8 || second == 90u8,
        // CA CC CD CF CG CH CI CK CL CM CN CO CR CU CV CW CX CY CZ
        67u8 => second == 65u8 || second == 67u8 || second == 68u8 || second == 70u8 || second == 71u8 || second == 72u8
            || second == 73u8 || second == 75u8 || second == 76u8 || second == 77u8 || second == 78u8 || second == 79u8
            || second == 82u8 || second == 85u8 || second == 86u8 || second == 87u8 || second == 88u8 || second == 89u8
            || second == 90u8,
        // DE DJ DK DM DO DZ
        68u8 => second == 69u8 || second == 74u8 || second == 75u8 || second == 77u8 || second == 79u8 || second == 90u8,
        // EC EE EG EH ER ES ET
        69u8 => second == 67u8 || second == 69u8 || second == 71u8 || second == 72u8 || second == 82u8 || second == 83u8
            || second == 84u8,
        // FI FJ FK FM FO FR
        70u8 => second == 73u8 || second == 74u8 || second == 75u8 || second == 77u8 || second == 79u8 || second == 82u8,
        // GA GB GD GE GF GG GH GI GL GM GN GP GQ GR GS GT GU GW GY
        71u8 => second == 65u8 || second == 66u8 || second == 68u8 || second == 69u8 || second == 70u8 || second == 71u8
            || second == 72u8 || second == 73u8 || second == 76u8 || second == 77u8 || second == 78u8 || second == 80u8
            || second == 81u8 || second == 82u8 || second == 83u8 || second == 84u8 || second == 85u8 || second == 87u8
            || second == 89u8,
        // HK HM HN HR HT HU
        72u8 => second == 75u8 || second == 77u8 || second == 78u8 || second == 82u8 || second == 84u8 || second == 85u8,
        // ID IE IL IM IN IO IQ IR IS IT
        73u8 => second == 68u8 || second == 69u8 || second == 76u8 || second == 77u8 || second == 78u8 || second == 79u8
            || second == 81u8 || second == 82u8 || second == 83u8 || second == 84u8,
        // JE JM JO JP
        74u8 => second == 69u8 || second == 77u8 || second == 79u8 || second == 80u8,
        // KE KG KH KI KM KN KP KR KW KY KZ
        75u8 => second == 69u8 || second == 71u8 || second == 72u8 || second == 73u8 || second == 77u8 || second == 78u8
            || second == 80u8 || second == 82u8 || second == 87u8 || second == 89u8 || second == 90u8,
        // LA LB LC LI LK LR LS LT LU LV LY
        76u8 => second == 65u8 || second == 66u8 || second == 67u8 || second == 73u8 || second == 75u8 || second == 82u8
            || second == 83u8 || second == 84u8 || second == 85u8 || second == 86u8 || second == 89u8,
        // MA MC MD ME MF MG MH MK ML MM MN MO MP MQ MR MS MT MU MV MW MX MY MZ
        77u8 => second == 65u8 || second == 67u8 || second == 68u8 || second == 69u8 || second == 70u8 || second == 71u8
            || second == 72u8 || second == 75u8 || second == 76u8 || second == 77u8 || second == 78u8 || second == 79u8
            || second == 80u8 || second == 81u8 || second == 82u8 || second == 83u8 || second == 84u8 || second == 85u8
            || second == 86u8 || second == 87u8 || second == 88u8 || second == 89u8 || second == 90u8,
        // NA NC NE NF NG NI NL NO NP NR NU NZ
        78u8 => second == 65u8 || second == 67u8 || second == 69u8 || second == 70u8 || second == 71u8 || second == 73u8
            || second == 76u8 || second == 79u8 || second == 80u8 || second == 82u8 || second == 85u8 || second == 90u8,
        // OM
        79u8 => second == 77u8,
        // PA PE PF PG PH PK PL PM PN PR PS PT PW PY
        80u8 => second == 65u8 || second == 69u8 || second == 70u8 || second == 71u8 || second == 72u8 || second == 75u8
            || second == 76u8 || second == 77u8 || second == 78u8 || second == 82u8 || second == 83u8 || second == 84u8
            || second == 87u8 || second == 89u8,
        // QA
        81u8 => second == 65u8,
        // RE RO RS RU RW
        82u8 => second == 69u8 || second == 79u8 || second == 83u8 || second == 85u8 || second == 87u8,
        // SA SB SC SD SE SG SH SI SJ SK SL SM SN SO SR SS ST SV SX SY SZ
        83u8 => second == 65u8 || second == 66u8 || second == 67u8 || second == 68u8 || second == 69u8 || second == 71u8
            || second == 72u8 || second == 73u8 || second == 74u8 || second == 75u8 || second == 76u8 || second == 77u8
            || second == 78u8 || second == 79u8 || second == 82u8 || second == 83u8 || second == 84u8 || second == 86u8
            || second == 88u8 || second == 89u8 || second == 90u8,
        // TC TD TF TG TH TJ TK TL TM TN TO TR TT TV TW TZ
        84u8 => second == 67u8 || second == 68u8 || second == 70u8 || second == 71u8 || second == 72u8 || second == 74u8
            || second == 75u8 || second == 76u8 || second == 77u8 || second == 78u8 || second == 79u8 || second == 82u8
            || second == 84u8 || second == 86u8 || second == 87u8 || second == 90u8,
        // UA UG UM US UY UZ
        85u8 => second == 65u8 || second == 71u8 || second == 77u8 || second == 83u8 || second == 89u8 || second == 90u8,
        // VA VC VE VG VI VN VU
        86u8 => second == 65u8 || second == 67u8 || second == 69u8 || second == 71u8 || second == 73u8 || second == 78u8
            || second == 85u8,
        // WF WS
        87u8 => second == 70u8 || second == 83u8,
        // YE YT
        89u8 => second == 69u8 || second == 84u8,
        // ZA ZM ZW
        90u8 => second == 65u8 || second == 77u8 || second == 87u8,
        _ => false,
    }
}

/// Whether `jurisdiction` is a two-letter ISO 3166-1 country code.
pub fn check_jurisdiction(jurisdiction: &Vec<u8>) -> (r: Result<(), ContractError>)
    ensures
        match r {
            Ok(()) => iso_country_code(jurisdiction@),
            Err(e) => !iso_country_code(jurisdiction@) && e == ContractError::InvalidJurisdiction,
        },
{
    if jurisdiction.len() == 2 && is_assigned_country_code(jurisdiction[0], jurisdiction[1]) {
        Ok(())
    } else {
        Err(ContractError::InvalidJurisdiction)
    }
}

/// The approvers once `caller` approves, or the refusal when it has
/// approved already.
pub fn approve(approvers: &Vec<Address>, caller: &Address) -> (r: Result<Vec<Address>, ContractError>)
    ensures
        match r {
            Ok(v) => approval_error(addresses_view(approvers@), caller@) is None && addresses_view(
                v@,
            ) == addresses_view(approvers@).push(caller@),
            Err(e) => approval_error(addresses_view(approvers@), caller@) == Some(e),
        },
{
    if contains_address(approvers, caller) {
        return Err(ContractError::AlreadyApproved);
    }
    let mut v = copy_addresses(approvers);
    v.push(caller.duplicate());
    assert(addresses_view(v@) =~= addresses_view(approvers@).push(caller@));
    Ok(v)
}

/// Whether `approvers` are enough for the decision to take effect.
pub fn is_approved(approvers: &Vec<Address>) -> (r: bool)
    ensures
        r == approved(addresses_view(approvers@)),
{
    approvers.len() >= REQUIRED_APPROVALS
}

/// Whether a payment may go from the VASP entry `from` to the VASP entry
/// `to`, as read from the registry.
pub fn check_payment_parties(from: Option<&VaspEntry>, to: Option<&VaspEntry>) -> (r: Result<
    (),
    ContractError,
>)
    ensures
        match r {
            Ok(()) => payment_parties_error(opt_entry_view(from), opt_entry_view(to)) is None,
            Err(e) => payment_parties_error(opt_entry_view(from), opt_entry_view(to)) == Some(e),
        },
{
    match from {
        None => Err(ContractError::FromVaspNotRegistered),
        Some(f) => match to {
            None => Err(ContractError::ToVaspNotRegistered),
            Some(t) => if f.status != VaspStatus::Active {
                Err(ContractError::FromVaspNotActive)
            } else if t.status != VaspStatus::Active {
                Err(ContractError::ToVaspNotActive)
            } else {
                Ok(())
            },
        },
    }
}

/// The status of a new payment of `amount` under the applicable threshold.
pub fn payment_status_for(amount: i128, threshold: Option<i128>) -> (r: PaymentStatus)
    ensures
        r == initial_status(amount, threshold),
{
    match threshold {
        Some(t) => if amount < t {
            PaymentStatus::Released
        } else {
            PaymentStatus::Pending
        },
        None => PaymentStatus::Released,
    }
}

/// The registry entry of `vasp`, newly registered at `now`.
pub fn new_vasp_entry(
    vasp: Address,
    name: Vec<u8>,
    jurisdiction: Vec<u8>,
    public_key: Bytes32,
    now: u64,
) -> (r: VaspEntry)
    ensures
        r@ == registered_entry(vasp@, name@, jurisdiction@, public_key@, now),
{
    VaspEntry { address: vasp, name, jurisdiction, public_key, status: VaspStatus::Active, added_at: now }
}

/// The registry entry `entry` with its status set to `status`.
pub fn with_status(entry: &VaspEntry, status: VaspStatus) -> (r: VaspEntry)
    ensures
        r@ == (VaspEntryView { status, ..entry@ }),
{
    let mut r = entry.duplicate();
    r.status = status;
    r
}

/// The record of payment `id` of `amount` of `asset` from `from_vasp` to
/// `to_vasp` for `beneficiary`, submitted at `now` under `threshold`.
pub fn new_payment_record(
    id: Bytes32,
    from_vasp: Address,
    to_vasp: Address,
    beneficiary: Address,
    asset: Address,
    amount: i128,
    threshold: Option<i128>,
    now: u64,
) -> (r: PaymentRecord)
    ensures
        r@ == submitted_record(
            id@,
            from_vasp@,
            to_vasp@,
            beneficiary@,
            asset@,
            amount,
            threshold,
            now,
        ),
{
    let status = payment_status_for(amount, threshold);
    PaymentRecord {
        id,
        from_vasp,
        to_vasp,
        beneficiary,
        asset,
        amount,
        status,
        attestation_hash: None,
        ivms_version: None,
        created_at: now,
        resolved_at: if status == PaymentStatus::Released {
            Some(now)
        } else {
            None
        },
    }
}

/// The id of the payment numbered `counter`.
pub fn payment_id_for(counter: u64) -> (r: Bytes32)
    ensures
        r@ == payment_id_seq(counter),
{
    let mut id: Bytes32 = [0u8; 32];
    id[0] = counter as u8;
    id[1] = (counter >> 8u64) as u8;
    id[2] = (counter >> 16u64) as u8;
    id[3] = (counter >> 24u64) as u8;
    id[4] = (counter >> 32u64) as u8;
    id[5] = (counter >> 40u64) as u8;
    id[6] = (counter >> 48u64) as u8;
    id[7] = (counter >> 56u64) as u8;
    assert(id@ =~= payment_id_seq(counter));
    id
}

/// The payment counter after issuing the id of payment number `counter`.
pub fn advance_counter(counter: u64) -> (r: Result<u64, ContractError>)
    ensures
        match r {
            Ok(next) => counter < u64::MAX && next == counter + 1,
            Err(e) => counter == u64::MAX && e == ContractError::CounterOverflow,
        },
{
    if counter == u64::MAX {
        Err(ContractError::CounterOverflow)
    } else {
        Ok(counter + 1)
    }
}

/// The id of the next payment and the payment counter after it, or the
/// refusal when the counter cannot be advanced.
pub fn generate_payment_id(counter: u64) -> (r: Result<(Bytes32, u64), ContractError>)
    ensures
        match r {
            Ok((id, next)) => counter < u64::MAX && id@ == payment_id_seq(counter) && next == counter
                + 1,
            Err(e) => counter == u64::MAX && e == ContractError::CounterOverflow,
        },
{
    let next = advance_counter(counter)?;
    Ok((payment_id_for(counter), next))
}

/// The first eight bytes of the id of payment number `c`.
proof fn lemma_payment_id_bytes(c: u64)
    ensures
        payment_id_seq(c)[0] == c as u8,
        payment_id_seq(c)[1] == (c >> 8u64) as u8,
        payment_id_seq(c)[2] == (c >> 16u64) as u8,
        payment_id_seq(c)[3] == (c >> 24u64) as u8,
        payment_id_seq(c)[4] == (c >> 32u64) as u8,
        payment_id_seq(c)[5] == (c >> 40u64) as u8,
        payment_id_seq(c)[6] == (c >> 48u64) as u8,
        payment_id_seq(c)[7] == (c >> 56u64) as u8,
{
}

/// Distinct payment numbers give distinct payment ids.
pub proof fn lemma_payment_id_injective(c1: u64, c2: u64)
    requires
        payment_id_seq(c1) == payment_id_seq(c2),
    ensures
        c1 == c2,
{
    let s1 = payment_id_seq(c1);
    let s2 = payment_id_seq(c2);
    lemma_payment_id_bytes(c1);
    lemma_payment_id_bytes(c2);
    assert(s1[0] == s2[0] && s1[1] == s2[1] && s1[2] == s2[2] && s1[3] == s2[3]);
    assert(s1[4] == s2[4] && s1[5] == s2[5] && s1[6] == s2[6] && s1[7] == s2[7]);
    assert((c1 as u8 == c2 as u8 && (c1 >> 8u64) as u8 == (c2 >> 8u64) as u8 && (c1 >> 16u64) as u8
        == (c2 >> 16u64) as u8 && (c1 >> 24u64) as u8 == (c2 >> 24u64) as u8 && (c1 >> 32u64) as u8
        == (c2 >> 32u64) as u8 && (c1 >> 40u64) as u8 == (c2 >> 40u64) as u8 && (c1 >> 48u64) as u8
        == (c2 >> 48u64) as u8 && (c1 >> 56u64) as u8 == (c2 >> 56u64) as u8) ==> c1 == c2)
        by (bit_vector);
}

/// Payment `payment`, attested by `caller` with `message_hash` under
/// IVMS101 version `ivms_version` at time `now`; `to_entry` and
/// `from_entry` are what the registry holds for its two VASPs.
pub fn attest(
    payment: &PaymentRecord,
    to_entry: Option<&VaspEntry>,
    from_entry: Option<&VaspEntry>,
    caller: &Address,
    message_hash: Bytes32,
    ivms_version: Vec<u8>,
    now: u64,
) -> (r: Result<PaymentRecord, ContractError>)
    ensures
        match r {
            Ok(q) => {
                &&& attestation_error(
                    payment@,
                    opt_entry_view(to_entry),
                    opt_entry_view(from_entry),
                    caller@,
                    message_hash@,
                ) is None
                &&& q@ == attested(payment@, message_hash@, ivms_version@, now)
            },
            Err(e) => attestation_error(
                payment@,
                opt_entry_view(to_entry),
                opt_entry_view(from_entry),
                caller@,
                message_hash@,
            ) == Some(e),
        },
{
    if payment.status != PaymentStatus::Pending {
        return Err(ContractError::PaymentNotPending);
    }
    let t = match to_entry {
        None => {
            return Err(ContractError::ToVaspNotFound);
        },
        Some(t) => t,
    };
    let f = match from_entry {
        None => {
            return Err(ContractError::FromVaspNotFound);
        },
        Some(f) => f,
    };
    if t.status != VaspStatus::Active {
        return Err(ContractError::ToVaspNotActive);
    }
    if f.status != VaspStatus::Active {
        return Err(ContractError::FromVaspNotActive);
    }
    if !caller.same_as(&payment.to_vasp) {
        return Err(ContractError::OnlyBeneficiaryCanAttest);
    }
    if is_all_zero(&message_hash) {
        return Err(ContractError::EmptyMessageHash);
    }
    let mut q = payment.duplicate();
    q.status = PaymentStatus::Released;
    q.attestation_hash = Some(message_hash);
    q.ivms_version = Some(ivms_version);
    q.resolved_at = Some(now);
    Ok(q)
}

/// Payment `payment`, released by the admins at time `now`.
pub fn release(payment: &PaymentRecord, now: u64) -> (r: Result<PaymentRecord, ContractError>)
    ensures
        match r {
            Ok(q) => release_error(payment@) is None && q@ == resolved(
                payment@,
                PaymentStatus::Released,
                now,
            ),
            Err(e) => release_error(payment@) == Some(e),
        },
{
    if payment.status == PaymentStatus::Released {
        return Err(ContractError::PaymentAlreadyReleased);
    }
    let mut q = payment.duplicate();
    q.status = PaymentStatus::Released;
    q.resolved_at = Some(now);
    Ok(q)
}

/// Payment `payment`, rejected by the admins at time `now`.
pub fn reject(payment: &PaymentRecord, now: u64) -> (r: Result<PaymentRecord, ContractError>)
    ensures
        match r {
            Ok(q) => reject_error(payment@) is None && q@ == resolved(
                payment@,
                PaymentStatus::Rejected,
                now,
            ),
            Err(e) => reject_error(payment@) == Some(e),
        },
{
    if payment.status == PaymentStatus::Rejected {
        return Err(ContractError::PaymentAlreadyRejected);
    }
    if payment.status == PaymentStatus::Released {
        return Err(ContractError::CannotRejectReleased);
    }
    let mut q = payment.duplicate();
    q.status = PaymentStatus::Rejected;
    q.resolved_at = Some(now);
    Ok(q)
}

} // verus!
