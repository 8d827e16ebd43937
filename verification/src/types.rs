//! The records that the contract keeps: VASP entries, threshold
//! configurations and payment records, with their mathematical views.

use vstd::prelude::*;

use crate::bytes::bytes_eq;

verus! {

/// A Stellar address (an account or a contract), held as the bytes of its
/// strkey text (`G...` or `C...`).
#[derive(Debug, PartialEq, Eq)]
pub struct Address {
    strkey: Vec<u8>,
}

impl View for Address {
    type V = Seq<u8>;

    closed spec fn view(&self) -> Seq<u8> {
        self.strkey@
    }
}

/// Whether `c` is in the base-32 alphabet of strkeys (`A`-`Z`, `2`-`7`).
pub open spec fn is_base32_char(c: u8) -> bool {
    (65 <= c <= 90) || (50 <= c <= 55)
}

/// Whether `s` has the shape of the strkey of an account (`G...`) or a
/// contract (`C...`): 56 characters of the base-32 alphabet.
pub open spec fn strkey_shaped(s: Seq<u8>) -> bool {
    &&& s.len() == 56
    &&& (s[0] == 71 || s[0] == 67)
    &&& forall|i: int| 0 <= i < s.len() ==> is_base32_char(#[trigger] s[i])
}

/// Whether the bytes have the shape of an account or contract strkey.
pub fn is_strkey_shaped(s: &[u8]) -> (r: bool)
    ensures
        r == strkey_shaped(s@),
{
    if s.len() != 56 {
        return false;
    }
    if s[0] != 71 && s[0] != 67 {
        return false;
    }
    let mut i: usize = 0;
    while i < 56
        invariant
            s@.len() == 56,
            i <= 56,
            forall|j: int| 0 <= j < i ==> is_base32_char(#[trigger] s@[j]),
        decreases 56 - i,
    {
        let c = s[i];
        if !((65 <= c && c <= 90) || (50 <= c && c <= 55)) {
            return false;
        }
        i = i + 1;
    }
    true
}

/// A fixed 32-byte value: a public key, a payment id or a message hash.
pub type Bytes32 = [u8; 32];

/// The view of an optional byte string.
pub open spec fn opt_bytes_view(b: Option<Vec<u8>>) -> Option<Seq<u8>> {
    match b {
        Some(x) => Some(x@),
        None => None,
    }
}

/// The view of an optional 32-byte value.
pub open spec fn opt_bytes32_view(b: Option<Bytes32>) -> Option<Seq<u8>> {
    match b {
        Some(x) => Some(x@),
        None => None,
    }
}

/// A copy of a byte vector.
pub fn copy_bytes(v: &Vec<u8>) -> (r: Vec<u8>)
    ensures
        r@ == v@,
{
    let r = v.clone();
    assert(r@ =~= v@);
    r
}

impl Address {
    /// Every address has the shape of a strkey.
    #[verifier::type_invariant]
    spec fn strkey_inv(self) -> bool {
        strkey_shaped(self.strkey@)
    }

    /// The address whose strkey text is `strkey`, or `None` when the bytes
    /// are not shaped as an account or contract strkey.
    pub fn new(strkey: Vec<u8>) -> (r: Option<Address>)
        ensures
            r is Some <==> strkey_shaped(strkey@),
            r matches Some(a) ==> a@ == strkey@,
    {
        if is_strkey_shaped(strkey.as_slice()) {
            Some(Address { strkey })
        } else {
            None
        }
    }

    /// The strkey text of this address.
    pub fn as_bytes(&self) -> (r: &[u8])
        ensures
            r@ == self@,
            strkey_shaped(self@),
    {
        proof {
            use_type_invariant(self);
        }
        self.strkey.as_slice()
    }

    /// A copy of this address.
    pub fn duplicate(&self) -> (r: Address)
        ensures
            r@ == self@,
    {
        proof {
            use_type_invariant(self);
        }
        Address { strkey: copy_bytes(&self.strkey) }
    }

    /// A fresh vector holding the strkey text of this address.
    pub fn to_vec(&self) -> (r: Vec<u8>)
        ensures
            r@ == self@,
    {
        copy_bytes(&self.strkey)
    }

    /// Whether two addresses are the same.
    pub fn same_as(&self, other: &Address) -> (r: bool)
        ensures
            r == (self@ == other@),
    {
        bytes_eq(self.strkey.as_slice(), other.strkey.as_slice())
    }
}

impl Clone for Address {
    /// A copy of this address.
    fn clone(&self) -> (r: Address)
        ensures
            r@ == self@,
    {
        self.duplicate()
    }
}

/// Whether `a` is among `list`.
pub fn contains_address(list: &Vec<Address>, a: &Address) -> (r: bool)
    ensures
        r == addresses_view(list@).contains(a@),
{
    let n = list.len();
    let mut i: usize = 0;
    while i < n
        invariant
            n == list@.len(),
            i <= n,
            forall|j: int| 0 <= j < i ==> list@[j]@ != a@,
        decreases n - i,
    {
        if list[i].same_as(a) {
            assert(addresses_view(list@)[i as int] == a@);
            return true;
        }
        i = i + 1;
    }
    proof {
        if addresses_view(list@).contains(a@) {
            let j = choose|j: int| 0 <= j < n && addresses_view(list@)[j] == a@;
            assert(list@[j]@ == a@);
        }
    }
    false
}

/// The views of a list of addresses.
pub open spec fn addresses_view(list: Seq<Address>) -> Seq<Seq<u8>> {
    list.map_values(|a: Address| a@)
}

/// A copy of a list of addresses.
pub fn copy_addresses(list: &Vec<Address>) -> (r: Vec<Address>)
    ensures
        addresses_view(r@) == addresses_view(list@),
{
    let mut r: Vec<Address> = Vec::new();
    let n = list.len();
    let mut i: usize = 0;
    while i < n
        invariant
            n == list@.len(),
            i <= n,
            r@.len() == i,
            forall|j: int| 0 <= j < i ==> #[trigger] r@[j]@ == list@[j]@,
        decreases n - i,
    {
        r.push(list[i].duplicate());
        i = i + 1;
    }
    assert(addresses_view(r@) =~= addresses_view(list@));
    r
}

/// The admins' approvals of an admin decision on one payment.
#[derive(Clone, Debug)]
pub struct Approvals {
    /// The admins who have approved releasing the payment.
    pub release: Vec<Address>,
    /// The admins who have approved rejecting the payment.
    pub reject: Vec<Address>,
}

/// The mathematical view of [`Approvals`].
pub struct ApprovalsView {
    pub release: Seq<Seq<u8>>,
    pub reject: Seq<Seq<u8>>,
}

impl View for Approvals {
    type V = ApprovalsView;

    open spec fn view(&self) -> ApprovalsView {
        ApprovalsView {
            release: addresses_view(self.release@),
            reject: addresses_view(self.reject@),
        }
    }
}

/// No approvals yet.
pub open spec fn no_approvals() -> ApprovalsView {
    ApprovalsView { release: Seq::empty(), reject: Seq::empty() }
}

impl Approvals {
    /// No approvals yet.
    pub fn new() -> (r: Approvals)
        ensures
            r@ == no_approvals(),
    {
        let r = Approvals { release: Vec::new(), reject: Vec::new() };
        assert(r@.release =~= Seq::<Seq<u8>>::empty());
        assert(r@.reject =~= Seq::<Seq<u8>>::empty());
        r
    }

    /// A copy of these approvals.
    pub fn duplicate(&self) -> (r: Approvals)
        ensures
            r@ == self@,
    {
        Approvals { release: copy_addresses(&self.release), reject: copy_addresses(&self.reject) }
    }
}

/// The standing of a VASP in the registry.
#[derive(Clone, Copy, PartialEq, Eq, Debug, Structural)]
pub enum VaspStatus {
    Active,
    Suspended,
    Revoked,
}

/// A registered Virtual Asset Service Provider.
#[derive(Clone, Debug)]
pub struct VaspEntry {
    pub address: Address,
    pub name: Vec<u8>,
    pub jurisdiction: Vec<u8>,
    pub public_key: Bytes32,
    pub status: VaspStatus,
    pub added_at: u64,
}

/// The mathematical view of a [`VaspEntry`].
pub struct VaspEntryView {
    pub address: Seq<u8>,
    pub name: Seq<u8>,
    pub jurisdiction: Seq<u8>,
    pub public_key: Seq<u8>,
    pub status: VaspStatus,
    pub added_at: u64,
}

impl View for VaspEntry {
    type V = VaspEntryView;

    open spec fn view(&self) -> VaspEntryView {
        VaspEntryView {
            address: self.address@,
            name: self.name@,
            jurisdiction: self.jurisdiction@,
            public_key: self.public_key@,
            status: self.status,
            added_at: self.added_at,
        }
    }
}

impl VaspEntry {
    /// A copy of this entry.
    pub fn duplicate(&self) -> (r: VaspEntry)
        ensures
            r@ == self@,
    {
        VaspEntry {
            address: self.address.duplicate(),
            name: copy_bytes(&self.name),
            jurisdiction: copy_bytes(&self.jurisdiction),
            public_key: self.public_key,
            status: self.status,
            added_at: self.added_at,
        }
    }
}

/// A compliance threshold for one asset in one jurisdiction.
#[derive(Clone, Debug)]
pub struct ThresholdConfig {
    pub asset: Address,
    pub jurisdiction: Vec<u8>,
    pub threshold_amount: i128,
}

/// Where a payment stands in the escrow.
#[derive(Clone, Copy, PartialEq, Eq, Debug, Structural)]
pub enum PaymentStatus {
    Pending,
    Released,
    Held,
    Rejected,
}

/// A payment between two VASPs.
#[derive(Clone, Debug)]
pub struct PaymentRecord {
    pub id: Bytes32,
    pub from_vasp: Address,
    pub to_vasp: Address,
    pub beneficiary: Address,
    pub asset: Address,
    pub amount: i128,
    pub status: PaymentStatus,
    pub attestation_hash: Option<Bytes32>,
    pub ivms_version: Option<Vec<u8>>,
    pub created_at: u64,
    pub resolved_at: Option<u64>,
}

/// The mathematical view of a [`PaymentRecord`].
pub struct PaymentRecordView {
    pub id: Seq<u8>,
    pub from_vasp: Seq<u8>,
    pub to_vasp: Seq<u8>,
    pub beneficiary: Seq<u8>,
    pub asset: Seq<u8>,
    pub amount: i128,
    pub status: PaymentStatus,
    pub attestation_hash: Option<Seq<u8>>,
    pub ivms_version: Option<Seq<u8>>,
    pub created_at: u64,
    pub resolved_at: Option<u64>,
}

impl View for PaymentRecord {
    type V = PaymentRecordView;

    open spec fn view(&self) -> PaymentRecordView {
        PaymentRecordView {
            id: self.id@,
            from_vasp: self.from_vasp@,
            to_vasp: self.to_vasp@,
            beneficiary: self.beneficiary@,
            asset: self.asset@,
            amount: self.amount,
            status: self.status,
            attestation_hash: opt_bytes32_view(self.attestation_hash),
            ivms_version: opt_bytes_view(self.ivms_version),
            created_at: self.created_at,
            resolved_at: self.resolved_at,
        }
    }
}

impl PaymentRecord {
    /// A copy of this record.
    pub fn duplicate(&self) -> (r: PaymentRecord)
        ensures
            r@ == self@,
    {
        let ivms_version = match &self.ivms_version {
            Some(v) => Some(copy_bytes(v)),
            None => None,
        };
        PaymentRecord {
            id: self.id,
            from_vasp: self.from_vasp.duplicate(),
            to_vasp: self.to_vasp.duplicate(),
            beneficiary: self.beneficiary.duplicate(),
            asset: self.asset.duplicate(),
            amount: self.amount,
            status: self.status,
            attestation_hash: self.attestation_hash,
            ivms_version,
            created_at: self.created_at,
            resolved_at: self.resolved_at,
        }
    }
}

/// Why the contract refused a call; each variant is one of the contract's
/// refusals.
#[derive(Clone, Copy, PartialEq, Eq, Debug, Structural)]
pub enum ContractError {
    /// No admin has been added.
    AdminNotSet,
    /// The caller of an admin operation is not an admin.
    Unauthorized,
    /// A payment release approved by someone who is not an admin.
    OnlyAdminCanRelease,
    /// A payment rejection approved by someone who is not an admin.
    OnlyAdminCanReject,
    /// A status update for a VASP that is not registered.
    VaspNotFound,
    /// A payment from a VASP that is not registered.
    FromVaspNotRegistered,
    /// A payment to a VASP that is not registered.
    ToVaspNotRegistered,
    /// The sending VASP is not active.
    FromVaspNotActive,
    /// The beneficiary VASP is not active.
    ToVaspNotActive,
    /// No payment has the given id.
    PaymentNotFound,
    /// An attestation for a payment that is not pending.
    PaymentNotPending,
    /// The beneficiary VASP of the payment is no longer registered.
    ToVaspNotFound,
    /// The sending VASP of the payment is no longer registered.
    FromVaspNotFound,
    /// An attestation by a VASP other than the payment's beneficiary VASP.
    OnlyBeneficiaryCanAttest,
    /// An attestation whose message hash is all zeros.
    EmptyMessageHash,
    /// A release of a payment that is already released.
    PaymentAlreadyReleased,
    /// A rejection of a payment that is already rejected.
    PaymentAlreadyRejected,
    /// A rejection of a payment that is already released.
    CannotRejectReleased,
    /// An admin approving a release or rejection that it has approved already.
    AlreadyApproved,
    /// A jurisdiction that is not a two-letter ISO country code.
    InvalidJurisdiction,
    /// The payment counter cannot be advanced any further.
    CounterOverflow,
    /// A first admin for a contract that has admins already.
    AlreadyInitialized,
}

/// What the contract publishes after each change of its state.
#[derive(Clone, Debug)]
pub enum Event {
    AdminAdded { admin: Address },
    VaspRegistered { vasp: Address },
    VaspUpdated { vasp: Address },
    ThresholdSet { asset: Address },
    PaymentSubmitted { payment_id: Bytes32 },
    AttestationSubmitted { payment_id: Bytes32 },
    PaymentReleased { payment_id: Bytes32, reason: Vec<u8> },
    PaymentRejected { payment_id: Bytes32, reason: Vec<u8> },
    ReleaseApproved { payment_id: Bytes32, admin: Address, reason: Vec<u8> },
    RejectApproved { payment_id: Bytes32, admin: Address, reason: Vec<u8> },
}

/// The mathematical view of an [`Event`].
pub enum EventView {
    AdminAdded { admin: Seq<u8> },
    VaspRegistered { vasp: Seq<u8> },
    VaspUpdated { vasp: Seq<u8> },
    ThresholdSet { asset: Seq<u8> },
    PaymentSubmitted { payment_id: Seq<u8> },
    AttestationSubmitted { payment_id: Seq<u8> },
    PaymentReleased { payment_id: Seq<u8>, reason: Seq<u8> },
    PaymentRejected { payment_id: Seq<u8>, reason: Seq<u8> },
    ReleaseApproved { payment_id: Seq<u8>, admin: Seq<u8>, reason: Seq<u8> },
    RejectApproved { payment_id: Seq<u8>, admin: Seq<u8>, reason: Seq<u8> },
}

impl View for Event {
    type V = EventView;

    open spec fn view(&self) -> EventView {
        match self {
            Event::AdminAdded { admin } => EventView::AdminAdded { admin: admin@ },
            Event::VaspRegistered { vasp } => EventView::VaspRegistered { vasp: vasp@ },
            Event::VaspUpdated { vasp } => EventView::VaspUpdated { vasp: vasp@ },
            Event::ThresholdSet { asset } => EventView::ThresholdSet { asset: asset@ },
            Event::PaymentSubmitted { payment_id } => EventView::PaymentSubmitted {
                payment_id: payment_id@,
            },
            Event::AttestationSubmitted { payment_id } => EventView::AttestationSubmitted {
                payment_id: payment_id@,
            },
            Event::PaymentReleased { payment_id, reason } => EventView::PaymentReleased {
                payment_id: payment_id@,
                reason: reason@,
            },
            Event::PaymentRejected { payment_id, reason } => EventView::PaymentRejected {
                payment_id: payment_id@,
                reason: reason@,
            },
            Event::ReleaseApproved { payment_id, admin, reason } => EventView::ReleaseApproved {
                payment_id: payment_id@,
                admin: admin@,
                reason: reason@,
            },
            Event::RejectApproved { payment_id, admin, reason } => EventView::RejectApproved {
                payment_id: payment_id@,
                admin: admin@,
                reason: reason@,
            },
        }
    }
}

} // verus!
