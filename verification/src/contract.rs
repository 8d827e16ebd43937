//! The compliance contract over its environment: the ledger time, the
//! contract's instance storage and the events it has published.

use vstd::prelude::*;

use crate::bytemap::ByteMap;
use crate::rules::{
    lemma_payment_id_injective, lookup_threshold, payment_id_seq, threshold_key, with_admin,
};
use crate::steps::{
    initialize_outcome, initialize_step, opt_record_view, payment_threshold_key, register_vasp_outcome,
    register_vasp_step, reject_payment_outcome, reject_payment_step, release_payment_outcome,
    release_payment_step, set_admin_outcome, set_admin_step, set_threshold_outcome,
    set_threshold_step, submit_attestation_outcome, submit_attestation_step,
    submit_payment_outcome, submit_payment_step, update_vasp_status_outcome,
    update_vasp_status_step,
};
use crate::types::{
    addresses_view, copy_addresses, no_approvals, Address, Approvals, ApprovalsView, Bytes32,
    ContractError, Event, EventView, PaymentRecord, PaymentRecordView, VaspEntry, VaspEntryView,
    VaspStatus,
};

verus! {

/// The mathematical view of an [`Env`].
pub struct EnvView {
    /// The ledger time, in seconds.
    pub timestamp: u64,
    /// The admins' addresses, in the order they were added.
    pub admins: Seq<Seq<u8>>,
    /// The VASP registry, by address.
    pub vasps: Map<Seq<u8>, VaspEntryView>,
    /// The thresholds, by threshold key.
    pub thresholds: Map<Seq<u8>, i128>,
    /// The payments, by payment id.
    pub payments: Map<Seq<u8>, PaymentRecordView>,
    /// The admins' pending approvals, by payment id.
    pub approvals: Map<Seq<u8>, ApprovalsView>,
    /// How many payment ids have been issued.
    pub counter: u64,
    /// The events published so far, oldest first.
    pub events: Seq<EventView>,
}

impl EnvView {
    /// This state with `e` published.
    pub open spec fn emit(self, e: EventView) -> EnvView {
        EnvView { events: self.events.push(e), ..self }
    }

    /// The registry entry of `vasp`.
    pub open spec fn get_vasp(self, vasp: Seq<u8>) -> Option<VaspEntryView> {
        if self.vasps.contains_key(vasp) {
            Some(self.vasps[vasp])
        } else {
            None
        }
    }

    /// The threshold set for `asset` in `jurisdiction`.
    pub open spec fn get_threshold(self, asset: Seq<u8>, jurisdiction: Seq<u8>) -> Option<i128> {
        let key = threshold_key(asset, jurisdiction);
        if self.thresholds.contains_key(key) {
            Some(self.thresholds[key])
        } else {
            None
        }
    }

    /// The payment with id `payment_id`.
    pub open spec fn get_payment(self, payment_id: Seq<u8>) -> Option<PaymentRecordView> {
        if self.payments.contains_key(payment_id) {
            Some(self.payments[payment_id])
        } else {
            None
        }
    }

    /// The admins' pending approvals for payment `payment_id`.
    pub open spec fn approvals_of(self, payment_id: Seq<u8>) -> ApprovalsView {
        if self.approvals.contains_key(payment_id) {
            self.approvals[payment_id]
        } else {
            no_approvals()
        }
    }

    /// Every pending approval is by an admin, and no admin approves the same
    /// decision twice.
    pub open spec fn approvals_sound(self) -> bool {
        forall|k: Seq<u8>| #[trigger]
            self.approvals.contains_key(k) ==> {
                &&& self.approvals[k].release.no_duplicates()
                &&& self.approvals[k].reject.no_duplicates()
                &&& forall|i: int|
                    0 <= i < self.approvals[k].release.len() ==> self.admins.contains(
                        #[trigger] self.approvals[k].release[i],
                    )
                &&& forall|i: int|
                    0 <= i < self.approvals[k].reject.len() ==> self.admins.contains(
                        #[trigger] self.approvals[k].reject[i],
                    )
            }
    }

    /// What every reachable state keeps: records under their own keys,
    /// payment ids that were issued, approvals by admins only.
    pub open spec fn sound(self) -> bool {
        &&& self.ids_issued()
        &&& self.entries_keyed()
        &&& self.approvals_sound()
    }

    /// Every stored payment sits under its own id, and every id was issued
    /// from a payment number below the counter.
    pub open spec fn ids_issued(self) -> bool {
        forall|k: Seq<u8>| #[trigger]
            self.payments.contains_key(k) ==> {
                &&& self.payments[k].id == k
                &&& exists|c: u64| c < self.counter && #[trigger] payment_id_seq(c) == k
            }
    }

    /// Every registry entry sits under its own address.
    pub open spec fn entries_keyed(self) -> bool {
        forall|k: Seq<u8>| #[trigger] self.vasps.contains_key(k) ==> self.vasps[k].address == k
    }

    /// The state after `admin` becomes the first admin, or the refusal.
    pub open spec fn initialize(self, admin: Seq<u8>) -> Result<EnvView, ContractError> {
        match initialize_outcome(self.admins, admin) {
            Err(e) => Err(e),
            Ok((admins, ev)) => Ok(EnvView { admins, ..self }.emit(ev)),
        }
    }

    /// The state after `caller` adds `admin` to the admins, or the refusal.
    pub open spec fn set_admin(self, caller: Seq<u8>, admin: Seq<u8>) -> Result<EnvView, ContractError> {
        match set_admin_outcome(self.admins, caller, admin) {
            Err(e) => Err(e),
            Ok((admins, ev)) => Ok(EnvView { admins, ..self }.emit(ev)),
        }
    }

    /// The state after `caller` registers `vasp`, or the refusal.
    pub open spec fn register_vasp(
        self,
        caller: Seq<u8>,
        vasp: Seq<u8>,
        name: Seq<u8>,
        jurisdiction: Seq<u8>,
        public_key: Seq<u8>,
    ) -> Result<EnvView, ContractError> {
        match register_vasp_outcome(
            self.admins,
            caller,
            vasp,
            name,
            jurisdiction,
            public_key,
            self.timestamp,
        ) {
            Err(e) => Err(e),
            Ok((entry, ev)) => Ok(EnvView { vasps: self.vasps.insert(vasp, entry), ..self }.emit(ev)),
        }
    }

    /// The state after `caller` sets the status of `vasp`, or the refusal.
    pub open spec fn update_vasp_status(
        self,
        caller: Seq<u8>,
        vasp: Seq<u8>,
        status: VaspStatus,
    ) -> Result<EnvView, ContractError> {
        match update_vasp_status_outcome(self.admins, caller, self.get_vasp(vasp), vasp, status) {
            Err(e) => Err(e),
            Ok((entry, ev)) => Ok(EnvView { vasps: self.vasps.insert(vasp, entry), ..self }.emit(ev)),
        }
    }

    /// The state after `caller` sets the threshold for `asset` in
    /// `jurisdiction` to `amount`, or the refusal.
    pub open spec fn set_threshold(
        self,
        caller: Seq<u8>,
        asset: Seq<u8>,
        jurisdiction: Seq<u8>,
        amount: i128,
    ) -> Result<EnvView, ContractError> {
        match set_threshold_outcome(self.admins, caller, asset, jurisdiction, amount) {
            Err(e) => Err(e),
            Ok((key, value, ev)) => Ok(
                EnvView { thresholds: self.thresholds.insert(key, value), ..self }.emit(ev),
            ),
        }
    }

    /// The state after a payment of `amount` of `asset` from `from_vasp` to
    /// `to_vasp` for `beneficiary` is submitted, with the payment's id, or
    /// the refusal.
    pub open spec fn submit_payment(
        self,
        from_vasp: Seq<u8>,
        to_vasp: Seq<u8>,
        beneficiary: Seq<u8>,
        asset: Seq<u8>,
        amount: i128,
    ) -> Result<(EnvView, Seq<u8>), ContractError> {
        match submit_payment_outcome(
            self.get_vasp(from_vasp),
            self.get_vasp(to_vasp),
            self.counter,
            self.get_threshold(asset, self.vasps[to_vasp].jurisdiction),
            from_vasp,
            to_vasp,
            beneficiary,
            asset,
            amount,
            self.timestamp,
        ) {
            Err(e) => Err(e),
            Ok((record, counter, ev)) => Ok(
                (
                    EnvView {
                        payments: self.payments.insert(record.id, record),
                        counter,
                        ..self
                    }.emit(ev),
                    record.id,
                ),
            ),
        }
    }

    /// The state after `caller` attests payment `payment_id` with `hash`
    /// under IVMS101 version `ivms`, or the refusal.
    pub open spec fn submit_attestation(
        self,
        caller: Seq<u8>,
        payment_id: Seq<u8>,
        hash: Seq<u8>,
        ivms: Seq<u8>,
    ) -> Result<EnvView, ContractError> {
        let p = self.payments[payment_id];
        match submit_attestation_outcome(
            self.get_payment(payment_id),
            self.get_vasp(p.to_vasp),
            self.get_vasp(p.from_vasp),
            caller,
            payment_id,
            hash,
            ivms,
            self.timestamp,
        ) {
            Err(e) => Err(e),
            Ok((record, ev)) => Ok(
                EnvView { payments: self.payments.insert(payment_id, record), ..self }.emit(ev),
            ),
        }
    }

    /// This state with the record `record`, if any, stored under
    /// `payment_id`, and the approvals `a` stored for it.
    pub open spec fn with_decision(
        self,
        payment_id: Seq<u8>,
        record: Option<PaymentRecordView>,
        a: ApprovalsView,
    ) -> EnvView {
        EnvView {
            payments: match record {
                Some(r) => self.payments.insert(payment_id, r),
                None => self.payments,
            },
            approvals: self.approvals.insert(payment_id, a),
            ..self
        }
    }

    /// The state after `caller` approves releasing payment `payment_id` for
    /// `reason`, or the refusal.
    pub open spec fn release_payment(
        self,
        caller: Seq<u8>,
        payment_id: Seq<u8>,
        reason: Seq<u8>,
    ) -> Result<EnvView, ContractError> {
        match release_payment_outcome(
            self.admins,
            self.get_payment(payment_id),
            self.approvals_of(payment_id),
            caller,
            payment_id,
            reason,
            self.timestamp,
        ) {
            Err(e) => Err(e),
            Ok((record, a, ev)) => Ok(self.with_decision(payment_id, record, a).emit(ev)),
        }
    }

    /// The state after `caller` approves rejecting payment `payment_id` for
    /// `reason`, or the refusal.
    pub open spec fn reject_payment(
        self,
        caller: Seq<u8>,
        payment_id: Seq<u8>,
        reason: Seq<u8>,
    ) -> Result<EnvView, ContractError> {
        match reject_payment_outcome(
            self.admins,
            self.get_payment(payment_id),
            self.approvals_of(payment_id),
            caller,
            payment_id,
            reason,
            self.timestamp,
        ) {
            Err(e) => Err(e),
            Ok((record, a, ev)) => Ok(self.with_decision(payment_id, record, a).emit(ev)),
        }
    }
}

/// The environment that the contract runs in: the ledger time, the
/// contract's instance storage and the events it has published.
pub struct Env {
    timestamp: u64,
    admins: Vec<Address>,
    vasps: ByteMap<VaspEntry>,
    thresholds: ByteMap<i128>,
    payments: ByteMap<PaymentRecord>,
    approvals: ByteMap<Approvals>,
    counter: u64,
    events: Vec<Event>,
}

impl View for Env {
    type V = EnvView;

    closed spec fn view(&self) -> EnvView {
        EnvView {
            timestamp: self.timestamp,
            admins: addresses_view(self.admins@),
            vasps: self.vasps@,
            thresholds: self.thresholds@,
            payments: self.payments@,
            approvals: self.approvals@,
            counter: self.counter,
            events: self.events@.map_values(|e: Event| e@),
        }
    }
}

impl Default for Env {
    /// A fresh ledger at time zero, with empty storage and no events.
    fn default() -> (r: Env)
        ensures
            r.wf(),
            r@.timestamp == 0,
            r@.admins == Seq::<Seq<u8>>::empty(),
            r@.vasps == Map::<Seq<u8>, VaspEntryView>::empty(),
            r@.thresholds == Map::<Seq<u8>, i128>::empty(),
            r@.payments == Map::<Seq<u8>, PaymentRecordView>::empty(),
            r@.approvals == Map::<Seq<u8>, ApprovalsView>::empty(),
            r@.counter == 0,
            r@.events == Seq::<EventView>::empty(),
    {
        let r = Env {
            timestamp: 0,
            admins: Vec::new(),
            vasps: ByteMap::new(),
            thresholds: ByteMap::new(),
            payments: ByteMap::new(),
            approvals: ByteMap::new(),
            counter: 0,
            events: Vec::new(),
        };
        assert(r@.events =~= Seq::<EventView>::empty());
        assert(r@.admins =~= Seq::<Seq<u8>>::empty());
        r
    }
}

/// Replacing the record stored under an issued id by one with that id
/// keeps every stored payment under an issued id of its own.
pub proof fn lemma_ids_issued_after_update(s: EnvView, payment_id: Seq<u8>, record: PaymentRecordView)
    requires
        s.ids_issued(),
        s.payments.contains_key(payment_id),
        record.id == payment_id,
    ensures
        (EnvView { payments: s.payments.insert(payment_id, record), ..s }).ids_issued(),
{
    let s2 = EnvView { payments: s.payments.insert(payment_id, record), ..s };
    assert forall|k: Seq<u8>| #[trigger] s2.payments.contains_key(k) implies {
        &&& s2.payments[k].id == k
        &&& exists|c: u64| c < s2.counter && #[trigger] payment_id_seq(c) == k
    } by {
        assert(s.payments.contains_key(k));
    }
}

/// Storing approvals by admins, with no admin twice, keeps the approvals
/// sound.
proof fn lemma_approvals_sound_after_update(s: EnvView, payment_id: Seq<u8>, a: ApprovalsView)
    requires
        s.approvals_sound(),
        a.release.no_duplicates(),
        a.reject.no_duplicates(),
        forall|i: int| 0 <= i < a.release.len() ==> s.admins.contains(#[trigger] a.release[i]),
        forall|i: int| 0 <= i < a.reject.len() ==> s.admins.contains(#[trigger] a.reject[i]),
    ensures
        (EnvView { approvals: s.approvals.insert(payment_id, a), ..s }).approvals_sound(),
{
}

/// Pushing an admin that is not yet among `l` keeps `l` without repeats
/// and made of admins.
pub proof fn lemma_push_keeps(l: Seq<Seq<u8>>, x: Seq<u8>, admins: Seq<Seq<u8>>)
    requires
        l.no_duplicates(),
        !l.contains(x),
        admins.contains(x),
        forall|i: int| 0 <= i < l.len() ==> admins.contains(#[trigger] l[i]),
    ensures
        l.push(x).no_duplicates(),
        forall|i: int| 0 <= i < l.push(x).len() ==> admins.contains(#[trigger] l.push(x)[i]),
{
    assert forall|i: int, j: int|
        0 <= i < l.push(x).len() && 0 <= j < l.push(x).len() && i != j implies l.push(x)[i]
        != l.push(x)[j] by {
        if i == l.len() as int {
            assert(l.push(x)[j] == l[j]);
        } else if j == l.len() as int {
            assert(l.push(x)[i] == l[i]);
        }
    }
    assert forall|i: int| 0 <= i < l.push(x).len() implies admins.contains(
        #[trigger] l.push(x)[i],
    ) by {
        if i < l.len() {
            assert(l.push(x)[i] == l[i]);
        }
    }
}

/// Adding an admin keeps every admin.
pub proof fn lemma_with_admin_keeps_admins(admins: Seq<Seq<u8>>, admin: Seq<u8>)
    ensures
        forall|x: Seq<u8>| admins.contains(x) ==> #[trigger] with_admin(admins, admin).contains(x),
        with_admin(admins, admin).contains(admin),
{
    let admins2 = with_admin(admins, admin);
    assert forall|x: Seq<u8>| admins.contains(x) implies #[trigger] admins2.contains(x) by {
        if !admins.contains(admin) {
            let j = choose|j: int| 0 <= j < admins.len() && admins[j] == x;
            assert(admins2[j] == x);
        }
    }
    if !admins.contains(admin) {
        assert(admins2[admins.len() as int] == admin);
    }
}

/// Approvals by admins stay approvals by admins when no admin is lost.
pub proof fn lemma_approvals_sound_more_admins(s: EnvView, admins: Seq<Seq<u8>>)
    requires
        s.approvals_sound(),
        forall|x: Seq<u8>| s.admins.contains(x) ==> #[trigger] admins.contains(x),
    ensures
        (EnvView { admins, ..s }).approvals_sound(),
{
}

/// A decision on a payment keeps the state sound: the record it stores, if
/// any, is the payment's own with its id kept, and the approvals it stores
/// are those of the payment with at most the caller, an admin who had not
/// approved, pushed.
pub proof fn lemma_decision_keeps_sound(
    s: EnvView,
    payment_id: Seq<u8>,
    record: Option<PaymentRecordView>,
    a: ApprovalsView,
    caller: Seq<u8>,
)
    requires
        s.sound(),
        record matches Some(r) ==> s.payments.contains_key(payment_id) && r.id == payment_id,
        s.admins.contains(caller),
        a == no_approvals() || a.release == s.approvals_of(payment_id).release.push(caller)
            && a.reject == s.approvals_of(payment_id).reject && !s.approvals_of(
            payment_id,
        ).release.contains(caller) || a.reject == s.approvals_of(payment_id).reject.push(caller)
            && a.release == s.approvals_of(payment_id).release && !s.approvals_of(
            payment_id,
        ).reject.contains(caller),
    ensures
        s.with_decision(payment_id, record, a).sound(),
{
    let old_a = s.approvals_of(payment_id);
    if a != no_approvals() {
        if a.release == old_a.release.push(caller) && !old_a.release.contains(caller) {
            lemma_push_keeps(old_a.release, caller, s.admins);
        } else {
            lemma_push_keeps(old_a.reject, caller, s.admins);
        }
    } else {
        assert(a.release =~= Seq::<Seq<u8>>::empty());
        assert(a.reject =~= Seq::<Seq<u8>>::empty());
    }
    lemma_approvals_sound_after_update(s, payment_id, a);
    if let Some(r) = record {
        lemma_ids_issued_after_update(s, payment_id, r);
    }
}

impl Env {
    /// The internal consistency of the environment.
    pub closed spec fn wf(&self) -> bool {
        &&& self.vasps.wf()
        &&& self.thresholds.wf()
        &&& self.payments.wf()
        &&& self.approvals.wf()
        &&& self@.sound()
    }

    /// A consistent environment keeps its records under their own keys,
    /// only issued payment ids, and approvals by admins only.
    pub proof fn lemma_sound(&self)
        requires
            self.wf(),
        ensures
            self@.sound(),
    {
    }

    /// The ledger time.
    pub fn timestamp(&self) -> (r: u64)
        ensures
            r == self@.timestamp,
    {
        self.timestamp
    }

    /// Moves the ledger to time `timestamp`.
    pub fn set_timestamp(&mut self, timestamp: u64)
        requires
            old(self).wf(),
        ensures
            final(self).wf(),
            final(self)@ == (EnvView { timestamp, ..old(self)@ }),
    {
        self.timestamp = timestamp;
    }

    /// The stored admins, in the order they were added.
    pub fn admins(&self) -> (r: Vec<Address>)
        ensures
            addresses_view(r@) == self@.admins,
    {
        copy_addresses(&self.admins)
    }

    /// The admins' pending approvals for payment `payment_id`.
    pub fn approvals(&self, payment_id: Bytes32) -> (r: Approvals)
        requires
            self.wf(),
        ensures
            r@ == self@.approvals_of(payment_id@),
    {
        match self.approvals.get(&payment_id) {
            Some(a) => a.duplicate(),
            None => Approvals::new(),
        }
    }

    /// The events published so far, oldest first.
    pub fn events(&self) -> (r: &Vec<Event>)
        ensures
            r@.map_values(|e: Event| e@) == self@.events,
    {
        &self.events
    }

    /// Publishes `e`.
    fn publish(&mut self, e: Event)
        requires
            old(self).wf(),
        ensures
            final(self).wf(),
            final(self)@ == old(self)@.emit(e@),
    {
        let ghost e_view = e@;
        self.events.push(e);
        assert(self@.events =~= old(self)@.events.push(e_view));
        assert(self@ == old(self)@.emit(e_view));
    }

    /// Stores the record `record`, if any, under `payment_id`, and the
    /// approvals `a` for it, as a decision of the admin `caller` on it.
    fn store_decision(
        &mut self,
        payment_id: &Bytes32,
        record: Option<PaymentRecord>,
        a: Approvals,
        Ghost(caller): Ghost<Seq<u8>>,
    )
        requires
            old(self).wf(),
            record matches Some(r) ==> old(self)@.payments.contains_key(payment_id@) && r@.id
                == payment_id@,
            old(self)@.admins.contains(caller),
            a@ == no_approvals() || a@.release == old(self)@.approvals_of(payment_id@).release.push(
                caller,
            ) && a@.reject == old(self)@.approvals_of(payment_id@).reject && !old(
                self,
            )@.approvals_of(payment_id@).release.contains(caller) || a@.reject == old(
                self,
            )@.approvals_of(payment_id@).reject.push(caller) && a@.release == old(
                self,
            )@.approvals_of(payment_id@).release && !old(self)@.approvals_of(
                payment_id@,
            ).reject.contains(caller),
        ensures
            final(self).wf(),
            final(self)@ == old(self)@.with_decision(payment_id@, opt_record_view(record), a@),
    {
        let ghost rv = opt_record_view(record);
        let ghost av = a@;
        proof {
            lemma_decision_keeps_sound(old(self)@, payment_id@, rv, av, caller);
        }
        if let Some(r) = record {
            self.payments.insert(bytes32_to_vec(payment_id), r);
        }
        self.approvals.insert(bytes32_to_vec(payment_id), a);
    }
}

/// The compliance contract.
pub struct ComplyRailContract;

impl ComplyRailContract {
    /// Makes `admin` the first admin of a contract that has none.
    pub fn initialize(env: &mut Env, admin: Address) -> (r: Result<(), ContractError>)
        requires
            old(env).wf(),
        ensures
            final(env).wf(),
            match (r, old(env)@.initialize(admin@)) {
                (Ok(()), Ok(s)) => final(env)@ == s,
                (Err(e), Err(e2)) => e == e2 && final(env)@ == old(env)@,
                _ => false,
            },
    {
        let (admins, event) = initialize_step(&env.admins, admin)?;
        env.admins = admins;
        env.publish(event);
        Ok(())
    }

    /// Adds `admin` to the admins, on an admin's call.
    pub fn set_admin(env: &mut Env, caller: Address, admin: Address) -> (r: Result<(), ContractError>)
        requires
            old(env).wf(),
        ensures
            final(env).wf(),
            match (r, old(env)@.set_admin(caller@, admin@)) {
                (Ok(()), Ok(s)) => final(env)@ == s,
                (Err(e), Err(e2)) => e == e2 && final(env)@ == old(env)@,
                _ => false,
            },
    {
        let (admins, event) = set_admin_step(&env.admins, &caller, admin)?;
        proof {
            lemma_with_admin_keeps_admins(old(env)@.admins, event@->AdminAdded_admin);
            lemma_approvals_sound_more_admins(old(env)@, addresses_view(admins@));
        }
        env.admins = admins;
        env.publish(event);
        Ok(())
    }

    /// Registers `vasp` as an active VASP, on an admin's call; the
    /// jurisdiction must be an ISO 3166-1 country code.
    pub fn register_vasp(
        env: &mut Env,
        caller: Address,
        vasp: Address,
        name: Vec<u8>,
        jurisdiction: Vec<u8>,
        public_key: Bytes32,
    ) -> (r: Result<(), ContractError>)
        requires
            old(env).wf(),
        ensures
            final(env).wf(),
            match (r, old(env)@.register_vasp(caller@, vasp@, name@, jurisdiction@, public_key@)) {
                (Ok(()), Ok(s)) => final(env)@ == s,
                (Err(e), Err(e2)) => e == e2 && final(env)@ == old(env)@,
                _ => false,
            },
    {
        let key = vasp.to_vec();
        let (entry, event) = register_vasp_step(
            &env.admins,
            &caller,
            vasp,
            name,
            jurisdiction,
            public_key,
            env.timestamp,
        )?;
        env.vasps.insert(key, entry);
        env.publish(event);
        Ok(())
    }

    /// Sets the status of the registered `vasp`, on an admin's call.
    pub fn update_vasp_status(env: &mut Env, caller: Address, vasp: Address, status: VaspStatus) -> (r:
        Result<(), ContractError>)
        requires
            old(env).wf(),
        ensures
            final(env).wf(),
            match (r, old(env)@.update_vasp_status(caller@, vasp@, status)) {
                (Ok(()), Ok(s)) => final(env)@ == s,
                (Err(e), Err(e2)) => e == e2 && final(env)@ == old(env)@,
                _ => false,
            },
    {
        let key = vasp.to_vec();
        let (entry, event) = update_vasp_status_step(
            &env.admins,
            &caller,
            env.vasps.get(key.as_slice()),
            vasp,
            status,
        )?;
        env.vasps.insert(key, entry);
        env.publish(event);
        Ok(())
    }

    /// The registry entry of `vasp`.
    pub fn get_vasp(env: &Env, vasp: Address) -> (r: Option<VaspEntry>)
        requires
            env.wf(),
        ensures
            match r {
                Some(e) => env@.get_vasp(vasp@) == Some(e@) && e@.address == vasp@,
                None => env@.get_vasp(vasp@) is None,
            },
    {
        match env.vasps.get(vasp.as_bytes()) {
            Some(e) => Some(e.duplicate()),
            None => None,
        }
    }

    /// Sets the threshold for `asset` in `jurisdiction` to `amount`, on an
    /// admin's call; the jurisdiction must be an ISO 3166-1 country code.
    pub fn set_threshold(
        env: &mut Env,
        caller: Address,
        asset: Address,
        jurisdiction: Vec<u8>,
        amount: i128,
    ) -> (r: Result<(), ContractError>)
        requires
            old(env).wf(),
        ensures
            final(env).wf(),
            match (r, old(env)@.set_threshold(caller@, asset@, jurisdiction@, amount)) {
                (Ok(()), Ok(s)) => final(env)@ == s,
                (Err(e), Err(e2)) => e == e2 && final(env)@ == old(env)@,
                _ => false,
            },
    {
        let (key, value, event) = set_threshold_step(
            &env.admins,
            &caller,
            asset,
            &jurisdiction,
            amount,
        )?;
        env.thresholds.insert(key, value);
        env.publish(event);
        Ok(())
    }

    /// The threshold set for `asset` in `jurisdiction`.
    pub fn get_threshold(env: &Env, asset: Address, jurisdiction: Vec<u8>) -> (r: Option<i128>)
        requires
            env.wf(),
        ensures
            r == env@.get_threshold(asset@, jurisdiction@),
    {
        lookup_threshold(&env.thresholds, &asset, &jurisdiction)
    }

    /// Submits a payment of `amount` of `asset` from `from_vasp` to
    /// `to_vasp` for `beneficiary`, and answers its id. The payment is
    /// released at once below the threshold for the asset in the
    /// beneficiary VASP's jurisdiction, or where there is none; at or above
    /// it, it is held pending an attestation.
    pub fn submit_payment(
        env: &mut Env,
        from_vasp: Address,
        to_vasp: Address,
        beneficiary: Address,
        asset: Address,
        amount: i128,
    ) -> (r: Result<Bytes32, ContractError>)
        requires
            old(env).wf(),
        ensures
            final(env).wf(),
            match (r, old(env)@.submit_payment(from_vasp@, to_vasp@, beneficiary@, asset@, amount)) {
                (Ok(id), Ok((s, id2))) => final(env)@ == s && id@ == id2,
                (Err(e), Err(e2)) => e == e2 && final(env)@ == old(env)@,
                _ => false,
            },
    {
        let ghost s0 = env@;
        let from_entry = env.vasps.get(from_vasp.as_bytes());
        let to_entry = env.vasps.get(to_vasp.as_bytes());
        let key = payment_threshold_key(from_entry, to_entry, &asset)?;
        let threshold = match env.thresholds.get(key.as_slice()) {
            Some(t) => Some(*t),
            None => None,
        };
        let (payment, counter, event) = submit_payment_step(
            from_entry,
            to_entry,
            env.counter,
            threshold,
            from_vasp,
            to_vasp,
            beneficiary,
            asset,
            amount,
            env.timestamp,
        )?;
        let payment_id = payment.id;
        proof {
            if s0.payments.contains_key(payment_id@) {
                let c = choose|c: u64| c < s0.counter && #[trigger] payment_id_seq(c) == payment_id@;
                lemma_payment_id_injective(c, s0.counter);
            }
        }
        env.counter = counter;
        env.payments.insert(bytes32_to_vec(&payment_id), payment);
        assert forall|k: Seq<u8>| #[trigger] env@.payments.contains_key(k) implies {
            &&& env@.payments[k].id == k
            &&& exists|c: u64| c < env@.counter && #[trigger] payment_id_seq(c) == k
        } by {
            if k == payment_id@ {
                assert(payment_id_seq(s0.counter) == k);
            } else {
                let c = choose|c: u64| c < s0.counter && #[trigger] payment_id_seq(c) == k;
                assert(c < env@.counter);
            }
        }
        env.publish(event);
        Ok(payment_id)
    }

    /// The payment with id `payment_id`.
    pub fn get_payment(env: &Env, payment_id: Bytes32) -> (r: Option<PaymentRecord>)
        requires
            env.wf(),
        ensures
            match r {
                Some(p) => {
                    &&& env@.get_payment(payment_id@) == Some(p@)
                    &&& p@.id == payment_id@
                    &&& exists|c: u64| c < env@.counter && #[trigger] payment_id_seq(c) == payment_id@
                },
                None => env@.get_payment(payment_id@) is None,
            },
    {
        match env.payments.get(&payment_id) {
            Some(p) => Some(p.duplicate()),
            None => None,
        }
    }

    /// Records the beneficiary VASP's attestation of the pending payment
    /// `payment_id`: the hash of its IVMS101 message and the message's
    /// version. The payment is then released.
    pub fn submit_attestation(
        env: &mut Env,
        caller_vasp: Address,
        payment_id: Bytes32,
        message_hash: Bytes32,
        ivms_version: Vec<u8>,
    ) -> (r: Result<(), ContractError>)
        requires
            old(env).wf(),
        ensures
            final(env).wf(),
            match (
                r,
                old(env)@.submit_attestation(
                    caller_vasp@,
                    payment_id@,
                    message_hash@,
                    ivms_version@,
                ),
            ) {
                (Ok(()), Ok(s)) => final(env)@ == s,
                (Err(e), Err(e2)) => e == e2 && final(env)@ == old(env)@,
                _ => false,
            },
    {
        let payment = env.payments.get(&payment_id);
        let (to_entry, from_entry) = match payment {
            Some(p) => (
                env.vasps.get(p.to_vasp.as_bytes()),
                env.vasps.get(p.from_vasp.as_bytes()),
            ),
            None => (None, None),
        };
        let (updated, event) = submit_attestation_step(
            payment,
            to_entry,
            from_entry,
            &caller_vasp,
            payment_id,
            message_hash,
            ivms_version,
            env.timestamp,
        )?;
        let ghost s1 = env@;
        let ghost rec = updated@;
        env.payments.insert(bytes32_to_vec(&payment_id), updated);
        proof {
            lemma_ids_issued_after_update(s1, payment_id@, rec);
        }
        env.publish(event);
        Ok(())
    }

    /// Approves releasing payment `payment_id` for `reason`, on an admin's
    /// call; the payment is released once the approvals of
    /// `REQUIRED_APPROVALS` distinct admins are in.
    pub fn release_payment(env: &mut Env, caller: Address, payment_id: Bytes32, reason: Vec<u8>) -> (r:
        Result<(), ContractError>)
        requires
            old(env).wf(),
        ensures
            final(env).wf(),
            match (r, old(env)@.release_payment(caller@, payment_id@, reason@)) {
                (Ok(()), Ok(s)) => final(env)@ == s,
                (Err(e), Err(e2)) => e == e2 && final(env)@ == old(env)@,
                _ => false,
            },
    {
        let current = env.approvals(payment_id);
        let (record, approvals, event) = release_payment_step(
            &env.admins,
            env.payments.get(&payment_id),
            &current,
            &caller,
            payment_id,
            reason,
            env.timestamp,
        )?;
        env.store_decision(&payment_id, record, approvals, Ghost(caller@));
        env.publish(event);
        Ok(())
    }

    /// Approves rejecting payment `payment_id` for `reason`, on an admin's
    /// call; the payment is rejected once the approvals of
    /// `REQUIRED_APPROVALS` distinct admins are in.
    pub fn reject_payment(env: &mut Env, caller: Address, payment_id: Bytes32, reason: Vec<u8>) -> (r:
        Result<(), ContractError>)
        requires
            old(env).wf(),
        ensures
            final(env).wf(),
            match (r, old(env)@.reject_payment(caller@, payment_id@, reason@)) {
                (Ok(()), Ok(s)) => final(env)@ == s,
                (Err(e), Err(e2)) => e == e2 && final(env)@ == old(env)@,
                _ => false,
            },
    {
        let current = env.approvals(payment_id);
        let (record, approvals, event) = reject_payment_step(
            &env.admins,
            env.payments.get(&payment_id),
            &current,
            &caller,
            payment_id,
            reason,
            env.timestamp,
        )?;
        env.store_decision(&payment_id, record, approvals, Ghost(caller@));
        env.publish(event);
        Ok(())
    }
}

/// A fresh vector holding the 32 bytes.
fn bytes32_to_vec(b: &Bytes32) -> (r: Vec<u8>)
    ensures
        r@ == b@,
{
    crate::bytes::bytes_to_vec(b)
}

} // verus!
