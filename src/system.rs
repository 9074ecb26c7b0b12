//! A model of the foreign object system that the wrappers drive: objects with
//! a reference count, the interface identities they declare and a flat
//! dispatch table of slots; and plain handles that are created and destroyed
//! in pairs.
//!
//! An object pointer is the object's index plus one, so that zero stands for
//! null; a handle value is numbered in the same way. Every slot call is
//! recorded with what it handed over, so the calls made can be counted.
use vstd::prelude::*;
use crate::hresult::{
    succeeded_spec, HRESULT, E_INVALIDARG, E_NOINTERFACE, E_POINTER, S_FALSE, S_OK,
};

verus! {

/// The invalid-parameter system error code.
pub const ERROR_INVALID_PARAMETER: u32 = 87;

/// What a dispatch-table slot does when it is invoked.
pub enum Slot {
    /// One of the base lifetime slots (query, increment, decrement), served
    /// by the system itself.
    Intrinsic,
    /// Returns the code and writes nothing.
    Status(HRESULT),
    /// Writes the number to the caller's out-parameter and returns the code.
    Value(HRESULT, u32),
    /// Reports the text's required buffer length (terminator included) on a
    /// probe, and fills a buffer of that length on the real call.
    Text(HRESULT, Vec<u16>),
    /// Hands back a new reference to the object at the pointer.
    Object(HRESULT, usize),
    /// Writes the identity to the caller's out-parameter and returns the code.
    Guid(HRESULT, u128),
}

/// One recorded call of a slot, with what it handed over.
pub struct CallRecord {
    /// The object called.
    pub ptr: usize,
    /// The slot invoked.
    pub slot: usize,
    /// An object handed over, or zero.
    pub object: usize,
    /// A number handed over, or zero.
    pub number: u32,
    /// Text handed over in the foreign encoding, terminator included; empty
    /// for a null text.
    pub text: Vec<u16>,
}

/// A foreign object's fixed description.
pub struct ForeignObject {
    /// The interface identities that the object declares.
    pub iids: Vec<u128>,
    /// The flat dispatch table, base slots first.
    pub slots: Vec<Slot>,
}

/// The state of the foreign system, as contracts see it.
pub struct SystemModel {
    pub objects: Seq<ForeignObject>,
    pub counts: Seq<u32>,
    pub over_releases: u32,
    pub accel_tables: Seq<bool>,
    pub last_error: u32,
    pub apartment_inits: u32,
    pub log: Seq<CallRecord>,
}

impl SystemModel {
    /// Every object has a count, and every object can be named by a pointer.
    pub open spec fn wf(self) -> bool {
        &&& self.objects.len() == self.counts.len()
        &&& self.counts.len() < usize::MAX
    }

    pub open spec fn has_object(self, p: usize) -> bool {
        1 <= p <= self.counts.len() && p <= self.objects.len()
    }

    /// The reference count of the object at `p`; zero where there is none.
    pub open spec fn count(self, p: usize) -> nat {
        if self.has_object(p) {
            self.counts[p - 1] as nat
        } else {
            0
        }
    }

    /// An object that still has references.
    pub open spec fn is_live(self, p: usize) -> bool {
        self.count(p) > 0
    }

    pub open spec fn object(self, p: usize) -> ForeignObject {
        self.objects[p - 1]
    }

    pub open spec fn supports(self, p: usize, iid: u128) -> bool {
        self.object(p).iids@.contains(iid)
    }

    pub open spec fn num_slots(self, p: usize) -> nat {
        self.object(p).slots@.len()
    }

    pub open spec fn slot(self, p: usize, i: usize) -> Slot {
        self.object(p).slots@[i as int]
    }

    /// The object at `p` is live and its table reaches slot `i`.
    pub open spec fn has_slot(self, p: usize, i: usize) -> bool {
        self.is_live(p) && i < self.num_slots(p)
    }

    /// The counts of every object but the one at `p` agree.
    pub open spec fn counts_agree_except(self, other: SystemModel, p: usize) -> bool {
        &&& self.counts.len() == other.counts.len()
        &&& forall|q: usize| q != p ==> #[trigger] self.count(q) == other.count(q)
    }

    /// Everything but reference counts and the over-release signal agrees.
    pub open spec fn same_shape(self, other: SystemModel) -> bool {
        &&& self.objects == other.objects
        &&& self.counts.len() == other.counts.len()
        &&& self.accel_tables == other.accel_tables
        &&& self.last_error == other.last_error
        &&& self.apartment_inits == other.apartment_inits
        &&& self.log == other.log
    }

    /// Everything but the record of calls agrees.
    pub open spec fn same_but_log(self, other: SystemModel) -> bool {
        &&& self.objects == other.objects
        &&& self.counts == other.counts
        &&& self.over_releases == other.over_releases
        &&& self.accel_tables == other.accel_tables
        &&& self.last_error == other.last_error
        &&& self.apartment_inits == other.apartment_inits
    }

    /// `self` is `before` with one call of slot `i` on `p` that handed over
    /// nothing recorded, and nothing else changed.
    pub open spec fn plain_call_logged(self, before: SystemModel, p: usize, i: usize) -> bool {
        self.call_logged(before, p, i, 0, 0, Seq::empty())
    }

    /// `self` is `before` with two calls of slot `i` on `p` that handed over
    /// nothing recorded, and nothing else changed.
    pub open spec fn plain_calls_logged_twice(self, before: SystemModel, p: usize, i: usize) -> bool {
        &&& self.log.len() == before.log.len() + 2
        &&& self.log.drop_last().drop_last() == before.log
        &&& plain_record(self.log[self.log.len() - 2], p, i)
        &&& plain_record(self.log.last(), p, i)
        &&& self.same_but_log(before)
    }

    /// `self` is `before` with one call recorded, and nothing else changed.
    pub open spec fn call_logged(
        self,
        before: SystemModel,
        p: usize,
        i: usize,
        object: usize,
        number: u32,
        text: Seq<u16>,
    ) -> bool {
        &&& self.log.len() == before.log.len() + 1
        &&& self.log.drop_last() == before.log
        &&& self.log.last().ptr == p
        &&& self.log.last().slot == i
        &&& self.log.last().object == object
        &&& self.log.last().number == number
        &&& self.log.last().text@ == text
        &&& self.same_but_log(before)
    }

    /// `self` is `before` with one more reference on the object at `p`.
    pub open spec fn incremented_from(self, before: SystemModel, p: usize) -> bool {
        &&& self.count(p) == before.count(p) + 1
        &&& self.counts_agree_except(before, p)
        &&& self.same_shape(before)
        &&& self.over_releases == before.over_releases
    }

    /// `self` is `before` with one reference less on the object at `p`, and
    /// no over-release recorded.
    pub open spec fn decremented_from(self, before: SystemModel, p: usize) -> bool {
        &&& before.count(p) > 0
        &&& self.count(p) == before.count(p) - 1
        &&& self.counts_agree_except(before, p)
        &&& self.same_shape(before)
        &&& self.over_releases == before.over_releases
    }

    pub open spec fn accel_live(self, h: usize) -> bool {
        1 <= h <= self.accel_tables.len() && self.accel_tables[h - 1]
    }
}

/// A recorded call of slot `i` on `p` that handed over nothing.
pub open spec fn plain_record(c: CallRecord, p: usize, i: usize) -> bool {
    c.ptr == p && c.slot == i && c.object == 0 && c.number == 0 && c.text@.len() == 0
}

/// The text that a slot reports, terminator excluded.
pub open spec fn slot_text(s: Slot) -> Seq<u16> {
    match s {
        Slot::Text(_, t) => t@,
        _ => Seq::empty(),
    }
}

/// The code that a non-intrinsic slot returns.
pub open spec fn slot_code(s: Slot) -> HRESULT {
    match s {
        Slot::Intrinsic => HRESULT { raw: S_OK },
        Slot::Status(hr) => hr,
        Slot::Value(hr, _) => hr,
        Slot::Text(hr, _) => hr,
        Slot::Object(hr, _) => hr,
        Slot::Guid(hr, _) => hr,
    }
}

/// The number that a value slot writes.
pub open spec fn slot_value(s: Slot) -> u32 {
    match s {
        Slot::Value(_, v) => v,
        _ => 0,
    }
}

/// The identity that an identity slot writes.
pub open spec fn slot_guid(s: Slot) -> u128 {
    match s {
        Slot::Guid(_, g) => g,
        _ => 0,
    }
}

/// The object that an object slot hands back.
pub open spec fn slot_target(s: Slot) -> usize {
    match s {
        Slot::Object(_, q) => q,
        _ => 0,
    }
}

/// What a call through an object slot owes: on failure the exact code and
/// no change; on success the slot's object, which gained one reference (so a
/// fresh object with none now has one); `E_POINTER`, and no change, where the
/// slot names no object or its count cannot grow.
pub open spec fn object_call_result(before: SystemModel, after: SystemModel, s: Slot, r: (HRESULT, usize)) -> bool {
    let q = slot_target(s);
    if !succeeded_spec(slot_code(s).raw) {
        r == (slot_code(s), 0usize) && after == before
    } else if before.has_object(q) && before.count(q) < u32::MAX {
        r == (slot_code(s), q) && after.incremented_from(before, q)
    } else {
        r == (HRESULT { raw: E_POINTER }, 0usize) && after == before
    }
}

/// The foreign object system.
pub struct ForeignSystem {
    objects: Vec<ForeignObject>,
    counts: Vec<u32>,
    over_releases: u32,
    accel_tables: Vec<bool>,
    last_error: u32,
    apartment_inits: u32,
    log: Vec<CallRecord>,
}

impl View for ForeignSystem {
    type V = SystemModel;

    closed spec fn view(&self) -> SystemModel {
        SystemModel {
            objects: self.objects@,
            counts: self.counts@,
            over_releases: self.over_releases,
            accel_tables: self.accel_tables@,
            last_error: self.last_error,
            apartment_inits: self.apartment_inits,
            log: self.log@,
        }
    }
}

impl ForeignSystem {
    /// An empty system.
    pub fn new() -> (r: ForeignSystem)
        ensures
            r@.wf(),
            r@.objects.len() == 0,
            r@.counts.len() == 0,
            r@.over_releases == 0,
            r@.accel_tables.len() == 0,
            r@.last_error == 0,
            r@.apartment_inits == 0,
            r@.log.len() == 0,
    {
        ForeignSystem {
            objects: Vec::new(),
            counts: Vec::new(),
            over_releases: 0,
            accel_tables: Vec::new(),
            last_error: 0,
            apartment_inits: 0,
            log: Vec::new(),
        }
    }

    /// Creates an object holding one reference, owed to the caller, and
    /// returns its pointer.
    pub fn create_object(&mut self, object: ForeignObject) -> (p: usize)
        requires
            old(self)@.counts.len() + 1 < usize::MAX,
            old(self)@.objects.len() == old(self)@.counts.len(),
        ensures
            p == old(self)@.counts.len() + 1,
            final(self)@.objects == old(self)@.objects.push(object),
            final(self)@.counts == old(self)@.counts.push(1u32),
            final(self)@.over_releases == old(self)@.over_releases,
            final(self)@.accel_tables == old(self)@.accel_tables,
            final(self)@.last_error == old(self)@.last_error,
            final(self)@.apartment_inits == old(self)@.apartment_inits,
            final(self)@.log == old(self)@.log,
    {
        self.objects.push(object);
        self.counts.push(1);
        self.counts.len()
    }

    /// Registers an object that no caller holds yet (its count is zero),
    /// for an object slot to hand out, and returns its pointer.
    pub fn register_object(&mut self, object: ForeignObject) -> (p: usize)
        requires
            old(self)@.counts.len() + 1 < usize::MAX,
            old(self)@.objects.len() == old(self)@.counts.len(),
        ensures
            p == old(self)@.counts.len() + 1,
            final(self)@ == (SystemModel {
                objects: old(self)@.objects.push(object),
                counts: old(self)@.counts.push(0u32),
                ..old(self)@
            }),
    {
        self.objects.push(object);
        self.counts.push(0);
        self.counts.len()
    }

    /// The reference count of the object at `p`; zero where there is none.
    pub fn ref_count(&self, p: usize) -> (r: u32)
        ensures
            r == self@.count(p),
    {
        if p >= 1 && p <= self.counts.len() && p <= self.objects.len() {
            self.counts[p - 1]
        } else {
            0
        }
    }

    /// How many decrements were asked of objects that had no reference left.
    pub fn over_releases(&self) -> (r: u32)
        ensures
            r == self@.over_releases,
    {
        self.over_releases
    }

    /// The base increment slot: adds one reference and returns the new count.
    pub fn add_ref(&mut self, p: usize) -> (r: u32)
        requires
            old(self)@.has_object(p),
            old(self)@.count(p) < u32::MAX,
        ensures
            r == final(self)@.count(p),
            final(self)@.count(p) == old(self)@.count(p) + 1,
            final(self)@.counts_agree_except(old(self)@, p),
            final(self)@.same_shape(old(self)@),
            final(self)@.over_releases == old(self)@.over_releases,
    {
        let c = self.counts[p - 1];
        self.counts.set(p - 1, c + 1);
        c + 1
    }

    /// The base decrement slot: takes one reference away and returns the new
    /// count. Asked of an object with no reference left, it changes no count
    /// and records the over-release instead.
    pub fn release(&mut self, p: usize) -> (r: u32)
        ensures
            old(self)@.is_live(p) ==> {
                &&& final(self)@.count(p) == old(self)@.count(p) - 1
                &&& final(self)@.over_releases == old(self)@.over_releases
            },
            !old(self)@.is_live(p) ==> {
                &&& final(self)@.count(p) == old(self)@.count(p)
                &&& final(self)@.over_releases == if old(self)@.over_releases < u32::MAX {
                    (old(self)@.over_releases + 1) as u32
                } else {
                    old(self)@.over_releases
                }
            },
            r == final(self)@.count(p),
            final(self)@.counts_agree_except(old(self)@, p),
            final(self)@.same_shape(old(self)@),
    {
        if p >= 1 && p <= self.counts.len() && p <= self.objects.len() && self.counts[p - 1] > 0 {
            let c = self.counts[p - 1];
            self.counts.set(p - 1, c - 1);
            c - 1
        } else {
            self.over_releases = self.over_releases.saturating_add(1);
            0
        }
    }

    /// Whether the object at `p` declares the identity.
    pub fn declares(&self, p: usize, iid: u128) -> (r: bool)
        requires
            self@.has_object(p),
        ensures
            r == self@.supports(p, iid),
    {
        let iids = &self.objects[p - 1].iids;
        let mut i: usize = 0;
        while i < iids.len()
            invariant
                self@.has_object(p),
                *iids == self@.object(p).iids,
                0 <= i <= iids@.len(),
                forall|k: int| 0 <= k < i ==> iids@[k] != iid,
            decreases iids@.len() - i,
        {
            if iids[i] == iid {
                assert(iids@[i as int] == iid);
                return true;
            }
            i = i + 1;
        }
        false
    }

    /// The base query slot: where the object declares the identity, adds a
    /// reference and hands back the same object; else answers that the
    /// interface is not supported, and changes nothing.
    pub fn query_interface(&mut self, p: usize, iid: u128) -> (r: (HRESULT, usize))
        requires
            old(self)@.is_live(p),
            old(self)@.count(p) < u32::MAX,
        ensures
            old(self)@.supports(p, iid) ==> {
                &&& r == (HRESULT { raw: S_OK }, p)
                &&& final(self)@.count(p) == old(self)@.count(p) + 1
            },
            !old(self)@.supports(p, iid) ==> {
                &&& r == (HRESULT { raw: E_NOINTERFACE }, 0usize)
                &&& final(self)@ == old(self)@
            },
            final(self)@.counts_agree_except(old(self)@, p),
            final(self)@.same_shape(old(self)@),
            final(self)@.over_releases == old(self)@.over_releases,
    {
        if self.declares(p, iid) {
            self.add_ref(p);
            (HRESULT { raw: S_OK }, p)
        } else {
            (HRESULT { raw: E_NOINTERFACE }, 0)
        }
    }

    /// Invokes a slot that only returns a code.
    fn read_status(&self, p: usize, i: usize) -> (r: HRESULT)
        requires
            self@.is_live(p),
            i < self@.num_slots(p),
            self@.slot(p, i) is Status,
        ensures
            r == slot_code(self@.slot(p, i)),
    {
        match &self.objects[p - 1].slots[i] {
            Slot::Status(hr) => *hr,
            _ => HRESULT { raw: E_POINTER },
        }
    }

    /// Records a call of slot `i` on `p` that handed over nothing.
    fn record_plain(&mut self, p: usize, i: usize)
        ensures
            final(self)@.plain_call_logged(old(self)@, p, i),
    {
        let ghost before = self.log@;
        self.log.push(CallRecord { ptr: p, slot: i, object: 0, number: 0, text: Vec::new() });
        assert(self.log@.drop_last() =~= before);
    }

    /// Invokes a slot that only returns a code. The call is recorded.
    pub fn call_status(&mut self, p: usize, i: usize) -> (r: HRESULT)
        requires
            old(self)@.has_slot(p, i),
            old(self)@.slot(p, i) is Status,
        ensures
            r == slot_code(old(self)@.slot(p, i)),
            final(self)@.plain_call_logged(old(self)@, p, i),
    {
        let r = self.read_status(p, i);
        self.record_plain(p, i);
        r
    }

    /// Invokes a slot that writes a number to an out-parameter. The call is
    /// recorded.
    pub fn call_value(&mut self, p: usize, i: usize) -> (r: (HRESULT, u32))
        requires
            old(self)@.has_slot(p, i),
            old(self)@.slot(p, i) is Value,
        ensures
            r.0 == slot_code(old(self)@.slot(p, i)),
            r.1 == slot_value(old(self)@.slot(p, i)),
            final(self)@.plain_call_logged(old(self)@, p, i),
    {
        let r = self.read_value(p, i);
        self.record_plain(p, i);
        r
    }

    /// Invokes a slot that writes an identity to an out-parameter. The call
    /// is recorded.
    pub fn call_guid(&mut self, p: usize, i: usize) -> (r: (HRESULT, u128))
        requires
            old(self)@.has_slot(p, i),
            old(self)@.slot(p, i) is Guid,
        ensures
            r.0 == slot_code(old(self)@.slot(p, i)),
            r.1 == slot_guid(old(self)@.slot(p, i)),
            final(self)@.plain_call_logged(old(self)@, p, i),
    {
        let r = self.read_guid(p, i);
        self.record_plain(p, i);
        r
    }

    /// Invokes a text slot with no buffer: returns the code and, on success,
    /// the buffer length that the text needs, terminator included. The call
    /// is recorded.
    pub fn probe_text(&mut self, p: usize, i: usize) -> (r: (HRESULT, usize))
        requires
            old(self)@.has_slot(p, i),
            old(self)@.slot(p, i) is Text,
            slot_text(old(self)@.slot(p, i)).len() + 1 < usize::MAX,
        ensures
            r.0 == slot_code(old(self)@.slot(p, i)),
            succeeded_spec(r.0.raw) ==> r.1 == slot_text(old(self)@.slot(p, i)).len() + 1,
            !succeeded_spec(r.0.raw) ==> r.1 == 0,
            final(self)@.plain_call_logged(old(self)@, p, i),
    {
        let r = self.read_text_len(p, i);
        self.record_plain(p, i);
        r
    }

    /// Invokes a text slot with a caller buffer. On success, and where the
    /// buffer holds the text and its terminator, writes both at its start and
    /// returns the slot's code; a buffer too short is refused with
    /// `E_INVALIDARG` and left as it was, as is any buffer on failure. The
    /// call is recorded.
    pub fn fill_text(&mut self, p: usize, i: usize, buf: &mut Vec<u16>) -> (r: HRESULT)
        requires
            old(self)@.has_slot(p, i),
            old(self)@.slot(p, i) is Text,
        ensures
            ({
                let t = slot_text(old(self)@.slot(p, i));
                let code = slot_code(old(self)@.slot(p, i));
                if !succeeded_spec(code.raw) {
                    r == code && final(buf)@ == old(buf)@
                } else if old(buf)@.len() < t.len() + 1 {
                    r == (HRESULT { raw: E_INVALIDARG }) && final(buf)@ == old(buf)@
                } else {
                    &&& r == code
                    &&& final(buf)@ == t + seq![0u16] + old(buf)@.skip(t.len() + 1int)
                }
            }),
            final(self)@.plain_call_logged(old(self)@, p, i),
    {
        let r = self.fill_buffer(p, i, buf);
        self.record_plain(p, i);
        r
    }

    /// Invokes a slot that only returns a code, handing it arguments: an
    /// object, a number and a text in the foreign encoding. The call is
    /// recorded with its arguments.
    pub fn call_with_args(&mut self, p: usize, i: usize, object: usize, number: u32, text: Vec<u16>) -> (r: HRESULT)
        requires
            old(self)@.has_slot(p, i),
            old(self)@.slot(p, i) is Status,
        ensures
            r == slot_code(old(self)@.slot(p, i)),
            final(self)@.call_logged(old(self)@, p, i, object, number, text@),
    {
        let r = self.read_status(p, i);
        let ghost before = self.log@;
        self.log.push(CallRecord { ptr: p, slot: i, object, number, text });
        assert(self.log@.drop_last() =~= before);
        r
    }

    /// How many slot calls were recorded.
    pub fn log_len(&self) -> (r: usize)
        ensures
            r == self@.log.len(),
    {
        self.log.len()
    }

    /// The recorded call at position `k`.
    pub fn logged_call(&self, k: usize) -> (r: &CallRecord)
        requires
            k < self@.log.len(),
        ensures
            *r == self@.log[k as int],
    {
        &self.log[k]
    }

    /// Invokes a slot that writes a number to an out-parameter.
    fn read_value(&self, p: usize, i: usize) -> (r: (HRESULT, u32))
        requires
            self@.is_live(p),
            i < self@.num_slots(p),
            self@.slot(p, i) is Value,
        ensures
            r.0 == slot_code(self@.slot(p, i)),
            r.1 == slot_value(self@.slot(p, i)),
    {
        match &self.objects[p - 1].slots[i] {
            Slot::Value(hr, v) => (*hr, *v),
            _ => (HRESULT { raw: E_POINTER }, 0),
        }
    }

    /// Invokes a slot that writes an identity to an out-parameter.
    fn read_guid(&self, p: usize, i: usize) -> (r: (HRESULT, u128))
        requires
            self@.is_live(p),
            i < self@.num_slots(p),
            self@.slot(p, i) is Guid,
        ensures
            r.0 == slot_code(self@.slot(p, i)),
            r.1 == slot_guid(self@.slot(p, i)),
    {
        match &self.objects[p - 1].slots[i] {
            Slot::Guid(hr, g) => (*hr, *g),
            _ => (HRESULT { raw: E_POINTER }, 0),
        }
    }

    /// Invokes a text slot with no buffer: returns the code and, on success,
    /// the buffer length that the text needs, terminator included.
    fn read_text_len(&self, p: usize, i: usize) -> (r: (HRESULT, usize))
        requires
            self@.is_live(p),
            i < self@.num_slots(p),
            self@.slot(p, i) is Text,
            slot_text(self@.slot(p, i)).len() + 1 < usize::MAX,
        ensures
            r.0 == slot_code(self@.slot(p, i)),
            succeeded_spec(r.0.raw) ==> r.1 == slot_text(self@.slot(p, i)).len() + 1,
            !succeeded_spec(r.0.raw) ==> r.1 == 0,
    {
        match &self.objects[p - 1].slots[i] {
            Slot::Text(hr, t) => {
                if hr.succeeded() {
                    (*hr, t.len() + 1)
                } else {
                    (*hr, 0)
                }
            },
            _ => (HRESULT { raw: E_POINTER }, 0),
        }
    }
    /// Invokes a text slot with a caller buffer. On success, and where the
    /// buffer holds the text and its terminator, writes both at its start and
    /// returns the slot's code; a buffer too short is refused with
    /// `E_INVALIDARG` and left as it was, as is any buffer on failure.
    fn fill_buffer(&self, p: usize, i: usize, buf: &mut Vec<u16>) -> (r: HRESULT)
        requires
            self@.is_live(p),
            i < self@.num_slots(p),
            self@.slot(p, i) is Text,
        ensures
            ({
                let t = slot_text(self@.slot(p, i));
                let code = slot_code(self@.slot(p, i));
                if !succeeded_spec(code.raw) {
                    r == code && final(buf)@ == old(buf)@
                } else if old(buf)@.len() < t.len() + 1 {
                    r == (HRESULT { raw: E_INVALIDARG }) && final(buf)@ == old(buf)@
                } else {
                    &&& r == code
                    &&& final(buf)@ == t + seq![0u16] + old(buf)@.skip(t.len() + 1int)
                }
            }),
    {
        match &self.objects[p - 1].slots[i] {
            Slot::Text(hr, t) => {
                if !hr.succeeded() {
                    return *hr;
                }
                if buf.len() < t.len() || buf.len() - t.len() < 1 {
                    return HRESULT { raw: E_INVALIDARG };
                }
                let ghost before = buf@;
                let mut k: usize = 0;
                while k < t.len()
                    invariant
                        k <= t@.len(),
                        t@.len() < buf@.len(),
                        buf@.len() == before.len(),
                        forall|j: int| 0 <= j < k ==> buf@[j] == t@[j],
                        forall|j: int| k <= j < buf@.len() ==> buf@[j] == before[j],
                    decreases t@.len() - k,
                {
                    buf.set(k, t[k]);
                    k = k + 1;
                }
                buf.set(t.len(), 0);
                assert(buf@ =~= t@ + seq![0u16] + before.skip(t@.len() + 1int));
                *hr
            },
            _ => HRESULT { raw: E_POINTER },
        }
    }

    /// Invokes a slot that hands back an object. On success the object gets
    /// a new reference, owed to the caller, and its pointer is returned; where
    /// the slot names no object, or one whose count cannot grow, the call
    /// fails with `E_POINTER`. On failure nothing changes.
    fn call_object(&mut self, p: usize, i: usize) -> (r: (HRESULT, usize))
        requires
            old(self)@.is_live(p),
            i < old(self)@.num_slots(p),
            old(self)@.slot(p, i) is Object,
        ensures
            object_call_result(old(self)@, final(self)@, old(self)@.slot(p, i), r),
    {
        let (hr, q) = match &self.objects[p - 1].slots[i] {
            Slot::Object(hr, q) => (*hr, *q),
            _ => (HRESULT { raw: E_POINTER }, 0),
        };
        if !hr.succeeded() {
            return (hr, 0);
        }
        if q >= 1 && q <= self.counts.len() && q <= self.objects.len() && self.counts[q - 1] < u32::MAX {
            self.add_ref(q);
            (hr, q)
        } else {
            (HRESULT { raw: E_POINTER }, 0)
        }
    }

    /// Invokes a slot that hands back an object, handing it a text in the
    /// foreign encoding (no units for none). The call is recorded first, then
    /// the object is handed back as described for the object slots.
    pub fn call_object_with_text(&mut self, p: usize, i: usize, text: Vec<u16>) -> (r: (HRESULT, usize))
        requires
            old(self)@.is_live(p),
            i < old(self)@.num_slots(p),
            old(self)@.slot(p, i) is Object,
        ensures
            final(self)@.log.len() == old(self)@.log.len() + 1,
            final(self)@.log.last().ptr == p,
            final(self)@.log.last().slot == i,
            final(self)@.log.last().object == 0,
            final(self)@.log.last().number == 0,
            final(self)@.log.last().text@ == text@,
            object_call_result(
                SystemModel { log: old(self)@.log.push(final(self)@.log.last()), ..old(self)@ },
                final(self)@,
                old(self)@.slot(p, i),
                r,
            ),
    {
        let ghost before = self.log@;
        self.log.push(CallRecord { ptr: p, slot: i, object: 0, number: 0, text });
        let ghost rec = self.log@.last();
        assert(self.log@ =~= before.push(rec));
        self.call_object(p, i)
    }

    /// Creates an accelerator table of the given number of entries and
    /// returns its handle. A table of no entries is refused: the handle is
    /// then zero and the last error says why.
    pub fn create_accel_table(&mut self, entries: usize) -> (h: usize)
        requires
            old(self)@.accel_tables.len() + 1 < usize::MAX,
        ensures
            entries == 0 ==> {
                &&& h == 0
                &&& final(self)@ == (SystemModel { last_error: ERROR_INVALID_PARAMETER, ..old(self)@ })
            },
            entries > 0 ==> {
                &&& h == old(self)@.accel_tables.len() + 1
                &&& final(self)@ == (SystemModel {
                    accel_tables: old(self)@.accel_tables.push(true),
                    ..old(self)@
                })
            },
    {
        if entries == 0 {
            self.last_error = ERROR_INVALID_PARAMETER;
            0
        } else {
            self.accel_tables.push(true);
            self.accel_tables.len()
        }
    }

    /// Destroys a live accelerator table; answers `false` for a handle that
    /// names none.
    pub fn destroy_accel_table(&mut self, h: usize) -> (r: bool)
        ensures
            r == old(self)@.accel_live(h),
            r ==> final(self)@ == (SystemModel {
                accel_tables: old(self)@.accel_tables.update(h - 1, false),
                ..old(self)@
            }),
            !r ==> final(self)@ == old(self)@,
    {
        if h >= 1 && h <= self.accel_tables.len() && self.accel_tables[h - 1] {
            self.accel_tables.set(h - 1, false);
            true
        } else {
            false
        }
    }

    /// Initializes the calling apartment: the first initialization answers
    /// `S_OK`, a nested one `S_FALSE`; each must be paired with one
    /// uninitialization.
    pub fn initialize_apartment(&mut self) -> (r: HRESULT)
        requires
            old(self)@.apartment_inits < u32::MAX,
        ensures
            r.raw == if old(self)@.apartment_inits == 0 { S_OK } else { S_FALSE },
            final(self)@ == (SystemModel {
                apartment_inits: (old(self)@.apartment_inits + 1) as u32,
                ..old(self)@
            }),
    {
        let first = self.apartment_inits == 0;
        self.apartment_inits = self.apartment_inits + 1;
        if first {
            HRESULT { raw: S_OK }
        } else {
            HRESULT { raw: S_FALSE }
        }
    }

    /// Undoes one initialization of the apartment.
    pub fn uninitialize_apartment(&mut self)
        requires
            old(self)@.apartment_inits > 0,
        ensures
            final(self)@ == (SystemModel {
                apartment_inits: (old(self)@.apartment_inits - 1) as u32,
                ..old(self)@
            }),
    {
        self.apartment_inits = self.apartment_inits - 1;
    }

    /// How many initializations of the apartment are not yet undone.
    pub fn apartment_inits(&self) -> (r: u32)
        ensures
            r == self@.apartment_inits,
    {
        self.apartment_inits
    }

    /// The error code that the last failed handle creation left.
    pub fn last_error(&self) -> (r: u32)
        ensures
            r == self@.last_error,
    {
        self.last_error
    }
}

} // verus!
