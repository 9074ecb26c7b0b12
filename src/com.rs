//! The reference-counted interface wrapper and the base capability that every
//! interface extends: adoption of a raw pointer, cloning by increment,
//! capability query, and release.
use vstd::prelude::*;
use crate::hresult::{HrResult, HRESULT, E_NOINTERFACE, S_FALSE, S_OK};
use crate::system::{ForeignSystem, SystemModel};

verus! {

/// An interface wrapper: it owns one reference on one foreign object, or is
/// null, and is tagged with the identity of its interface.
pub trait ComInterface: Sized {
    /// The interface identity that a query for this capability asks for.
    spec fn iid_spec() -> u128;

    /// The pointer that the wrapper owns a reference on; zero when null.
    spec fn ptr_spec(&self) -> usize;

    /// The interface identity.
    fn IID() -> (r: u128)
        ensures
            r == Self::iid_spec(),
    ;

    /// The owned pointer.
    fn ptr(&self) -> (r: usize)
        ensures
            r == self.ptr_spec(),
    ;

    /// Wraps a pointer that already holds one reference owed to the wrapper.
    fn from_ptr(p: usize) -> (r: Self)
        ensures
            r.ptr_spec() == p,
    ;

}

/// The base capability, which every interface extends.
pub trait ole_IUnknown: ComInterface {
    /// A null wrapper, whose release does nothing.
    fn null() -> (r: Self)
        ensures
            r.ptr_spec() == 0,
    {
        Self::from_ptr(0)
    }

    /// Whether the wrapper is null.
    fn is_null(&self) -> (r: bool)
        ensures
            r == (self.ptr_spec() == 0),
    {
        self.ptr() == 0
    }

    /// Adopts a pointer handed back by a foreign call, which holds one
    /// reference owed to the new wrapper. A null pointer is refused before
    /// anything is dispatched through it.
    fn adopt(p: usize) -> (r: Option<Self>)
        ensures
            p == 0 <==> r is None,
            r matches Some(w) ==> w.ptr_spec() == p,
    {
        if p == 0 {
            None
        } else {
            Some(Self::from_ptr(p))
        }
    }

    /// Clones the wrapper: adds one reference on the object through the base
    /// increment slot, and returns a new wrapper that owns it.
    fn clone_ref(&self, sys: &mut ForeignSystem) -> (r: Self)
        requires
            old(sys)@.is_live(self.ptr_spec()),
            old(sys)@.count(self.ptr_spec()) < u32::MAX,
        ensures
            r.ptr_spec() == self.ptr_spec(),
            final(sys)@.incremented_from(old(sys)@, self.ptr_spec()),
    {
        let p = self.ptr();
        sys.add_ref(p);
        Self::from_ptr(p)
    }

    /// Asks the object for another capability. Where it declares that
    /// capability's identity, the result is a new wrapper over the same
    /// object that owns a reference of its own; else the result is the
    /// not-supported failure, and nothing changes.
    fn QueryInterface<T: ComInterface>(&self, sys: &mut ForeignSystem) -> (r: HrResult<T>)
        requires
            old(sys)@.is_live(self.ptr_spec()),
            old(sys)@.count(self.ptr_spec()) < u32::MAX,
        ensures
            old(sys)@.supports(self.ptr_spec(), T::iid_spec()) ==> {
                &&& r matches Ok(t) && t.ptr_spec() == self.ptr_spec()
                &&& final(sys)@.incremented_from(old(sys)@, self.ptr_spec())
            },
            !old(sys)@.supports(self.ptr_spec(), T::iid_spec()) ==> {
                &&& r == Err::<T, HRESULT>(HRESULT { raw: E_NOINTERFACE })
                &&& final(sys)@ == old(sys)@
            },
    {
        let (hr, p) = sys.query_interface(self.ptr(), T::IID());
        if hr.raw == E_NOINTERFACE {
            Err(hr)
        } else {
            Ok(T::from_ptr(p))
        }
    }

    /// Gives up the wrapper's reference through the base decrement slot; a
    /// null wrapper releases nothing. Taking the wrapper by value, it can be
    /// released once only.
    fn Release(self, sys: &mut ForeignSystem)
        requires
            self.ptr_spec() != 0 ==> old(sys)@.is_live(self.ptr_spec()),
        ensures
            self.ptr_spec() == 0 ==> final(sys)@ == old(sys)@,
            self.ptr_spec() != 0 ==> final(sys)@.decremented_from(old(sys)@, self.ptr_spec()),
    {
        let p = self.ptr();
        if p != 0 {
            sys.release(p);
        }
    }
}

/// Proof that the apartment was initialized once; give it back with
/// `CoUninitialize`, once.
pub struct CoUninitializeGuard {
    hr: HRESULT,
}

impl CoUninitializeGuard {
    /// The code that the initialization answered.
    pub closed spec fn hr_spec(&self) -> HRESULT {
        self.hr
    }

    /// The code that the initialization answered: `S_OK` for the first one,
    /// `S_FALSE` for a nested one.
    pub fn hr(&self) -> (r: HRESULT)
        ensures
            r == self.hr_spec(),
    {
        self.hr
    }

    /// Undoes the initialization that the guard stands for.
    pub fn CoUninitialize(self, sys: &mut ForeignSystem)
        requires
            old(sys)@.apartment_inits > 0,
        ensures
            final(sys)@ == (SystemModel {
                apartment_inits: (old(sys)@.apartment_inits - 1) as u32,
                ..old(sys)@
            }),
    {
        sys.uninitialize_apartment();
    }
}

/// Initializes the calling apartment and returns the guard that undoes it.
pub fn CoInitializeEx(sys: &mut ForeignSystem) -> (r: CoUninitializeGuard)
    requires
        old(sys)@.apartment_inits < u32::MAX,
    ensures
        r.hr_spec().raw == if old(sys)@.apartment_inits == 0 { S_OK } else { S_FALSE },
        final(sys)@ == (SystemModel {
            apartment_inits: (old(sys)@.apartment_inits + 1) as u32,
            ..old(sys)@
        }),
{
    let hr = sys.initialize_apartment();
    CoUninitializeGuard { hr }
}

/// One step in the life of references on one object: a new reference is
/// taken (creation, clone, successful query) or one is given back.
pub enum RefStep {
    Acquire,
    Release,
}

/// The step took the system from `before` to `after` on the object at `p`.
pub open spec fn step_holds(before: SystemModel, after: SystemModel, p: usize, step: RefStep) -> bool {
    match step {
        RefStep::Acquire => after.incremented_from(before, p),
        RefStep::Release => after.decremented_from(before, p),
    }
}

/// How many of the steps acquire.
pub open spec fn acquires(steps: Seq<RefStep>) -> nat
    decreases steps.len(),
{
    if steps.len() == 0 {
        0
    } else {
        acquires(steps.drop_last()) + if steps.last() is Acquire { 1nat } else { 0nat }
    }
}

/// How many of the steps release.
pub open spec fn releases(steps: Seq<RefStep>) -> nat
    decreases steps.len(),
{
    if steps.len() == 0 {
        0
    } else {
        releases(steps.drop_last()) + if steps.last() is Release { 1nat } else { 0nat }
    }
}

/// Along any run of acquisitions and releases on one object, its count moves
/// by exactly one per step, no other object's count moves, and no release
/// ever meets an object with no reference left. So where each acquisition is
/// matched by exactly one release, the system ends as it began: nothing
/// leaks and nothing is released twice.
pub proof fn lemma_balanced_lifetimes(trace: Seq<SystemModel>, steps: Seq<RefStep>, p: usize)
    requires
        trace.len() == steps.len() + 1,
        trace[0].wf(),
        forall|i: int| 0 <= i < steps.len() ==> step_holds(trace[i], trace[i + 1], p, #[trigger] steps[i]),
    ensures
        trace.last().count(p) + releases(steps) == trace[0].count(p) + acquires(steps),
        trace.last().wf(),
        trace.last().same_shape(trace[0]),
        trace.last().counts_agree_except(trace[0], p),
        trace.last().over_releases == trace[0].over_releases,
        acquires(steps) == releases(steps) ==> trace.last() == trace[0],
    decreases steps.len(),
{
    if steps.len() > 0 {
        let n = steps.len() - 1;
        let front = trace.drop_last();
        assert forall|i: int| 0 <= i < steps.drop_last().len() implies
            step_holds(front[i], front[i + 1], p, #[trigger] steps.drop_last()[i]) by {
            assert(steps.drop_last()[i] == steps[i]);
        }
        lemma_balanced_lifetimes(front, steps.drop_last(), p);
        assert(step_holds(trace[n], trace[n + 1], p, steps[n]));
        assert(front.last() == trace[n]);
    }
    let a = trace.last();
    let b = trace[0];
    if acquires(steps) == releases(steps) {
        assert forall|i: int| 0 <= i < a.counts.len() implies a.counts[i] == b.counts[i] by {
            let q = (i + 1) as usize;
            assert(a.count(q) == b.count(q));
        }
        assert(a.counts =~= b.counts);
    }
}

/// A clone followed by the release of either wrapper leaves the system
/// exactly as it was before the clone; releasing the other one too takes the
/// count one below its value before the clone.
pub proof fn lemma_clone_release(s0: SystemModel, s1: SystemModel, s2: SystemModel, s3: SystemModel, p: usize)
    requires
        s0.wf(),
        s1.incremented_from(s0, p),
        s2.decremented_from(s1, p),
    ensures
        s2 == s0,
        s3.decremented_from(s2, p) ==> s3.count(p) + 1 == s0.count(p),
{
    let trace = seq![s0, s1, s2];
    let steps = seq![RefStep::Acquire, RefStep::Release];
    assert(step_holds(trace[0], trace[1], p, steps[0]));
    assert(step_holds(trace[1], trace[2], p, steps[1]));
    let first = steps.drop_last();
    assert(first =~= seq![RefStep::Acquire]);
    assert(first.drop_last() =~= Seq::<RefStep>::empty());
    assert(acquires(first.drop_last()) == 0);
    assert(releases(first.drop_last()) == 0);
    assert(first.last() is Acquire);
    assert(acquires(first) == 1);
    assert(releases(first) == 0);
    lemma_balanced_lifetimes(trace, steps, p);
}

/// Adopting a pointer that holds the only reference, cloning it, releasing
/// the clone and then the adopted wrapper leaves the object with no reference, and
/// no release met an object that had none; a null wrapper's release after
/// that changes nothing.
pub proof fn lemma_adopt_clone_release_round_trip(
    s0: SystemModel,
    s1: SystemModel,
    s2: SystemModel,
    s3: SystemModel,
    p: usize,
)
    requires
        s0.wf(),
        s0.count(p) == 1,
        s1.incremented_from(s0, p),
        s2.decremented_from(s1, p),
        s3.decremented_from(s2, p),
    ensures
        s3.count(p) == 0,
        !s3.is_live(p),
        s3.over_releases == s0.over_releases,
{
    lemma_clone_release(s0, s1, s2, s3, p);
}

} // verus!
