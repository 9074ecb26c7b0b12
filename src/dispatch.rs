//! The call adapters: each invokes one slot of an object's dispatch table and
//! turns the foreign result code, and what the slot wrote, into a typed
//! result. No adapter retries a failed call.
use vstd::prelude::*;
use crate::com::ComInterface;
use crate::hresult::{
    ok_result, ok_to_hrresult, okfalse_result, okfalse_to_hrresult, succeeded_spec, HrResult,
    HRESULT, E_POINTER,
};
use crate::system::{
    slot_code, slot_guid, slot_target, slot_text, slot_value, ForeignSystem, Slot, SystemModel,
};

verus! {

/// What the standard library's lossy UTF-16 decoding makes of the units.
pub uninterp spec fn utf16_text(units: Seq<u16>) -> Seq<char>;

/// Relies on `String::from_utf16_lossy`: the text depends on the units alone,
/// and no units give the empty text.
#[verifier::external_body]
fn decode_utf16(units: &[u16]) -> (r: String)
    ensures
        r@ == utf16_text(units@),
        units@.len() == 0 ==> r@.len() == 0,
{
    String::from_utf16_lossy(units)
}

/// The UTF-16 form of one character: its code point where that is below
/// 0x10000, else the high and the low surrogate.
pub open spec fn char_utf16(c: char) -> Seq<u16> {
    let v = c as int;
    if v < 0x1_0000 {
        seq![v as u16]
    } else {
        seq![(0xD800 + (v - 0x1_0000) / 0x400) as u16, (0xDC00 + (v - 0x1_0000) % 0x400) as u16]
    }
}

/// The UTF-16 form of a text, character by character.
pub open spec fn utf16_units(s: Seq<char>) -> Seq<u16>
    decreases s.len(),
{
    if s.len() == 0 {
        Seq::empty()
    } else {
        utf16_units(s.drop_last()) + char_utf16(s.last())
    }
}

/// Relies on `str::encode_utf16`: the text's UTF-16 form, one unit per
/// character below U+10000 and a surrogate pair for each other character.
#[verifier::external_body]
fn encode_utf16(s: &str) -> (r: Vec<u16>)
    ensures
        r@ == utf16_units(s@),
{
    s.encode_utf16().collect()
}

/// The text in the foreign encoding, followed by its terminator.
pub open spec fn wide_text(s: Seq<char>) -> Seq<u16> {
    utf16_units(s).push(0u16)
}

/// Converts text to the foreign encoding and appends the terminator.
pub fn to_wide(s: &str) -> (r: Vec<u16>)
    ensures
        r@ == wide_text(s@),
{
    let mut v = encode_utf16(s);
    v.push(0u16);
    v
}

/// Converts optional text to the foreign encoding: no text is a null
/// buffer, handed over as no units at all.
pub fn to_wide_opt(s: Option<&str>) -> (r: Vec<u16>)
    ensures
        r@ == match s {
            Some(t) => wide_text(t@),
            None => Seq::<u16>::empty(),
        },
{
    match s {
        Some(t) => to_wide(t),
        None => Vec::new(),
    }
}

/// The slot's code, with its out-value on success.
pub open spec fn value_result<V>(hr: HRESULT, v: V) -> HrResult<V> {
    if succeeded_spec(hr.raw) {
        Ok(v)
    } else {
        Err(hr)
    }
}

/// What two-call text retrieval through the slot owes: the decoded text on
/// success, else the exact failure code.
pub open spec fn text_result(s: Slot, r: HrResult<String>) -> bool {
    &&& r matches Ok(t) ==> t@ == utf16_text(slot_text(s))
    &&& r is Ok <==> succeeded_spec(slot_code(s).raw)
    &&& r matches Err(e) ==> e == slot_code(s)
}

/// Invokes a slot that only returns a code: success gives `Ok(())`, failure
/// an error carrying the exact code. The slot is invoked once.
pub fn dispatch_status(sys: &mut ForeignSystem, p: usize, i: usize) -> (r: HrResult<()>)
    requires
        old(sys)@.has_slot(p, i),
        old(sys)@.slot(p, i) is Status,
    ensures
        r == ok_result(slot_code(old(sys)@.slot(p, i))),
        final(sys)@.plain_call_logged(old(sys)@, p, i),
{
    ok_to_hrresult(sys.call_status(p, i))
}

/// Invokes a slot that only returns a code, handing it an object, a number
/// and a text already in the foreign encoding: success gives `Ok(())`,
/// failure an error carrying the exact code. The call is recorded with its
/// arguments.
pub fn dispatch_with_args(
    sys: &mut ForeignSystem,
    p: usize,
    i: usize,
    object: usize,
    number: u32,
    text: Vec<u16>,
) -> (r: HrResult<()>)
    requires
        old(sys)@.has_slot(p, i),
        old(sys)@.slot(p, i) is Status,
    ensures
        r == ok_result(slot_code(old(sys)@.slot(p, i))),
        final(sys)@.call_logged(old(sys)@, p, i, object, number, text@),
{
    ok_to_hrresult(sys.call_with_args(p, i, object, number, text))
}

/// Invokes a slot of the dual-success convention: the first success code
/// gives `Ok(true)`, the secondary one `Ok(false)`, any other code an error
/// carrying it. The slot is invoked once.
pub fn dispatch_okfalse(sys: &mut ForeignSystem, p: usize, i: usize) -> (r: HrResult<bool>)
    requires
        old(sys)@.has_slot(p, i),
        old(sys)@.slot(p, i) is Status,
    ensures
        r == okfalse_result(slot_code(old(sys)@.slot(p, i))),
        final(sys)@.plain_call_logged(old(sys)@, p, i),
{
    okfalse_to_hrresult(sys.call_status(p, i))
}

/// Invokes a slot that writes a number: on success the number comes back.
/// The slot is invoked once.
pub fn dispatch_value(sys: &mut ForeignSystem, p: usize, i: usize) -> (r: HrResult<u32>)
    requires
        old(sys)@.has_slot(p, i),
        old(sys)@.slot(p, i) is Value,
    ensures
        r == value_result(slot_code(old(sys)@.slot(p, i)), slot_value(old(sys)@.slot(p, i))),
        final(sys)@.plain_call_logged(old(sys)@, p, i),
{
    let (hr, v) = sys.call_value(p, i);
    match ok_to_hrresult(hr) {
        Ok(_) => Ok(v),
        Err(e) => Err(e),
    }
}

/// Invokes a slot that writes an identity: on success the identity comes
/// back. The slot is invoked once.
pub fn dispatch_guid(sys: &mut ForeignSystem, p: usize, i: usize) -> (r: HrResult<u128>)
    requires
        old(sys)@.has_slot(p, i),
        old(sys)@.slot(p, i) is Guid,
    ensures
        r == value_result(slot_code(old(sys)@.slot(p, i)), slot_guid(old(sys)@.slot(p, i))),
        final(sys)@.plain_call_logged(old(sys)@, p, i),
{
    let (hr, g) = sys.call_guid(p, i);
    match ok_to_hrresult(hr) {
        Ok(_) => Ok(g),
        Err(e) => Err(e),
    }
}

/// What two-call text retrieval leaves recorded: the probe alone where it
/// failed, else the probe and the fill.
pub open spec fn text_calls_logged(before: SystemModel, after: SystemModel, p: usize, i: usize) -> bool {
    if succeeded_spec(slot_code(before.slot(p, i)).raw) {
        after.plain_calls_logged_twice(before, p, i)
    } else {
        after.plain_call_logged(before, p, i)
    }
}

/// Two-call text retrieval: asks for the required length with no buffer,
/// allocates exactly that many units, has the slot fill them, and drops the
/// trailing terminator. On success the units are the slot's text, one fewer
/// than the probe reported. A failed probe is not followed by a fill, and
/// nothing is retried.
pub fn dispatch_text_units(sys: &mut ForeignSystem, p: usize, i: usize) -> (r: HrResult<Vec<u16>>)
    requires
        old(sys)@.has_slot(p, i),
        old(sys)@.slot(p, i) is Text,
        slot_text(old(sys)@.slot(p, i)).len() + 1 < usize::MAX,
    ensures
        r matches Ok(u) ==> u@ == slot_text(old(sys)@.slot(p, i)),
        r is Ok <==> succeeded_spec(slot_code(old(sys)@.slot(p, i)).raw),
        r matches Err(e) ==> e == slot_code(old(sys)@.slot(p, i)),
        text_calls_logged(old(sys)@, final(sys)@, p, i),
{
    let ghost s0 = sys@;
    let (hr, n) = sys.probe_text(p, i);
    if !hr.succeeded() {
        return Err(hr);
    }
    let ghost s1 = sys@;
    let mut buf: Vec<u16> = Vec::with_capacity(n);
    let mut k: usize = 0;
    while k < n
        invariant
            k <= n,
            buf@.len() == k,
        decreases n - k,
    {
        buf.push(0u16);
        k = k + 1;
    }
    let hr2 = sys.fill_text(p, i, &mut buf);
    proof {
        let s2 = sys@;
        assert(s2.log.drop_last() == s1.log);
        assert(s2.log[s2.log.len() - 2] == s1.log.last());
        assert(s2.log.drop_last().drop_last() == s0.log);
    }
    if !hr2.succeeded() {
        return Err(hr2);
    }
    let ghost filled = buf@;
    if buf.len() > 0 && buf[buf.len() - 1] == 0 {
        buf.pop();
    }
    proof {
        let t = slot_text(s0.slot(p, i));
        assert(filled =~= t + seq![0u16]);
        assert(buf@ =~= t);
    }
    Ok(buf)
}

/// Two-call text retrieval, converted to the caller's text: on success the
/// decoding of the slot's text.
pub fn dispatch_text(sys: &mut ForeignSystem, p: usize, i: usize) -> (r: HrResult<String>)
    requires
        old(sys)@.has_slot(p, i),
        old(sys)@.slot(p, i) is Text,
        slot_text(old(sys)@.slot(p, i)).len() + 1 < usize::MAX,
    ensures
        text_result(old(sys)@.slot(p, i), r),
        text_calls_logged(old(sys)@, final(sys)@, p, i),
{
    match dispatch_text_units(sys, p, i) {
        Ok(u) => Ok(decode_utf16(u.as_slice())),
        Err(e) => Err(e),
    }
}

/// What a call through an object slot owes: on failure the exact code and no
/// change; on success a wrapper over the slot's object, which gained one
/// reference that the wrapper owns (a fresh object goes from none to one);
/// `E_POINTER`, and no change, where the slot names no object or its count
/// cannot grow.
pub open spec fn object_result<T: ComInterface>(
    before: SystemModel,
    after: SystemModel,
    s: Slot,
    r: HrResult<T>,
) -> bool {
    let q = slot_target(s);
    if !succeeded_spec(slot_code(s).raw) {
        r == Err::<T, HRESULT>(slot_code(s)) && after == before
    } else if before.has_object(q) && before.count(q) < u32::MAX {
        &&& r matches Ok(t) && t.ptr_spec() == q
        &&& after.incremented_from(before, q)
    } else {
        r == Err::<T, HRESULT>(HRESULT { raw: E_POINTER }) && after == before
    }
}

/// `before` with the call that `after` recorded last appended to its log.
pub open spec fn with_last_call(before: SystemModel, after: SystemModel) -> SystemModel {
    SystemModel { log: before.log.push(after.log.last()), ..before }
}

/// Invokes a slot that hands back an object, handing it a text already in
/// the foreign encoding (no units for none), and adopts the object: on
/// success the new wrapper owns the reference that the slot added. The call
/// is recorded with its text.
pub fn dispatch_object<T: ComInterface>(
    sys: &mut ForeignSystem,
    p: usize,
    i: usize,
    text: Vec<u16>,
) -> (r: HrResult<T>)
    requires
        old(sys)@.has_slot(p, i),
        old(sys)@.slot(p, i) is Object,
    ensures
        final(sys)@.log.len() == old(sys)@.log.len() + 1,
        final(sys)@.log.last().ptr == p,
        final(sys)@.log.last().slot == i,
        final(sys)@.log.last().object == 0,
        final(sys)@.log.last().number == 0,
        final(sys)@.log.last().text@ == text@,
        object_result(with_last_call(old(sys)@, final(sys)@), final(sys)@, old(sys)@.slot(p, i), r),
{
    let (hr, q) = sys.call_object_with_text(p, i, text);
    if !hr.succeeded() {
        return Err(hr);
    }
    Ok(T::from_ptr(q))
}

} // verus!
