//! The base interfaces of the object model: the lifetime base, automation
//! dispatch, and persistence to a file.
use vstd::prelude::*;
use crate::com::{ole_IUnknown, ComInterface};
use crate::dispatch::{
    dispatch_guid, dispatch_okfalse, dispatch_with_args, to_wide, to_wide_opt, value_result,
    wide_text,
};
use crate::hresult::{ok_result, okfalse_result, HrResult};
use crate::system::{slot_code, slot_guid, ForeignSystem};
use crate::vt::{
    PERSIST_FILE_IS_DIRTY, PERSIST_FILE_LOAD, PERSIST_FILE_SAVE, PERSIST_FILE_SAVE_COMPLETED,
    PERSIST_GET_CLASS_ID,
};

verus! {

/// Identity of the lifetime base interface.
pub const IID_IUnknown: u128 = 0x00000000_0000_0000_C000_000000000046;

/// Identity of the automation dispatch interface.
pub const IID_IDispatch: u128 = 0x00020400_0000_0000_C000_000000000046;

/// Identity of the persistent-object interface.
pub const IID_IPersist: u128 = 0x0000010C_0000_0000_C000_000000000046;

/// Identity of the file-persistent-object interface.
pub const IID_IPersistFile: u128 = 0x0000010B_0000_0000_C000_000000000046;

/// The lifetime base interface.
///
/// Owns one reference on its object; give it back with `Release`.
pub struct IUnknown {
    ptr: usize,
}

impl ComInterface for IUnknown {
    open spec fn iid_spec() -> u128 {
        IID_IUnknown
    }

    closed spec fn ptr_spec(&self) -> usize {
        self.ptr
    }

    fn IID() -> (r: u128) {
        IID_IUnknown
    }

    fn ptr(&self) -> (r: usize) {
        self.ptr
    }

    fn from_ptr(p: usize) -> (r: Self) {
        IUnknown { ptr: p }
    }
}

impl ole_IUnknown for IUnknown {}

/// The automation dispatch interface.
///
/// Owns one reference on its object; give it back with `Release`.
pub struct IDispatch {
    ptr: usize,
}

impl ComInterface for IDispatch {
    open spec fn iid_spec() -> u128 {
        IID_IDispatch
    }

    closed spec fn ptr_spec(&self) -> usize {
        self.ptr
    }

    fn IID() -> (r: u128) {
        IID_IDispatch
    }

    fn ptr(&self) -> (r: usize) {
        self.ptr
    }

    fn from_ptr(p: usize) -> (r: Self) {
        IDispatch { ptr: p }
    }
}

impl ole_IUnknown for IDispatch {}

impl oleaut_IDispatch for IDispatch {}

/// The automation dispatch capability; it adds no method of its own here.
pub trait oleaut_IDispatch: ole_IUnknown {}

/// The persistent-object interface.
///
/// Owns one reference on its object; give it back with `Release`.
pub struct IPersist {
    ptr: usize,
}

impl ComInterface for IPersist {
    open spec fn iid_spec() -> u128 {
        IID_IPersist
    }

    closed spec fn ptr_spec(&self) -> usize {
        self.ptr
    }

    fn IID() -> (r: u128) {
        IID_IPersist
    }

    fn ptr(&self) -> (r: usize) {
        self.ptr
    }

    fn from_ptr(p: usize) -> (r: Self) {
        IPersist { ptr: p }
    }
}

impl ole_IUnknown for IPersist {}

impl ole_IPersist for IPersist {}

/// The persistent-object capability.
pub trait ole_IPersist: ole_IUnknown {
    /// Reads the identity of the object's class.
    fn GetClassID(&self, sys: &mut ForeignSystem) -> (r: HrResult<u128>)
        requires
            old(sys)@.has_slot(self.ptr_spec(), PERSIST_GET_CLASS_ID),
            old(sys)@.slot(self.ptr_spec(), PERSIST_GET_CLASS_ID) is Guid,
        ensures
            r == value_result(
                slot_code(old(sys)@.slot(self.ptr_spec(), PERSIST_GET_CLASS_ID)),
                slot_guid(old(sys)@.slot(self.ptr_spec(), PERSIST_GET_CLASS_ID)),
            ),
            final(sys)@.plain_call_logged(old(sys)@, self.ptr_spec(), PERSIST_GET_CLASS_ID),
    {
        dispatch_guid(sys, self.ptr(), PERSIST_GET_CLASS_ID)
    }
}

/// The file-persistent-object interface.
///
/// Owns one reference on its object; give it back with `Release`.
pub struct IPersistFile {
    ptr: usize,
}

impl ComInterface for IPersistFile {
    open spec fn iid_spec() -> u128 {
        IID_IPersistFile
    }

    closed spec fn ptr_spec(&self) -> usize {
        self.ptr
    }

    fn IID() -> (r: u128) {
        IID_IPersistFile
    }

    fn ptr(&self) -> (r: usize) {
        self.ptr
    }

    fn from_ptr(p: usize) -> (r: Self) {
        IPersistFile { ptr: p }
    }
}

impl ole_IUnknown for IPersistFile {}

impl ole_IPersist for IPersistFile {}

impl ole_IPersistFile for IPersistFile {}

/// The file-persistent-object capability.
pub trait ole_IPersistFile: ole_IPersist {
    /// Whether the object changed since it was last saved: the
    /// dual-success convention.
    fn IsDirty(&self, sys: &mut ForeignSystem) -> (r: HrResult<bool>)
        requires
            old(sys)@.has_slot(self.ptr_spec(), PERSIST_FILE_IS_DIRTY),
            old(sys)@.slot(self.ptr_spec(), PERSIST_FILE_IS_DIRTY) is Status,
        ensures
            r == okfalse_result(slot_code(old(sys)@.slot(self.ptr_spec(), PERSIST_FILE_IS_DIRTY))),
            final(sys)@.plain_call_logged(old(sys)@, self.ptr_spec(), PERSIST_FILE_IS_DIRTY),
    {
        dispatch_okfalse(sys, self.ptr(), PERSIST_FILE_IS_DIRTY)
    }

    /// Loads the object from the named file, opened in the given mode; the
    /// name crosses over in the foreign encoding.
    fn Load(&self, sys: &mut ForeignSystem, file_name: &str, dw_mode: u32) -> (r: HrResult<()>)
        requires
            old(sys)@.has_slot(self.ptr_spec(), PERSIST_FILE_LOAD),
            old(sys)@.slot(self.ptr_spec(), PERSIST_FILE_LOAD) is Status,
        ensures
            r == ok_result(slot_code(old(sys)@.slot(self.ptr_spec(), PERSIST_FILE_LOAD))),
            final(sys)@.call_logged(
                old(sys)@, self.ptr_spec(), PERSIST_FILE_LOAD, 0, dw_mode, wide_text(file_name@)),
    {
        dispatch_with_args(sys, self.ptr(), PERSIST_FILE_LOAD, 0, dw_mode, to_wide(file_name))
    }

    /// Saves the object to the named file, or to its current file where no
    /// name is given (a null text); `remember` crosses over as one or zero.
    fn Save(&self, sys: &mut ForeignSystem, file_name: Option<&str>, remember: bool) -> (r: HrResult<()>)
        requires
            old(sys)@.has_slot(self.ptr_spec(), PERSIST_FILE_SAVE),
            old(sys)@.slot(self.ptr_spec(), PERSIST_FILE_SAVE) is Status,
        ensures
            r == ok_result(slot_code(old(sys)@.slot(self.ptr_spec(), PERSIST_FILE_SAVE))),
            final(sys)@.call_logged(
                old(sys)@,
                self.ptr_spec(),
                PERSIST_FILE_SAVE,
                0,
                if remember { 1 } else { 0 },
                match file_name {
                    Some(t) => wide_text(t@),
                    None => Seq::<u16>::empty(),
                },
            ),
    {
        let flag: u32 = if remember { 1 } else { 0 };
        dispatch_with_args(sys, self.ptr(), PERSIST_FILE_SAVE, 0, flag, to_wide_opt(file_name))
    }

    /// Tells the object that a save to the named file has completed.
    fn SaveCompleted(&self, sys: &mut ForeignSystem, file_name: &str) -> (r: HrResult<()>)
        requires
            old(sys)@.has_slot(self.ptr_spec(), PERSIST_FILE_SAVE_COMPLETED),
            old(sys)@.slot(self.ptr_spec(), PERSIST_FILE_SAVE_COMPLETED) is Status,
        ensures
            r == ok_result(slot_code(old(sys)@.slot(self.ptr_spec(), PERSIST_FILE_SAVE_COMPLETED))),
            final(sys)@.call_logged(
                old(sys)@, self.ptr_spec(), PERSIST_FILE_SAVE_COMPLETED, 0, 0, wide_text(file_name@)),
    {
        dispatch_with_args(sys, self.ptr(), PERSIST_FILE_SAVE_COMPLETED, 0, 0, to_wide(file_name))
    }
}

} // verus!
