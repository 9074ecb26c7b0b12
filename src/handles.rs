//! Plain foreign handles: opaque, non-owning tokens. Creation and destruction
//! are separate calls that the caller pairs; nothing is released for it.
use vstd::prelude::*;
use crate::system::{ForeignSystem, SystemModel, ERROR_INVALID_PARAMETER};

verus! {

/// The bad-arguments system error code.
pub const ERROR_BAD_ARGUMENTS: u32 = 160;

/// A system error code.
#[derive(Clone, Copy, Debug, PartialEq, Eq, Structural)]
pub struct ERROR {
    pub raw: u32,
}

/// Result of a call whose failure carries a system error code.
pub type SysResult<T> = Result<T, ERROR>;

/// An opaque handle: a non-null token, compared by value.
pub trait Handle: Sized {
    /// The token.
    spec fn ptr_spec(&self) -> usize;

    /// The token.
    fn ptr(&self) -> (r: usize)
        ensures
            r == self.ptr_spec(),
    ;

    /// Wraps a token.
    fn from_ptr(p: usize) -> (r: Self)
        ensures
            r.ptr_spec() == p,
    ;
}

/// One entry of an accelerator table.
#[derive(Clone, Copy, Debug, PartialEq, Eq, Structural)]
pub struct ACCEL {
    pub fVirt: u8,
    pub key: u16,
    pub cmd: u16,
}

/// Handle to an accelerator table.
#[derive(Clone, Copy, Debug, PartialEq, Eq, Structural)]
pub struct HACCEL {
    ptr: usize,
}

impl Handle for HACCEL {
    closed spec fn ptr_spec(&self) -> usize {
        self.ptr
    }

    fn ptr(&self) -> (r: usize) {
        self.ptr
    }

    fn from_ptr(p: usize) -> (r: Self) {
        HACCEL { ptr: p }
    }
}

impl user_Haccel for HACCEL {}

/// Creation and destruction of accelerator tables, in matching pairs.
pub trait user_Haccel: Handle {
    /// Creates an accelerator table from the entries. The table lives until
    /// `DestroyAcceleratorTable` is called on the handle. A table of no
    /// entries is refused with the system's last error.
    fn CreateAcceleratorTable(sys: &mut ForeignSystem, accel: &mut [ACCEL]) -> (r: SysResult<HACCEL>)
        requires
            old(sys)@.accel_tables.len() + 1 < usize::MAX,
        ensures
            final(accel)@ == old(accel)@,
            old(accel)@.len() == 0 ==> {
                &&& r == Err::<HACCEL, ERROR>(ERROR { raw: ERROR_INVALID_PARAMETER })
                &&& final(sys)@ == (SystemModel { last_error: ERROR_INVALID_PARAMETER, ..old(sys)@ })
            },
            old(accel)@.len() > 0 ==> {
                &&& r matches Ok(h) && h.ptr_spec() == old(sys)@.accel_tables.len() + 1
                &&& final(sys)@ == (SystemModel {
                    accel_tables: old(sys)@.accel_tables.push(true),
                    ..old(sys)@
                })
            },
    {
        let h = sys.create_accel_table(accel.len());
        if h == 0 {
            Err(ERROR { raw: sys.last_error() })
        } else {
            Ok(HACCEL::from_ptr(h))
        }
    }

    /// Destroys the table; `false` where the handle names no live table.
    fn DestroyAcceleratorTable(self, sys: &mut ForeignSystem) -> (r: bool)
        ensures
            r == old(sys)@.accel_live(self.ptr_spec()),
            r ==> final(sys)@ == (SystemModel {
                accel_tables: old(sys)@.accel_tables.update(self.ptr_spec() - 1, false),
                ..old(sys)@
            }),
            !r ==> final(sys)@ == old(sys)@,
    {
        sys.destroy_accel_table(self.ptr())
    }
}

} // verus!
