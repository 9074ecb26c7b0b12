//! Foreign result codes and the adapters that turn them into typed results.
use vstd::prelude::*;

verus! {

/// Success, carrying "true" under the dual-success convention.
pub const S_OK: u32 = 0x0000_0000;

/// Secondary success code, carrying "false" under the dual-success convention.
pub const S_FALSE: u32 = 0x0000_0001;

/// The operation is not implemented.
pub const E_NOTIMPL: u32 = 0x8000_4001;

/// The object does not support the requested interface.
pub const E_NOINTERFACE: u32 = 0x8000_4002;

/// An invalid pointer was handed over.
pub const E_POINTER: u32 = 0x8000_4003;

/// The operation was aborted.
pub const E_ABORT: u32 = 0x8000_4004;

/// Unspecified failure.
pub const E_FAIL: u32 = 0x8000_4005;

/// Catastrophic failure.
pub const E_UNEXPECTED: u32 = 0x8000_FFFF;

/// Access was denied.
pub const E_ACCESSDENIED: u32 = 0x8007_0005;

/// An invalid handle was handed over.
pub const E_HANDLE: u32 = 0x8007_0006;

/// Memory could not be allocated.
pub const E_OUTOFMEMORY: u32 = 0x8007_000E;

/// One or more arguments are invalid.
pub const E_INVALIDARG: u32 = 0x8007_0057;

/// A foreign result code: the top bit is the severity (set on failure), bits
/// 16 to 28 the facility, the low 16 bits the code.
#[derive(Clone, Copy, Debug, PartialEq, Eq, Structural)]
pub struct HRESULT {
    pub raw: u32,
}

/// Result of a call whose failure carries a foreign result code.
pub type HrResult<T> = Result<T, HRESULT>;

/// A code signals success exactly when its severity bit is clear.
pub open spec fn succeeded_spec(raw: u32) -> bool {
    raw < 0x8000_0000
}

/// The facility field of a code.
pub open spec fn facility_spec(raw: u32) -> u32 {
    ((raw / 0x1_0000) % 0x2000) as u32
}

/// The code field of a code.
pub open spec fn code_spec(raw: u32) -> u16 {
    (raw % 0x1_0000) as u16
}

/// Human text for the codes this layer names, and a generic text otherwise.
pub open spec fn description_of(raw: u32) -> Seq<char> {
    if raw == S_OK {
        "The operation completed successfully."@
    } else if raw == S_FALSE {
        "The operation completed with a false result."@
    } else if raw == E_NOTIMPL {
        "Not implemented."@
    } else if raw == E_NOINTERFACE {
        "No such interface supported."@
    } else if raw == E_POINTER {
        "Invalid pointer."@
    } else if raw == E_ABORT {
        "Operation aborted."@
    } else if raw == E_FAIL {
        "Unspecified error."@
    } else if raw == E_UNEXPECTED {
        "Catastrophic failure."@
    } else if raw == E_ACCESSDENIED {
        "Access is denied."@
    } else if raw == E_HANDLE {
        "The handle is invalid."@
    } else if raw == E_OUTOFMEMORY {
        "Not enough memory resources are available."@
    } else if raw == E_INVALIDARG {
        "The parameter is incorrect."@
    } else if succeeded_spec(raw) {
        "Success code."@
    } else {
        "Unknown failure code."@
    }
}

/// What the plain adapter makes of a code.
pub open spec fn ok_result(hr: HRESULT) -> HrResult<()> {
    if succeeded_spec(hr.raw) {
        Ok(())
    } else {
        Err(hr)
    }
}

/// What the dual-success adapter makes of a code.
pub open spec fn okfalse_result(hr: HRESULT) -> HrResult<bool> {
    if hr.raw == S_OK {
        Ok(true)
    } else if hr.raw == S_FALSE {
        Ok(false)
    } else {
        Err(hr)
    }
}

impl HRESULT {
    /// Wraps a raw code.
    pub fn from_raw(raw: u32) -> (r: HRESULT)
        ensures
            r.raw == raw,
    {
        HRESULT { raw }
    }

    /// The raw code.
    pub fn raw(&self) -> (r: u32)
        ensures
            r == self.raw,
    {
        self.raw
    }

    /// Whether the code signals success.
    pub fn succeeded(&self) -> (r: bool)
        ensures
            r == succeeded_spec(self.raw),
    {
        self.raw < 0x8000_0000
    }

    /// Whether the code signals failure.
    pub fn failed(&self) -> (r: bool)
        ensures
            r == !succeeded_spec(self.raw),
    {
        !self.succeeded()
    }

    /// The facility field.
    pub fn facility(&self) -> (r: u32)
        ensures
            r == facility_spec(self.raw),
            r < 0x2000,
    {
        let raw = self.raw;
        let r = (raw >> 16u32) & 0x1fffu32;
        assert(r == ((raw / 0x1_0000) % 0x2000) as u32) by (bit_vector)
            requires
                r == (raw >> 16u32) & 0x1fffu32,
        ;
        r
    }

    /// The code field.
    pub fn code(&self) -> (r: u16)
        ensures
            r == code_spec(self.raw),
    {
        let raw = self.raw;
        let r = (raw & 0xffffu32) as u16;
        assert(r == (raw % 0x1_0000) as u16) by (bit_vector)
            requires
                r == (raw & 0xffffu32) as u16,
        ;
        r
    }

    /// A human description of the code.
    pub fn description(&self) -> (r: String)
        ensures
            r@ == description_of(self.raw),
    {
        let raw = self.raw;
        if raw == S_OK {
            String::from_str("The operation completed successfully.")
        } else if raw == S_FALSE {
            String::from_str("The operation completed with a false result.")
        } else if raw == E_NOTIMPL {
            String::from_str("Not implemented.")
        } else if raw == E_NOINTERFACE {
            String::from_str("No such interface supported.")
        } else if raw == E_POINTER {
            String::from_str("Invalid pointer.")
        } else if raw == E_ABORT {
            String::from_str("Operation aborted.")
        } else if raw == E_FAIL {
            String::from_str("Unspecified error.")
        } else if raw == E_UNEXPECTED {
            String::from_str("Catastrophic failure.")
        } else if raw == E_ACCESSDENIED {
            String::from_str("Access is denied.")
        } else if raw == E_HANDLE {
            String::from_str("The handle is invalid.")
        } else if raw == E_OUTOFMEMORY {
            String::from_str("Not enough memory resources are available.")
        } else if raw == E_INVALIDARG {
            String::from_str("The parameter is incorrect.")
        } else if raw < 0x8000_0000 {
            String::from_str("Success code.")
        } else {
            String::from_str("Unknown failure code.")
        }
    }
}

/// Maps a success code to `Ok(())` and a failure code to `Err` carrying it.
pub fn ok_to_hrresult(hr: HRESULT) -> (r: HrResult<()>)
    ensures
        r == ok_result(hr),
{
    if hr.succeeded() {
        Ok(())
    } else {
        Err(hr)
    }
}

/// Dual-success convention: `S_OK` gives `Ok(true)`, `S_FALSE` gives
/// `Ok(false)`, any other code is a failure carrying it.
pub fn okfalse_to_hrresult(hr: HRESULT) -> (r: HrResult<bool>)
    ensures
        r == okfalse_result(hr),
{
    if hr.raw == S_OK {
        Ok(true)
    } else if hr.raw == S_FALSE {
        Ok(false)
    } else {
        Err(hr)
    }
}

/// The adapters on any code: a success code gives `Ok`, a failure code an
/// error carrying that exact code; under the dual-success convention the
/// first success code gives `Ok(true)` and the secondary one `Ok(false)`.
pub proof fn lemma_adapter_codes(hr: HRESULT)
    ensures
        succeeded_spec(hr.raw) ==> ok_result(hr) == Ok::<(), HRESULT>(()),
        !succeeded_spec(hr.raw) ==> ok_result(hr) == Err::<(), HRESULT>(hr),
        hr.raw == S_OK ==> okfalse_result(hr) == Ok::<bool, HRESULT>(true),
        hr.raw == S_FALSE ==> okfalse_result(hr) == Ok::<bool, HRESULT>(false),
        hr.raw != S_OK && hr.raw != S_FALSE ==> okfalse_result(hr) == Err::<bool, HRESULT>(hr),
        !succeeded_spec(hr.raw) ==> okfalse_result(hr) == Err::<bool, HRESULT>(hr),
{
}

} // verus!
