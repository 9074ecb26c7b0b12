//! Window message parameters: packing a point into a message parameter and
//! back, and what toolbar messages return.
use vstd::prelude::*;
use crate::handles::{SysResult, ERROR, ERROR_BAD_ARGUMENTS};

verus! {

/// A point in client coordinates.
#[derive(Clone, Copy, Debug, PartialEq, Eq, Structural)]
pub struct POINT {
    pub x: i32,
    pub y: i32,
}

impl POINT {
    pub fn new(x: i32, y: i32) -> (r: POINT)
        ensures
            r == (POINT { x, y }),
    {
        POINT { x, y }
    }
}

/// A message in its raw form.
#[derive(Clone, Copy, Debug, PartialEq, Eq, Structural)]
pub struct WndMsg {
    pub msg_id: u32,
    pub wparam: usize,
    pub lparam: isize,
}

/// The parameter that a point packs into: the low 16 bits of `x` in the low
/// word, the low 16 bits of `y` in the high word.
pub open spec fn lp_of_point(p: POINT) -> isize {
    ((p.x as u16) as int + (p.y as u16) as int * 0x1_0000) as isize
}

/// The point that a parameter unpacks to: the low word as `x`, the high
/// word as `y`, each read unsigned.
pub open spec fn point_of_lp(lp: isize) -> POINT {
    POINT {
        x: ((lp as u32) % 0x1_0000) as i32,
        y: ((lp as u32) / 0x1_0000) as i32,
    }
}

/// Packs a point into a message parameter.
pub fn point_to_lp(p: POINT) -> (r: isize)
    ensures
        r == lp_of_point(p),
{
    let lo: u16 = p.x as u16;
    let hi: u16 = p.y as u16;
    let d: u32 = (lo as u32) | ((hi as u32) << 16u32);
    assert(d == lo as u32 + hi as u32 * 0x1_0000) by (bit_vector)
        requires
            d == (lo as u32) | ((hi as u32) << 16u32),
    ;
    d as isize
}

/// Unpacks the message's parameter into a point.
pub fn lp_to_point(p: WndMsg) -> (r: POINT)
    ensures
        r == point_of_lp(p.lparam),
{
    let v: u32 = p.lparam as u32;
    let lo: u16 = (v & 0xffffu32) as u16;
    let hi: u16 = (v >> 16u32) as u16;
    assert(lo == v % 0x1_0000 && hi == v / 0x1_0000) by (bit_vector)
        requires
            lo == (v & 0xffffu32) as u16,
            hi == (v >> 16u32) as u16,
    ;
    POINT::new(lo as i32, hi as i32)
}

/// The bitmap that a toolbar's add-bitmap message hands over.
#[derive(Clone, Copy, Debug, PartialEq, Eq, Structural)]
pub struct TBADDBITMAP {
    pub hInst: usize,
    pub nID: usize,
}

/// One button that a toolbar's add-buttons message hands over.
#[derive(Clone, Copy, Debug, PartialEq, Eq, Structural)]
pub struct TBBUTTON {
    pub iBitmap: i32,
    pub idCommand: i32,
    pub fsState: u8,
    pub fsStyle: u8,
    pub dwData: usize,
    pub iString: isize,
}

/// Parameters of the toolbar add-bitmap message.
pub struct AddBitmap<'a> {
    pub num_images: u32,
    pub info: &'a TBADDBITMAP,
}

impl<'a> AddBitmap<'a> {
    /// The message's return value: the index of the first new image, or
    /// bad arguments where the toolbar answered -1.
    pub fn convert_ret(&self, v: isize) -> (r: SysResult<u32>)
        ensures
            v == -1 ==> r == Err::<u32, ERROR>(ERROR { raw: ERROR_BAD_ARGUMENTS }),
            v != -1 ==> r == Ok::<u32, ERROR>(v as u32),
    {
        if v == -1 {
            Err(ERROR { raw: ERROR_BAD_ARGUMENTS })
        } else {
            Ok(v as u32)
        }
    }
}

/// Parameters of the toolbar add-buttons message.
pub struct AddButtons<'a> {
    pub buttons: &'a mut [TBBUTTON],
}

impl<'a> AddButtons<'a> {
    /// The message's return value: bad arguments where the toolbar answered
    /// zero, else success.
    pub fn convert_ret(&self, v: isize) -> (r: SysResult<()>)
        ensures
            v == 0 ==> r == Err::<(), ERROR>(ERROR { raw: ERROR_BAD_ARGUMENTS }),
            v != 0 ==> r == Ok::<(), ERROR>(()),
    {
        if v == 0 {
            Err(ERROR { raw: ERROR_BAD_ARGUMENTS })
        } else {
            Ok(())
        }
    }
}

} // verus!
