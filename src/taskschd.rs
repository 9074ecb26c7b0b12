//! Task scheduler interfaces: actions, e-mail actions and triggers.
use vstd::prelude::*;
use crate::com::{ole_IUnknown, ComInterface};
use crate::dispatch::{
    dispatch_text, dispatch_value, dispatch_with_args, text_calls_logged, text_result, to_wide,
    value_result, wide_text,
};
use crate::hresult::{ok_result, HrResult};
use crate::ole::oleaut_IDispatch;
use crate::system::{slot_code, slot_text, slot_value, ForeignSystem};
use crate::vt::{
    ACTION_GET_ID, ACTION_GET_TYPE, EMAIL_ACTION_GET_BCC, EMAIL_ACTION_GET_BODY,
    EMAIL_ACTION_GET_CC, EMAIL_ACTION_GET_FROM, EMAIL_ACTION_GET_REPLY_TO, EMAIL_ACTION_GET_SERVER,
    EMAIL_ACTION_GET_SUBJECT, EMAIL_ACTION_GET_TO, TRIGGER_GET_ENABLED, TRIGGER_GET_END_BOUNDARY,
    TRIGGER_GET_EXECUTION_TIME_LIMIT, TRIGGER_GET_ID, TRIGGER_GET_START_BOUNDARY, TRIGGER_GET_TYPE,
    TRIGGER_PUT_ENABLED, EMAIL_ACTION_PUT_BCC, EMAIL_ACTION_PUT_BODY, EMAIL_ACTION_PUT_CC,
    EMAIL_ACTION_PUT_FROM, EMAIL_ACTION_PUT_REPLY_TO, EMAIL_ACTION_PUT_SERVER,
    EMAIL_ACTION_PUT_SUBJECT, EMAIL_ACTION_PUT_TO, TRIGGER_PUT_END_BOUNDARY,
    TRIGGER_PUT_EXECUTION_TIME_LIMIT, TRIGGER_PUT_ID, TRIGGER_PUT_START_BOUNDARY,
};

verus! {

/// Identity of the task action interface.
pub const IID_IAction: u128 = 0xBAE54997_48B1_4CBE_9965_D6BE263EBEA4;

/// Identity of the e-mail task action interface.
pub const IID_IEmailAction: u128 = 0x10F62C64_7E16_4314_A0C2_0C3683F99D40;

/// Identity of the task trigger interface.
pub const IID_ITrigger: u128 = 0x09941815_EA89_4B5B_89E0_2A773801FAC3;

/// The task action interface.
///
/// Owns one reference on its object; give it back with `Release`.
pub struct IAction {
    ptr: usize,
}

impl ComInterface for IAction {
    open spec fn iid_spec() -> u128 {
        IID_IAction
    }

    closed spec fn ptr_spec(&self) -> usize {
        self.ptr
    }

    fn IID() -> (r: u128) {
        IID_IAction
    }

    fn ptr(&self) -> (r: usize) {
        self.ptr
    }

    fn from_ptr(p: usize) -> (r: Self) {
        IAction { ptr: p }
    }
}

impl ole_IUnknown for IAction {}

impl oleaut_IDispatch for IAction {}

impl taskschd_IAction for IAction {}

/// The task action capability.
pub trait taskschd_IAction: oleaut_IDispatch {
    /// Reads the action's identifier.
    fn get_Id(&self, sys: &mut ForeignSystem) -> (r: HrResult<String>)
        requires
            old(sys)@.has_slot(self.ptr_spec(), ACTION_GET_ID),
            old(sys)@.slot(self.ptr_spec(), ACTION_GET_ID) is Text,
            slot_text(old(sys)@.slot(self.ptr_spec(), ACTION_GET_ID)).len() + 1 < usize::MAX,
        ensures
            text_result(old(sys)@.slot(self.ptr_spec(), ACTION_GET_ID), r),
            text_calls_logged(old(sys)@, final(sys)@, self.ptr_spec(), ACTION_GET_ID),
    {
        dispatch_text(sys, self.ptr(), ACTION_GET_ID)
    }

    /// Reads the action's kind.
    fn get_Type(&self, sys: &mut ForeignSystem) -> (r: HrResult<u32>)
        requires
            old(sys)@.has_slot(self.ptr_spec(), ACTION_GET_TYPE),
            old(sys)@.slot(self.ptr_spec(), ACTION_GET_TYPE) is Value,
        ensures
            r == value_result(
                slot_code(old(sys)@.slot(self.ptr_spec(), ACTION_GET_TYPE)),
                slot_value(old(sys)@.slot(self.ptr_spec(), ACTION_GET_TYPE)),
            ),
            final(sys)@.plain_call_logged(old(sys)@, self.ptr_spec(), ACTION_GET_TYPE),
    {
        dispatch_value(sys, self.ptr(), ACTION_GET_TYPE)
    }
}

/// The e-mail task action interface.
///
/// Owns one reference on its object; give it back with `Release`.
pub struct IEmailAction {
    ptr: usize,
}

impl ComInterface for IEmailAction {
    open spec fn iid_spec() -> u128 {
        IID_IEmailAction
    }

    closed spec fn ptr_spec(&self) -> usize {
        self.ptr
    }

    fn IID() -> (r: u128) {
        IID_IEmailAction
    }

    fn ptr(&self) -> (r: usize) {
        self.ptr
    }

    fn from_ptr(p: usize) -> (r: Self) {
        IEmailAction { ptr: p }
    }
}

impl ole_IUnknown for IEmailAction {}

impl oleaut_IDispatch for IEmailAction {}

impl taskschd_IAction for IEmailAction {}

impl taskschd_IEmailAction for IEmailAction {}

/// The e-mail task action capability, over the task action capability.
pub trait taskschd_IEmailAction: taskschd_IAction {
    /// Reads the blind-copy recipients.
    fn get_Bcc(&self, sys: &mut ForeignSystem) -> (r: HrResult<String>)
        requires
            old(sys)@.has_slot(self.ptr_spec(), EMAIL_ACTION_GET_BCC),
            old(sys)@.slot(self.ptr_spec(), EMAIL_ACTION_GET_BCC) is Text,
            slot_text(old(sys)@.slot(self.ptr_spec(), EMAIL_ACTION_GET_BCC)).len() + 1 < usize::MAX,
        ensures
            text_result(old(sys)@.slot(self.ptr_spec(), EMAIL_ACTION_GET_BCC), r),
            text_calls_logged(old(sys)@, final(sys)@, self.ptr_spec(), EMAIL_ACTION_GET_BCC),
    {
        dispatch_text(sys, self.ptr(), EMAIL_ACTION_GET_BCC)
    }

    /// Reads the message body.
    fn get_Body(&self, sys: &mut ForeignSystem) -> (r: HrResult<String>)
        requires
            old(sys)@.has_slot(self.ptr_spec(), EMAIL_ACTION_GET_BODY),
            old(sys)@.slot(self.ptr_spec(), EMAIL_ACTION_GET_BODY) is Text,
            slot_text(old(sys)@.slot(self.ptr_spec(), EMAIL_ACTION_GET_BODY)).len() + 1 < usize::MAX,
        ensures
            text_result(old(sys)@.slot(self.ptr_spec(), EMAIL_ACTION_GET_BODY), r),
            text_calls_logged(old(sys)@, final(sys)@, self.ptr_spec(), EMAIL_ACTION_GET_BODY),
    {
        dispatch_text(sys, self.ptr(), EMAIL_ACTION_GET_BODY)
    }

    /// Reads the copy recipients.
    fn get_Cc(&self, sys: &mut ForeignSystem) -> (r: HrResult<String>)
        requires
            old(sys)@.has_slot(self.ptr_spec(), EMAIL_ACTION_GET_CC),
            old(sys)@.slot(self.ptr_spec(), EMAIL_ACTION_GET_CC) is Text,
            slot_text(old(sys)@.slot(self.ptr_spec(), EMAIL_ACTION_GET_CC)).len() + 1 < usize::MAX,
        ensures
            text_result(old(sys)@.slot(self.ptr_spec(), EMAIL_ACTION_GET_CC), r),
            text_calls_logged(old(sys)@, final(sys)@, self.ptr_spec(), EMAIL_ACTION_GET_CC),
    {
        dispatch_text(sys, self.ptr(), EMAIL_ACTION_GET_CC)
    }

    /// Reads the sender.
    fn get_From(&self, sys: &mut ForeignSystem) -> (r: HrResult<String>)
        requires
            old(sys)@.has_slot(self.ptr_spec(), EMAIL_ACTION_GET_FROM),
            old(sys)@.slot(self.ptr_spec(), EMAIL_ACTION_GET_FROM) is Text,
            slot_text(old(sys)@.slot(self.ptr_spec(), EMAIL_ACTION_GET_FROM)).len() + 1 < usize::MAX,
        ensures
            text_result(old(sys)@.slot(self.ptr_spec(), EMAIL_ACTION_GET_FROM), r),
            text_calls_logged(old(sys)@, final(sys)@, self.ptr_spec(), EMAIL_ACTION_GET_FROM),
    {
        dispatch_text(sys, self.ptr(), EMAIL_ACTION_GET_FROM)
    }

    /// Reads the reply-to address.
    fn get_ReplyTo(&self, sys: &mut ForeignSystem) -> (r: HrResult<String>)
        requires
            old(sys)@.has_slot(self.ptr_spec(), EMAIL_ACTION_GET_REPLY_TO),
            old(sys)@.slot(self.ptr_spec(), EMAIL_ACTION_GET_REPLY_TO) is Text,
            slot_text(old(sys)@.slot(self.ptr_spec(), EMAIL_ACTION_GET_REPLY_TO)).len() + 1 < usize::MAX,
        ensures
            text_result(old(sys)@.slot(self.ptr_spec(), EMAIL_ACTION_GET_REPLY_TO), r),
            text_calls_logged(old(sys)@, final(sys)@, self.ptr_spec(), EMAIL_ACTION_GET_REPLY_TO),
    {
        dispatch_text(sys, self.ptr(), EMAIL_ACTION_GET_REPLY_TO)
    }

    /// Reads the mail server.
    fn get_Server(&self, sys: &mut ForeignSystem) -> (r: HrResult<String>)
        requires
            old(sys)@.has_slot(self.ptr_spec(), EMAIL_ACTION_GET_SERVER),
            old(sys)@.slot(self.ptr_spec(), EMAIL_ACTION_GET_SERVER) is Text,
            slot_text(old(sys)@.slot(self.ptr_spec(), EMAIL_ACTION_GET_SERVER)).len() + 1 < usize::MAX,
        ensures
            text_result(old(sys)@.slot(self.ptr_spec(), EMAIL_ACTION_GET_SERVER), r),
            text_calls_logged(old(sys)@, final(sys)@, self.ptr_spec(), EMAIL_ACTION_GET_SERVER),
    {
        dispatch_text(sys, self.ptr(), EMAIL_ACTION_GET_SERVER)
    }

    /// Reads the subject.
    fn get_Subject(&self, sys: &mut ForeignSystem) -> (r: HrResult<String>)
        requires
            old(sys)@.has_slot(self.ptr_spec(), EMAIL_ACTION_GET_SUBJECT),
            old(sys)@.slot(self.ptr_spec(), EMAIL_ACTION_GET_SUBJECT) is Text,
            slot_text(old(sys)@.slot(self.ptr_spec(), EMAIL_ACTION_GET_SUBJECT)).len() + 1 < usize::MAX,
        ensures
            text_result(old(sys)@.slot(self.ptr_spec(), EMAIL_ACTION_GET_SUBJECT), r),
            text_calls_logged(old(sys)@, final(sys)@, self.ptr_spec(), EMAIL_ACTION_GET_SUBJECT),
    {
        dispatch_text(sys, self.ptr(), EMAIL_ACTION_GET_SUBJECT)
    }

    /// Reads the recipients.
    fn get_To(&self, sys: &mut ForeignSystem) -> (r: HrResult<String>)
        requires
            old(sys)@.has_slot(self.ptr_spec(), EMAIL_ACTION_GET_TO),
            old(sys)@.slot(self.ptr_spec(), EMAIL_ACTION_GET_TO) is Text,
            slot_text(old(sys)@.slot(self.ptr_spec(), EMAIL_ACTION_GET_TO)).len() + 1 < usize::MAX,
        ensures
            text_result(old(sys)@.slot(self.ptr_spec(), EMAIL_ACTION_GET_TO), r),
            text_calls_logged(old(sys)@, final(sys)@, self.ptr_spec(), EMAIL_ACTION_GET_TO),
    {
        dispatch_text(sys, self.ptr(), EMAIL_ACTION_GET_TO)
    }
    /// Writes the blind-copy recipients; the text crosses over in the foreign encoding.
    fn put_Bcc(&self, sys: &mut ForeignSystem, bcc: &str) -> (r: HrResult<()>)
        requires
            old(sys)@.has_slot(self.ptr_spec(), EMAIL_ACTION_PUT_BCC),
            old(sys)@.slot(self.ptr_spec(), EMAIL_ACTION_PUT_BCC) is Status,
        ensures
            r == ok_result(slot_code(old(sys)@.slot(self.ptr_spec(), EMAIL_ACTION_PUT_BCC))),
            final(sys)@.call_logged(old(sys)@, self.ptr_spec(), EMAIL_ACTION_PUT_BCC, 0, 0, wide_text(bcc@)),
    {
        dispatch_with_args(sys, self.ptr(), EMAIL_ACTION_PUT_BCC, 0, 0, to_wide(bcc))
    }

    /// Writes the message body; the text crosses over in the foreign encoding.
    fn put_Body(&self, sys: &mut ForeignSystem, body: &str) -> (r: HrResult<()>)
        requires
            old(sys)@.has_slot(self.ptr_spec(), EMAIL_ACTION_PUT_BODY),
            old(sys)@.slot(self.ptr_spec(), EMAIL_ACTION_PUT_BODY) is Status,
        ensures
            r == ok_result(slot_code(old(sys)@.slot(self.ptr_spec(), EMAIL_ACTION_PUT_BODY))),
            final(sys)@.call_logged(old(sys)@, self.ptr_spec(), EMAIL_ACTION_PUT_BODY, 0, 0, wide_text(body@)),
    {
        dispatch_with_args(sys, self.ptr(), EMAIL_ACTION_PUT_BODY, 0, 0, to_wide(body))
    }

    /// Writes the copy recipients; the text crosses over in the foreign encoding.
    fn put_Cc(&self, sys: &mut ForeignSystem, cc: &str) -> (r: HrResult<()>)
        requires
            old(sys)@.has_slot(self.ptr_spec(), EMAIL_ACTION_PUT_CC),
            old(sys)@.slot(self.ptr_spec(), EMAIL_ACTION_PUT_CC) is Status,
        ensures
            r == ok_result(slot_code(old(sys)@.slot(self.ptr_spec(), EMAIL_ACTION_PUT_CC))),
            final(sys)@.call_logged(old(sys)@, self.ptr_spec(), EMAIL_ACTION_PUT_CC, 0, 0, wide_text(cc@)),
    {
        dispatch_with_args(sys, self.ptr(), EMAIL_ACTION_PUT_CC, 0, 0, to_wide(cc))
    }

    /// Writes the sender; the text crosses over in the foreign encoding.
    fn put_From(&self, sys: &mut ForeignSystem, from: &str) -> (r: HrResult<()>)
        requires
            old(sys)@.has_slot(self.ptr_spec(), EMAIL_ACTION_PUT_FROM),
            old(sys)@.slot(self.ptr_spec(), EMAIL_ACTION_PUT_FROM) is Status,
        ensures
            r == ok_result(slot_code(old(sys)@.slot(self.ptr_spec(), EMAIL_ACTION_PUT_FROM))),
            final(sys)@.call_logged(old(sys)@, self.ptr_spec(), EMAIL_ACTION_PUT_FROM, 0, 0, wide_text(from@)),
    {
        dispatch_with_args(sys, self.ptr(), EMAIL_ACTION_PUT_FROM, 0, 0, to_wide(from))
    }

    /// Writes the reply-to address; the text crosses over in the foreign encoding.
    fn put_ReplyTo(&self, sys: &mut ForeignSystem, reply_to: &str) -> (r: HrResult<()>)
        requires
            old(sys)@.has_slot(self.ptr_spec(), EMAIL_ACTION_PUT_REPLY_TO),
            old(sys)@.slot(self.ptr_spec(), EMAIL_ACTION_PUT_REPLY_TO) is Status,
        ensures
            r == ok_result(slot_code(old(sys)@.slot(self.ptr_spec(), EMAIL_ACTION_PUT_REPLY_TO))),
            final(sys)@.call_logged(old(sys)@, self.ptr_spec(), EMAIL_ACTION_PUT_REPLY_TO, 0, 0, wide_text(reply_to@)),
    {
        dispatch_with_args(sys, self.ptr(), EMAIL_ACTION_PUT_REPLY_TO, 0, 0, to_wide(reply_to))
    }

    /// Writes the mail server; the text crosses over in the foreign encoding.
    fn put_Server(&self, sys: &mut ForeignSystem, server: &str) -> (r: HrResult<()>)
        requires
            old(sys)@.has_slot(self.ptr_spec(), EMAIL_ACTION_PUT_SERVER),
            old(sys)@.slot(self.ptr_spec(), EMAIL_ACTION_PUT_SERVER) is Status,
        ensures
            r == ok_result(slot_code(old(sys)@.slot(self.ptr_spec(), EMAIL_ACTION_PUT_SERVER))),
            final(sys)@.call_logged(old(sys)@, self.ptr_spec(), EMAIL_ACTION_PUT_SERVER, 0, 0, wide_text(server@)),
    {
        dispatch_with_args(sys, self.ptr(), EMAIL_ACTION_PUT_SERVER, 0, 0, to_wide(server))
    }

    /// Writes the subject; the text crosses over in the foreign encoding.
    fn put_Subject(&self, sys: &mut ForeignSystem, subject: &str) -> (r: HrResult<()>)
        requires
            old(sys)@.has_slot(self.ptr_spec(), EMAIL_ACTION_PUT_SUBJECT),
            old(sys)@.slot(self.ptr_spec(), EMAIL_ACTION_PUT_SUBJECT) is Status,
        ensures
            r == ok_result(slot_code(old(sys)@.slot(self.ptr_spec(), EMAIL_ACTION_PUT_SUBJECT))),
            final(sys)@.call_logged(old(sys)@, self.ptr_spec(), EMAIL_ACTION_PUT_SUBJECT, 0, 0, wide_text(subject@)),
    {
        dispatch_with_args(sys, self.ptr(), EMAIL_ACTION_PUT_SUBJECT, 0, 0, to_wide(subject))
    }

    /// Writes the recipients; the text crosses over in the foreign encoding.
    fn put_To(&self, sys: &mut ForeignSystem, to: &str) -> (r: HrResult<()>)
        requires
            old(sys)@.has_slot(self.ptr_spec(), EMAIL_ACTION_PUT_TO),
            old(sys)@.slot(self.ptr_spec(), EMAIL_ACTION_PUT_TO) is Status,
        ensures
            r == ok_result(slot_code(old(sys)@.slot(self.ptr_spec(), EMAIL_ACTION_PUT_TO))),
            final(sys)@.call_logged(old(sys)@, self.ptr_spec(), EMAIL_ACTION_PUT_TO, 0, 0, wide_text(to@)),
    {
        dispatch_with_args(sys, self.ptr(), EMAIL_ACTION_PUT_TO, 0, 0, to_wide(to))
    }
}

/// The task trigger interface.
///
/// Owns one reference on its object; give it back with `Release`.
pub struct ITrigger {
    ptr: usize,
}

impl ComInterface for ITrigger {
    open spec fn iid_spec() -> u128 {
        IID_ITrigger
    }

    closed spec fn ptr_spec(&self) -> usize {
        self.ptr
    }

    fn IID() -> (r: u128) {
        IID_ITrigger
    }

    fn ptr(&self) -> (r: usize) {
        self.ptr
    }

    fn from_ptr(p: usize) -> (r: Self) {
        ITrigger { ptr: p }
    }
}

impl ole_IUnknown for ITrigger {}

impl oleaut_IDispatch for ITrigger {}

impl taskschd_ITrigger for ITrigger {}

/// The task trigger capability.
pub trait taskschd_ITrigger: oleaut_IDispatch {
    /// Whether the trigger is enabled: the slot's number is non-zero.
    fn get_Enabled(&self, sys: &mut ForeignSystem) -> (r: HrResult<bool>)
        requires
            old(sys)@.has_slot(self.ptr_spec(), TRIGGER_GET_ENABLED),
            old(sys)@.slot(self.ptr_spec(), TRIGGER_GET_ENABLED) is Value,
        ensures
            r == value_result(
                slot_code(old(sys)@.slot(self.ptr_spec(), TRIGGER_GET_ENABLED)),
                slot_value(old(sys)@.slot(self.ptr_spec(), TRIGGER_GET_ENABLED)) != 0,
            ),
            final(sys)@.plain_call_logged(old(sys)@, self.ptr_spec(), TRIGGER_GET_ENABLED),
    {
        match dispatch_value(sys, self.ptr(), TRIGGER_GET_ENABLED) {
            Ok(v) => Ok(v != 0),
            Err(e) => Err(e),
        }
    }

    /// Reads the time after which the trigger is off.
    fn get_EndBoundary(&self, sys: &mut ForeignSystem) -> (r: HrResult<String>)
        requires
            old(sys)@.has_slot(self.ptr_spec(), TRIGGER_GET_END_BOUNDARY),
            old(sys)@.slot(self.ptr_spec(), TRIGGER_GET_END_BOUNDARY) is Text,
            slot_text(old(sys)@.slot(self.ptr_spec(), TRIGGER_GET_END_BOUNDARY)).len() + 1 < usize::MAX,
        ensures
            text_result(old(sys)@.slot(self.ptr_spec(), TRIGGER_GET_END_BOUNDARY), r),
            text_calls_logged(old(sys)@, final(sys)@, self.ptr_spec(), TRIGGER_GET_END_BOUNDARY),
    {
        dispatch_text(sys, self.ptr(), TRIGGER_GET_END_BOUNDARY)
    }

    /// Reads the longest run that the trigger allows.
    fn get_ExecutionTimeLimit(&self, sys: &mut ForeignSystem) -> (r: HrResult<String>)
        requires
            old(sys)@.has_slot(self.ptr_spec(), TRIGGER_GET_EXECUTION_TIME_LIMIT),
            old(sys)@.slot(self.ptr_spec(), TRIGGER_GET_EXECUTION_TIME_LIMIT) is Text,
            slot_text(old(sys)@.slot(self.ptr_spec(), TRIGGER_GET_EXECUTION_TIME_LIMIT)).len() + 1 < usize::MAX,
        ensures
            text_result(old(sys)@.slot(self.ptr_spec(), TRIGGER_GET_EXECUTION_TIME_LIMIT), r),
            text_calls_logged(old(sys)@, final(sys)@, self.ptr_spec(), TRIGGER_GET_EXECUTION_TIME_LIMIT),
    {
        dispatch_text(sys, self.ptr(), TRIGGER_GET_EXECUTION_TIME_LIMIT)
    }

    /// Reads the trigger's identifier.
    fn get_Id(&self, sys: &mut ForeignSystem) -> (r: HrResult<String>)
        requires
            old(sys)@.has_slot(self.ptr_spec(), TRIGGER_GET_ID),
            old(sys)@.slot(self.ptr_spec(), TRIGGER_GET_ID) is Text,
            slot_text(old(sys)@.slot(self.ptr_spec(), TRIGGER_GET_ID)).len() + 1 < usize::MAX,
        ensures
            text_result(old(sys)@.slot(self.ptr_spec(), TRIGGER_GET_ID), r),
            text_calls_logged(old(sys)@, final(sys)@, self.ptr_spec(), TRIGGER_GET_ID),
    {
        dispatch_text(sys, self.ptr(), TRIGGER_GET_ID)
    }

    /// Reads the time from which the trigger is on.
    fn get_StartBoundary(&self, sys: &mut ForeignSystem) -> (r: HrResult<String>)
        requires
            old(sys)@.has_slot(self.ptr_spec(), TRIGGER_GET_START_BOUNDARY),
            old(sys)@.slot(self.ptr_spec(), TRIGGER_GET_START_BOUNDARY) is Text,
            slot_text(old(sys)@.slot(self.ptr_spec(), TRIGGER_GET_START_BOUNDARY)).len() + 1 < usize::MAX,
        ensures
            text_result(old(sys)@.slot(self.ptr_spec(), TRIGGER_GET_START_BOUNDARY), r),
            text_calls_logged(old(sys)@, final(sys)@, self.ptr_spec(), TRIGGER_GET_START_BOUNDARY),
    {
        dispatch_text(sys, self.ptr(), TRIGGER_GET_START_BOUNDARY)
    }

    /// Reads the trigger's kind.
    fn get_Type(&self, sys: &mut ForeignSystem) -> (r: HrResult<u32>)
        requires
            old(sys)@.has_slot(self.ptr_spec(), TRIGGER_GET_TYPE),
            old(sys)@.slot(self.ptr_spec(), TRIGGER_GET_TYPE) is Value,
        ensures
            r == value_result(
                slot_code(old(sys)@.slot(self.ptr_spec(), TRIGGER_GET_TYPE)),
                slot_value(old(sys)@.slot(self.ptr_spec(), TRIGGER_GET_TYPE)),
            ),
            final(sys)@.plain_call_logged(old(sys)@, self.ptr_spec(), TRIGGER_GET_TYPE),
    {
        dispatch_value(sys, self.ptr(), TRIGGER_GET_TYPE)
    }

    /// Enables or disables the trigger; the flag crosses over as one or zero.
    fn put_Enabled(&self, sys: &mut ForeignSystem, enabled: bool) -> (r: HrResult<()>)
        requires
            old(sys)@.has_slot(self.ptr_spec(), TRIGGER_PUT_ENABLED),
            old(sys)@.slot(self.ptr_spec(), TRIGGER_PUT_ENABLED) is Status,
        ensures
            r == ok_result(slot_code(old(sys)@.slot(self.ptr_spec(), TRIGGER_PUT_ENABLED))),
            final(sys)@.call_logged(
                old(sys)@,
                self.ptr_spec(),
                TRIGGER_PUT_ENABLED,
                0,
                if enabled { 1 } else { 0 },
                Seq::<u16>::empty(),
            ),
    {
        let flag: u32 = if enabled { 1 } else { 0 };
        dispatch_with_args(sys, self.ptr(), TRIGGER_PUT_ENABLED, 0, flag, Vec::new())
    }
    /// Writes the time after which the trigger is off; the text crosses over in the foreign encoding.
    fn put_EndBoundary(&self, sys: &mut ForeignSystem, end: &str) -> (r: HrResult<()>)
        requires
            old(sys)@.has_slot(self.ptr_spec(), TRIGGER_PUT_END_BOUNDARY),
            old(sys)@.slot(self.ptr_spec(), TRIGGER_PUT_END_BOUNDARY) is Status,
        ensures
            r == ok_result(slot_code(old(sys)@.slot(self.ptr_spec(), TRIGGER_PUT_END_BOUNDARY))),
            final(sys)@.call_logged(old(sys)@, self.ptr_spec(), TRIGGER_PUT_END_BOUNDARY, 0, 0, wide_text(end@)),
    {
        dispatch_with_args(sys, self.ptr(), TRIGGER_PUT_END_BOUNDARY, 0, 0, to_wide(end))
    }

    /// Writes the longest run that the trigger allows; the text crosses over in the foreign encoding.
    fn put_ExecutionTimeLimit(&self, sys: &mut ForeignSystem, time_limit: &str) -> (r: HrResult<()>)
        requires
            old(sys)@.has_slot(self.ptr_spec(), TRIGGER_PUT_EXECUTION_TIME_LIMIT),
            old(sys)@.slot(self.ptr_spec(), TRIGGER_PUT_EXECUTION_TIME_LIMIT) is Status,
        ensures
            r == ok_result(slot_code(old(sys)@.slot(self.ptr_spec(), TRIGGER_PUT_EXECUTION_TIME_LIMIT))),
            final(sys)@.call_logged(old(sys)@, self.ptr_spec(), TRIGGER_PUT_EXECUTION_TIME_LIMIT, 0, 0, wide_text(time_limit@)),
    {
        dispatch_with_args(sys, self.ptr(), TRIGGER_PUT_EXECUTION_TIME_LIMIT, 0, 0, to_wide(time_limit))
    }

    /// Writes the trigger's identifier; the text crosses over in the foreign encoding.
    fn put_Id(&self, sys: &mut ForeignSystem, id: &str) -> (r: HrResult<()>)
        requires
            old(sys)@.has_slot(self.ptr_spec(), TRIGGER_PUT_ID),
            old(sys)@.slot(self.ptr_spec(), TRIGGER_PUT_ID) is Status,
        ensures
            r == ok_result(slot_code(old(sys)@.slot(self.ptr_spec(), TRIGGER_PUT_ID))),
            final(sys)@.call_logged(old(sys)@, self.ptr_spec(), TRIGGER_PUT_ID, 0, 0, wide_text(id@)),
    {
        dispatch_with_args(sys, self.ptr(), TRIGGER_PUT_ID, 0, 0, to_wide(id))
    }

    /// Writes the time from which the trigger is on; the text crosses over in the foreign encoding.
    fn put_StartBoundary(&self, sys: &mut ForeignSystem, start: &str) -> (r: HrResult<()>)
        requires
            old(sys)@.has_slot(self.ptr_spec(), TRIGGER_PUT_START_BOUNDARY),
            old(sys)@.slot(self.ptr_spec(), TRIGGER_PUT_START_BOUNDARY) is Status,
        ensures
            r == ok_result(slot_code(old(sys)@.slot(self.ptr_spec(), TRIGGER_PUT_START_BOUNDARY))),
            final(sys)@.call_logged(old(sys)@, self.ptr_spec(), TRIGGER_PUT_START_BOUNDARY, 0, 0, wide_text(start@)),
    {
        dispatch_with_args(sys, self.ptr(), TRIGGER_PUT_START_BOUNDARY, 0, 0, to_wide(start))
    }
}

} // verus!
