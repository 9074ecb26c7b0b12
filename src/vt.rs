//! Dispatch-table layouts. Each interface's table is its base's table,
//! verbatim, followed by its own slots; a slot's index in the flat table is
//! fixed by that order and must match the foreign definition.
use vstd::prelude::*;
use crate::system::Slot;

verus! {

/// Number of slots in the base lifetime table.
pub const UNKNOWN_LEN: usize = 3;

/// Slot of the base capability query.
pub const UNKNOWN_QUERY_INTERFACE: usize = 0;

/// Slot of the base increment.
pub const UNKNOWN_ADD_REF: usize = 1;

/// Slot of the base decrement.
pub const UNKNOWN_RELEASE: usize = 2;

/// The base lifetime table, shared by every interface.
pub struct IUnknownVT {
    pub QueryInterface: Slot,
    pub AddRef: Slot,
    pub Release: Slot,
}

impl IUnknownVT {
    /// The flat table.
    pub open spec fn slots(&self) -> Seq<Slot> {
        seq![self.QueryInterface, self.AddRef, self.Release]
    }

    /// The base table as the system serves it.
    pub fn intrinsic() -> (r: IUnknownVT)
        ensures
            r.slots() == seq![Slot::Intrinsic, Slot::Intrinsic, Slot::Intrinsic],
    {
        IUnknownVT { QueryInterface: Slot::Intrinsic, AddRef: Slot::Intrinsic, Release: Slot::Intrinsic }
    }

    /// Lays the table out flat.
    pub fn into_slots(self) -> (r: Vec<Slot>)
        ensures
            r@ == self.slots(),
    {
        let ghost s = self.slots();
        let mut v: Vec<Slot> = Vec::new();
        v.push(self.QueryInterface);
        v.push(self.AddRef);
        v.push(self.Release);
        assert(v@ =~= s);
        v
    }
}

/// Number of slots in the automation dispatch table.
pub const DISPATCH_LEN: usize = 7;

/// Slot of `GetTypeInfoCount` in the automation dispatch table.
pub const DISPATCH_GET_TYPE_INFO_COUNT: usize = 3;

/// Slot of `GetTypeInfo` in the automation dispatch table.
pub const DISPATCH_GET_TYPE_INFO: usize = 4;

/// Slot of `GetIDsOfNames` in the automation dispatch table.
pub const DISPATCH_GET_IDS_OF_NAMES: usize = 5;

/// Slot of `Invoke` in the automation dispatch table.
pub const DISPATCH_INVOKE: usize = 6;

/// The automation dispatch table: the `IUnknownVT` table, then its own slots.
pub struct IDispatchVT {
    pub IUnknownVT: IUnknownVT,
    pub GetTypeInfoCount: Slot,
    pub GetTypeInfo: Slot,
    pub GetIDsOfNames: Slot,
    pub Invoke: Slot,
}

impl IDispatchVT {
    /// The flat table: the base's slots, then this interface's own.
    pub open spec fn slots(&self) -> Seq<Slot> {
        self.IUnknownVT.slots() + seq![self.GetTypeInfoCount, self.GetTypeInfo, self.GetIDsOfNames, self.Invoke]
    }

    /// Lays the table out flat.
    pub fn into_slots(self) -> (r: Vec<Slot>)
        ensures
            r@ == self.slots(),
    {
        let ghost s = self.slots();
        let mut v = self.IUnknownVT.into_slots();
        v.push(self.GetTypeInfoCount);
        v.push(self.GetTypeInfo);
        v.push(self.GetIDsOfNames);
        v.push(self.Invoke);
        assert(v@ =~= s);
        v
    }
}

/// Number of slots in the scheduled task action table.
pub const ACTION_LEN: usize = 10;

/// Slot of `get_Id` in the scheduled task action table.
pub const ACTION_GET_ID: usize = 7;

/// Slot of `put_Id` in the scheduled task action table.
pub const ACTION_PUT_ID: usize = 8;

/// Slot of `get_Type` in the scheduled task action table.
pub const ACTION_GET_TYPE: usize = 9;

/// The scheduled task action table: the `IDispatchVT` table, then its own slots.
pub struct IActionVT {
    pub IDispatchVT: IDispatchVT,
    pub get_Id: Slot,
    pub put_Id: Slot,
    pub get_Type: Slot,
}

impl IActionVT {
    /// The flat table: the base's slots, then this interface's own.
    pub open spec fn slots(&self) -> Seq<Slot> {
        self.IDispatchVT.slots() + seq![self.get_Id, self.put_Id, self.get_Type]
    }

    /// Lays the table out flat.
    pub fn into_slots(self) -> (r: Vec<Slot>)
        ensures
            r@ == self.slots(),
    {
        let ghost s = self.slots();
        let mut v = self.IDispatchVT.into_slots();
        v.push(self.get_Id);
        v.push(self.put_Id);
        v.push(self.get_Type);
        assert(v@ =~= s);
        v
    }
}

/// Number of slots in the e-mail task action table.
pub const EMAIL_ACTION_LEN: usize = 30;

/// Slot of `get_Server` in the e-mail task action table.
pub const EMAIL_ACTION_GET_SERVER: usize = 10;

/// Slot of `put_Server` in the e-mail task action table.
pub const EMAIL_ACTION_PUT_SERVER: usize = 11;

/// Slot of `get_Subject` in the e-mail task action table.
pub const EMAIL_ACTION_GET_SUBJECT: usize = 12;

/// Slot of `put_Subject` in the e-mail task action table.
pub const EMAIL_ACTION_PUT_SUBJECT: usize = 13;

/// Slot of `get_To` in the e-mail task action table.
pub const EMAIL_ACTION_GET_TO: usize = 14;

/// Slot of `put_To` in the e-mail task action table.
pub const EMAIL_ACTION_PUT_TO: usize = 15;

/// Slot of `get_Cc` in the e-mail task action table.
pub const EMAIL_ACTION_GET_CC: usize = 16;

/// Slot of `put_Cc` in the e-mail task action table.
pub const EMAIL_ACTION_PUT_CC: usize = 17;

/// Slot of `get_Bcc` in the e-mail task action table.
pub const EMAIL_ACTION_GET_BCC: usize = 18;

/// Slot of `put_Bcc` in the e-mail task action table.
pub const EMAIL_ACTION_PUT_BCC: usize = 19;

/// Slot of `get_ReplyTo` in the e-mail task action table.
pub const EMAIL_ACTION_GET_REPLY_TO: usize = 20;

/// Slot of `put_ReplyTo` in the e-mail task action table.
pub const EMAIL_ACTION_PUT_REPLY_TO: usize = 21;

/// Slot of `get_From` in the e-mail task action table.
pub const EMAIL_ACTION_GET_FROM: usize = 22;

/// Slot of `put_From` in the e-mail task action table.
pub const EMAIL_ACTION_PUT_FROM: usize = 23;

/// Slot of `get_HeaderFields` in the e-mail task action table.
pub const EMAIL_ACTION_GET_HEADER_FIELDS: usize = 24;

/// Slot of `put_HeaderFields` in the e-mail task action table.
pub const EMAIL_ACTION_PUT_HEADER_FIELDS: usize = 25;

/// Slot of `get_Body` in the e-mail task action table.
pub const EMAIL_ACTION_GET_BODY: usize = 26;

/// Slot of `put_Body` in the e-mail task action table.
pub const EMAIL_ACTION_PUT_BODY: usize = 27;

/// Slot of `get_Attachments` in the e-mail task action table.
pub const EMAIL_ACTION_GET_ATTACHMENTS: usize = 28;

/// Slot of `put_Attachments` in the e-mail task action table.
pub const EMAIL_ACTION_PUT_ATTACHMENTS: usize = 29;

/// The e-mail task action table: the `IActionVT` table, then its own slots.
pub struct IEmailActionVT {
    pub IAction: IActionVT,
    pub get_Server: Slot,
    pub put_Server: Slot,
    pub get_Subject: Slot,
    pub put_Subject: Slot,
    pub get_To: Slot,
    pub put_To: Slot,
    pub get_Cc: Slot,
    pub put_Cc: Slot,
    pub get_Bcc: Slot,
    pub put_Bcc: Slot,
    pub get_ReplyTo: Slot,
    pub put_ReplyTo: Slot,
    pub get_From: Slot,
    pub put_From: Slot,
    pub get_HeaderFields: Slot,
    pub put_HeaderFields: Slot,
    pub get_Body: Slot,
    pub put_Body: Slot,
    pub get_Attachments: Slot,
    pub put_Attachments: Slot,
}

impl IEmailActionVT {
    /// The flat table: the base's slots, then this interface's own.
    pub open spec fn slots(&self) -> Seq<Slot> {
        self.IAction.slots() + seq![self.get_Server, self.put_Server, self.get_Subject, self.put_Subject, self.get_To, self.put_To, self.get_Cc, self.put_Cc, self.get_Bcc, self.put_Bcc, self.get_ReplyTo, self.put_ReplyTo, self.get_From, self.put_From, self.get_HeaderFields, self.put_HeaderFields, self.get_Body, self.put_Body, self.get_Attachments, self.put_Attachments]
    }

    /// Lays the table out flat.
    pub fn into_slots(self) -> (r: Vec<Slot>)
        ensures
            r@ == self.slots(),
    {
        let ghost s = self.slots();
        let mut v = self.IAction.into_slots();
        v.push(self.get_Server);
        v.push(self.put_Server);
        v.push(self.get_Subject);
        v.push(self.put_Subject);
        v.push(self.get_To);
        v.push(self.put_To);
        v.push(self.get_Cc);
        v.push(self.put_Cc);
        v.push(self.get_Bcc);
        v.push(self.put_Bcc);
        v.push(self.get_ReplyTo);
        v.push(self.put_ReplyTo);
        v.push(self.get_From);
        v.push(self.put_From);
        v.push(self.get_HeaderFields);
        v.push(self.put_HeaderFields);
        v.push(self.get_Body);
        v.push(self.put_Body);
        v.push(self.get_Attachments);
        v.push(self.put_Attachments);
        assert(v@ =~= s);
        v
    }
}

/// Number of slots in the task trigger table.
pub const TRIGGER_LEN: usize = 20;

/// Slot of `get_Type` in the task trigger table.
pub const TRIGGER_GET_TYPE: usize = 7;

/// Slot of `get_Id` in the task trigger table.
pub const TRIGGER_GET_ID: usize = 8;

/// Slot of `put_Id` in the task trigger table.
pub const TRIGGER_PUT_ID: usize = 9;

/// Slot of `get_Repetition` in the task trigger table.
pub const TRIGGER_GET_REPETITION: usize = 10;

/// Slot of `put_Repetition` in the task trigger table.
pub const TRIGGER_PUT_REPETITION: usize = 11;

/// Slot of `get_ExecutionTimeLimit` in the task trigger table.
pub const TRIGGER_GET_EXECUTION_TIME_LIMIT: usize = 12;

/// Slot of `put_ExecutionTimeLimit` in the task trigger table.
pub const TRIGGER_PUT_EXECUTION_TIME_LIMIT: usize = 13;

/// Slot of `get_StartBoundary` in the task trigger table.
pub const TRIGGER_GET_START_BOUNDARY: usize = 14;

/// Slot of `put_StartBoundary` in the task trigger table.
pub const TRIGGER_PUT_START_BOUNDARY: usize = 15;

/// Slot of `get_EndBoundary` in the task trigger table.
pub const TRIGGER_GET_END_BOUNDARY: usize = 16;

/// Slot of `put_EndBoundary` in the task trigger table.
pub const TRIGGER_PUT_END_BOUNDARY: usize = 17;

/// Slot of `get_Enabled` in the task trigger table.
pub const TRIGGER_GET_ENABLED: usize = 18;

/// Slot of `put_Enabled` in the task trigger table.
pub const TRIGGER_PUT_ENABLED: usize = 19;

/// The task trigger table: the `IDispatchVT` table, then its own slots.
pub struct ITriggerVT {
    pub IDispatchVT: IDispatchVT,
    pub get_Type: Slot,
    pub get_Id: Slot,
    pub put_Id: Slot,
    pub get_Repetition: Slot,
    pub put_Repetition: Slot,
    pub get_ExecutionTimeLimit: Slot,
    pub put_ExecutionTimeLimit: Slot,
    pub get_StartBoundary: Slot,
    pub put_StartBoundary: Slot,
    pub get_EndBoundary: Slot,
    pub put_EndBoundary: Slot,
    pub get_Enabled: Slot,
    pub put_Enabled: Slot,
}

impl ITriggerVT {
    /// The flat table: the base's slots, then this interface's own.
    pub open spec fn slots(&self) -> Seq<Slot> {
        self.IDispatchVT.slots() + seq![self.get_Type, self.get_Id, self.put_Id, self.get_Repetition, self.put_Repetition, self.get_ExecutionTimeLimit, self.put_ExecutionTimeLimit, self.get_StartBoundary, self.put_StartBoundary, self.get_EndBoundary, self.put_EndBoundary, self.get_Enabled, self.put_Enabled]
    }

    /// Lays the table out flat.
    pub fn into_slots(self) -> (r: Vec<Slot>)
        ensures
            r@ == self.slots(),
    {
        let ghost s = self.slots();
        let mut v = self.IDispatchVT.into_slots();
        v.push(self.get_Type);
        v.push(self.get_Id);
        v.push(self.put_Id);
        v.push(self.get_Repetition);
        v.push(self.put_Repetition);
        v.push(self.get_ExecutionTimeLimit);
        v.push(self.put_ExecutionTimeLimit);
        v.push(self.get_StartBoundary);
        v.push(self.put_StartBoundary);
        v.push(self.get_EndBoundary);
        v.push(self.put_EndBoundary);
        v.push(self.get_Enabled);
        v.push(self.put_Enabled);
        assert(v@ =~= s);
        v
    }
}

/// Number of slots in the persistent object table.
pub const PERSIST_LEN: usize = 4;

/// Slot of `GetClassID` in the persistent object table.
pub const PERSIST_GET_CLASS_ID: usize = 3;

/// The persistent object table: the `IUnknownVT` table, then its own slots.
pub struct IPersistVT {
    pub IUnknownVT: IUnknownVT,
    pub GetClassID: Slot,
}

impl IPersistVT {
    /// The flat table: the base's slots, then this interface's own.
    pub open spec fn slots(&self) -> Seq<Slot> {
        self.IUnknownVT.slots() + seq![self.GetClassID]
    }

    /// Lays the table out flat.
    pub fn into_slots(self) -> (r: Vec<Slot>)
        ensures
            r@ == self.slots(),
    {
        let ghost s = self.slots();
        let mut v = self.IUnknownVT.into_slots();
        v.push(self.GetClassID);
        assert(v@ =~= s);
        v
    }
}

/// Number of slots in the file-persistent object table.
pub const PERSIST_FILE_LEN: usize = 9;

/// Slot of `IsDirty` in the file-persistent object table.
pub const PERSIST_FILE_IS_DIRTY: usize = 4;

/// Slot of `Load` in the file-persistent object table.
pub const PERSIST_FILE_LOAD: usize = 5;

/// Slot of `Save` in the file-persistent object table.
pub const PERSIST_FILE_SAVE: usize = 6;

/// Slot of `SaveCompleted` in the file-persistent object table.
pub const PERSIST_FILE_SAVE_COMPLETED: usize = 7;

/// Slot of `GetCurFile` in the file-persistent object table.
pub const PERSIST_FILE_GET_CUR_FILE: usize = 8;

/// The file-persistent object table: the `IPersistVT` table, then its own slots.
pub struct IPersistFileVT {
    pub IPersistVT: IPersistVT,
    pub IsDirty: Slot,
    pub Load: Slot,
    pub Save: Slot,
    pub SaveCompleted: Slot,
    pub GetCurFile: Slot,
}

impl IPersistFileVT {
    /// The flat table: the base's slots, then this interface's own.
    pub open spec fn slots(&self) -> Seq<Slot> {
        self.IPersistVT.slots() + seq![self.IsDirty, self.Load, self.Save, self.SaveCompleted, self.GetCurFile]
    }

    /// Lays the table out flat.
    pub fn into_slots(self) -> (r: Vec<Slot>)
        ensures
            r@ == self.slots(),
    {
        let ghost s = self.slots();
        let mut v = self.IPersistVT.into_slots();
        v.push(self.IsDirty);
        v.push(self.Load);
        v.push(self.Save);
        v.push(self.SaveCompleted);
        v.push(self.GetCurFile);
        assert(v@ =~= s);
        v
    }
}

/// Number of slots in the media filter graph table.
pub const FILTER_GRAPH_LEN: usize = 11;

/// Slot of `AddFilter` in the media filter graph table.
pub const FILTER_GRAPH_ADD_FILTER: usize = 3;

/// Slot of `RemoveFilter` in the media filter graph table.
pub const FILTER_GRAPH_REMOVE_FILTER: usize = 4;

/// Slot of `EnumFilters` in the media filter graph table.
pub const FILTER_GRAPH_ENUM_FILTERS: usize = 5;

/// Slot of `FindFilterByName` in the media filter graph table.
pub const FILTER_GRAPH_FIND_FILTER_BY_NAME: usize = 6;

/// Slot of `ConnectDirect` in the media filter graph table.
pub const FILTER_GRAPH_CONNECT_DIRECT: usize = 7;

/// Slot of `Reconnect` in the media filter graph table.
pub const FILTER_GRAPH_RECONNECT: usize = 8;

/// Slot of `Disconnect` in the media filter graph table.
pub const FILTER_GRAPH_DISCONNECT: usize = 9;

/// Slot of `SetDefaultSyncSource` in the media filter graph table.
pub const FILTER_GRAPH_SET_DEFAULT_SYNC_SOURCE: usize = 10;

/// The media filter graph table: the `IUnknownVT` table, then its own slots.
pub struct IFilterGraphVT {
    pub IUnknownVT: IUnknownVT,
    pub AddFilter: Slot,
    pub RemoveFilter: Slot,
    pub EnumFilters: Slot,
    pub FindFilterByName: Slot,
    pub ConnectDirect: Slot,
    pub Reconnect: Slot,
    pub Disconnect: Slot,
    pub SetDefaultSyncSource: Slot,
}

impl IFilterGraphVT {
    /// The flat table: the base's slots, then this interface's own.
    pub open spec fn slots(&self) -> Seq<Slot> {
        self.IUnknownVT.slots() + seq![self.AddFilter, self.RemoveFilter, self.EnumFilters, self.FindFilterByName, self.ConnectDirect, self.Reconnect, self.Disconnect, self.SetDefaultSyncSource]
    }

    /// Lays the table out flat.
    pub fn into_slots(self) -> (r: Vec<Slot>)
        ensures
            r@ == self.slots(),
    {
        let ghost s = self.slots();
        let mut v = self.IUnknownVT.into_slots();
        v.push(self.AddFilter);
        v.push(self.RemoveFilter);
        v.push(self.EnumFilters);
        v.push(self.FindFilterByName);
        v.push(self.ConnectDirect);
        v.push(self.Reconnect);
        v.push(self.Disconnect);
        v.push(self.SetDefaultSyncSource);
        assert(v@ =~= s);
        v
    }
}

/// The automation dispatch table starts with its base table, slot for slot, and each of
/// its own slots stands at its fixed index.
pub proof fn lemma_dispatch_layout(vt: IDispatchVT)
    ensures
        vt.slots().len() == DISPATCH_LEN,
        vt.slots().subrange(0, 3) == vt.IUnknownVT.slots(),
        vt.slots()[DISPATCH_GET_TYPE_INFO_COUNT as int] == vt.GetTypeInfoCount,
        vt.slots()[DISPATCH_GET_TYPE_INFO as int] == vt.GetTypeInfo,
        vt.slots()[DISPATCH_GET_IDS_OF_NAMES as int] == vt.GetIDsOfNames,
        vt.slots()[DISPATCH_INVOKE as int] == vt.Invoke,
{
    assert(vt.slots().subrange(0, 3) =~= vt.IUnknownVT.slots());
}

/// The scheduled task action table starts with its base table, slot for slot, and each of
/// its own slots stands at its fixed index.
pub proof fn lemma_action_layout(vt: IActionVT)
    ensures
        vt.slots().len() == ACTION_LEN,
        vt.slots().subrange(0, 7) == vt.IDispatchVT.slots(),
        vt.slots()[ACTION_GET_ID as int] == vt.get_Id,
        vt.slots()[ACTION_PUT_ID as int] == vt.put_Id,
        vt.slots()[ACTION_GET_TYPE as int] == vt.get_Type,
{
    lemma_dispatch_layout(vt.IDispatchVT);
    assert(vt.slots().subrange(0, 7) =~= vt.IDispatchVT.slots());
}

/// The e-mail task action table starts with its base table, slot for slot, and each of
/// its own slots stands at its fixed index.
pub proof fn lemma_email_action_layout(vt: IEmailActionVT)
    ensures
        vt.slots().len() == EMAIL_ACTION_LEN,
        vt.slots().subrange(0, 10) == vt.IAction.slots(),
        vt.slots()[EMAIL_ACTION_GET_SERVER as int] == vt.get_Server,
        vt.slots()[EMAIL_ACTION_PUT_SERVER as int] == vt.put_Server,
        vt.slots()[EMAIL_ACTION_GET_SUBJECT as int] == vt.get_Subject,
        vt.slots()[EMAIL_ACTION_PUT_SUBJECT as int] == vt.put_Subject,
        vt.slots()[EMAIL_ACTION_GET_TO as int] == vt.get_To,
        vt.slots()[EMAIL_ACTION_PUT_TO as int] == vt.put_To,
        vt.slots()[EMAIL_ACTION_GET_CC as int] == vt.get_Cc,
        vt.slots()[EMAIL_ACTION_PUT_CC as int] == vt.put_Cc,
        vt.slots()[EMAIL_ACTION_GET_BCC as int] == vt.get_Bcc,
        vt.slots()[EMAIL_ACTION_PUT_BCC as int] == vt.put_Bcc,
        vt.slots()[EMAIL_ACTION_GET_REPLY_TO as int] == vt.get_ReplyTo,
        vt.slots()[EMAIL_ACTION_PUT_REPLY_TO as int] == vt.put_ReplyTo,
        vt.slots()[EMAIL_ACTION_GET_FROM as int] == vt.get_From,
        vt.slots()[EMAIL_ACTION_PUT_FROM as int] == vt.put_From,
        vt.slots()[EMAIL_ACTION_GET_HEADER_FIELDS as int] == vt.get_HeaderFields,
        vt.slots()[EMAIL_ACTION_PUT_HEADER_FIELDS as int] == vt.put_HeaderFields,
        vt.slots()[EMAIL_ACTION_GET_BODY as int] == vt.get_Body,
        vt.slots()[EMAIL_ACTION_PUT_BODY as int] == vt.put_Body,
        vt.slots()[EMAIL_ACTION_GET_ATTACHMENTS as int] == vt.get_Attachments,
        vt.slots()[EMAIL_ACTION_PUT_ATTACHMENTS as int] == vt.put_Attachments,
{
    lemma_action_layout(vt.IAction);
    assert(vt.slots().subrange(0, 10) =~= vt.IAction.slots());
}

/// The task trigger table starts with its base table, slot for slot, and each of
/// its own slots stands at its fixed index.
pub proof fn lemma_trigger_layout(vt: ITriggerVT)
    ensures
        vt.slots().len() == TRIGGER_LEN,
        vt.slots().subrange(0, 7) == vt.IDispatchVT.slots(),
        vt.slots()[TRIGGER_GET_TYPE as int] == vt.get_Type,
        vt.slots()[TRIGGER_GET_ID as int] == vt.get_Id,
        vt.slots()[TRIGGER_PUT_ID as int] == vt.put_Id,
        vt.slots()[TRIGGER_GET_REPETITION as int] == vt.get_Repetition,
        vt.slots()[TRIGGER_PUT_REPETITION as int] == vt.put_Repetition,
        vt.slots()[TRIGGER_GET_EXECUTION_TIME_LIMIT as int] == vt.get_ExecutionTimeLimit,
        vt.slots()[TRIGGER_PUT_EXECUTION_TIME_LIMIT as int] == vt.put_ExecutionTimeLimit,
        vt.slots()[TRIGGER_GET_START_BOUNDARY as int] == vt.get_StartBoundary,
        vt.slots()[TRIGGER_PUT_START_BOUNDARY as int] == vt.put_StartBoundary,
        vt.slots()[TRIGGER_GET_END_BOUNDARY as int] == vt.get_EndBoundary,
        vt.slots()[TRIGGER_PUT_END_BOUNDARY as int] == vt.put_EndBoundary,
        vt.slots()[TRIGGER_GET_ENABLED as int] == vt.get_Enabled,
        vt.slots()[TRIGGER_PUT_ENABLED as int] == vt.put_Enabled,
{
    lemma_dispatch_layout(vt.IDispatchVT);
    assert(vt.slots().subrange(0, 7) =~= vt.IDispatchVT.slots());
}

/// The persistent object table starts with its base table, slot for slot, and each of
/// its own slots stands at its fixed index.
pub proof fn lemma_persist_layout(vt: IPersistVT)
    ensures
        vt.slots().len() == PERSIST_LEN,
        vt.slots().subrange(0, 3) == vt.IUnknownVT.slots(),
        vt.slots()[PERSIST_GET_CLASS_ID as int] == vt.GetClassID,
{
    assert(vt.slots().subrange(0, 3) =~= vt.IUnknownVT.slots());
}

/// The file-persistent object table starts with its base table, slot for slot, and each of
/// its own slots stands at its fixed index.
pub proof fn lemma_persist_file_layout(vt: IPersistFileVT)
    ensures
        vt.slots().len() == PERSIST_FILE_LEN,
        vt.slots().subrange(0, 4) == vt.IPersistVT.slots(),
        vt.slots()[PERSIST_FILE_IS_DIRTY as int] == vt.IsDirty,
        vt.slots()[PERSIST_FILE_LOAD as int] == vt.Load,
        vt.slots()[PERSIST_FILE_SAVE as int] == vt.Save,
        vt.slots()[PERSIST_FILE_SAVE_COMPLETED as int] == vt.SaveCompleted,
        vt.slots()[PERSIST_FILE_GET_CUR_FILE as int] == vt.GetCurFile,
{
    lemma_persist_layout(vt.IPersistVT);
    assert(vt.slots().subrange(0, 4) =~= vt.IPersistVT.slots());
}

/// The media filter graph table starts with its base table, slot for slot, and each of
/// its own slots stands at its fixed index.
pub proof fn lemma_filter_graph_layout(vt: IFilterGraphVT)
    ensures
        vt.slots().len() == FILTER_GRAPH_LEN,
        vt.slots().subrange(0, 3) == vt.IUnknownVT.slots(),
        vt.slots()[FILTER_GRAPH_ADD_FILTER as int] == vt.AddFilter,
        vt.slots()[FILTER_GRAPH_REMOVE_FILTER as int] == vt.RemoveFilter,
        vt.slots()[FILTER_GRAPH_ENUM_FILTERS as int] == vt.EnumFilters,
        vt.slots()[FILTER_GRAPH_FIND_FILTER_BY_NAME as int] == vt.FindFilterByName,
        vt.slots()[FILTER_GRAPH_CONNECT_DIRECT as int] == vt.ConnectDirect,
        vt.slots()[FILTER_GRAPH_RECONNECT as int] == vt.Reconnect,
        vt.slots()[FILTER_GRAPH_DISCONNECT as int] == vt.Disconnect,
        vt.slots()[FILTER_GRAPH_SET_DEFAULT_SYNC_SOURCE as int] == vt.SetDefaultSyncSource,
{
    assert(vt.slots().subrange(0, 3) =~= vt.IUnknownVT.slots());
}

} // verus!
