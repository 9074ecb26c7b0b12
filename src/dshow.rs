//! Media filter graph interfaces.
use vstd::prelude::*;
use crate::com::{ole_IUnknown, ComInterface};
use crate::dispatch::{
    dispatch_object, dispatch_status, dispatch_with_args, object_result,
    to_wide, wide_text, with_last_call,
};
use crate::hresult::{ok_result, HrResult};
use crate::ole::{ole_IPersist, IUnknown};
use crate::system::{plain_record, slot_code, ForeignSystem};
use crate::vt::{
    FILTER_GRAPH_ADD_FILTER, FILTER_GRAPH_ENUM_FILTERS, FILTER_GRAPH_FIND_FILTER_BY_NAME,
    FILTER_GRAPH_REMOVE_FILTER, FILTER_GRAPH_SET_DEFAULT_SYNC_SOURCE,
};

verus! {

/// Identity of the filter graph interface.
pub const IID_IFilterGraph: u128 = 0x56A8689F_0AD4_11CE_B03A_0020AF0BA770;

/// Identity of the filter interface.
pub const IID_IBaseFilter: u128 = 0x56A86895_0AD4_11CE_B03A_0020AF0BA770;

/// Identity of the filter enumerator interface.
pub const IID_IEnumFilters: u128 = 0x56A86893_0AD4_11CE_B03A_0020AF0BA770;

/// The filter interface.
///
/// Owns one reference on its object; give it back with `Release`.
pub struct IBaseFilter {
    ptr: usize,
}

impl ComInterface for IBaseFilter {
    open spec fn iid_spec() -> u128 {
        IID_IBaseFilter
    }

    closed spec fn ptr_spec(&self) -> usize {
        self.ptr
    }

    fn IID() -> (r: u128) {
        IID_IBaseFilter
    }

    fn ptr(&self) -> (r: usize) {
        self.ptr
    }

    fn from_ptr(p: usize) -> (r: Self) {
        IBaseFilter { ptr: p }
    }
}

impl ole_IUnknown for IBaseFilter {}

impl ole_IPersist for IBaseFilter {}

/// The filter enumerator interface.
///
/// Owns one reference on its object; give it back with `Release`.
pub struct IEnumFilters {
    ptr: usize,
}

impl ComInterface for IEnumFilters {
    open spec fn iid_spec() -> u128 {
        IID_IEnumFilters
    }

    closed spec fn ptr_spec(&self) -> usize {
        self.ptr
    }

    fn IID() -> (r: u128) {
        IID_IEnumFilters
    }

    fn ptr(&self) -> (r: usize) {
        self.ptr
    }

    fn from_ptr(p: usize) -> (r: Self) {
        IEnumFilters { ptr: p }
    }
}

impl ole_IUnknown for IEnumFilters {}

/// The filter graph interface, which holds its base interface's wrapper.
pub struct IFilterGraph {
    /// Methods of the base interface.
    pub IUnknown: IUnknown,
}

impl ComInterface for IFilterGraph {
    open spec fn iid_spec() -> u128 {
        IID_IFilterGraph
    }

    open spec fn ptr_spec(&self) -> usize {
        self.IUnknown.ptr_spec()
    }

    fn IID() -> (r: u128) {
        IID_IFilterGraph
    }

    fn ptr(&self) -> (r: usize) {
        self.IUnknown.ptr()
    }

    fn from_ptr(p: usize) -> (r: Self) {
        IFilterGraph { IUnknown: IUnknown::from_ptr(p) }
    }
}

impl ole_IUnknown for IFilterGraph {}

impl IFilterGraph {
    /// Adds a filter to the graph, under a name; the filter and the name
    /// cross over.
    pub fn AddFilter(&self, sys: &mut ForeignSystem, filter: &IBaseFilter, name: &str) -> (r: HrResult<()>)
        requires
            old(sys)@.has_slot(self.ptr_spec(), FILTER_GRAPH_ADD_FILTER),
            old(sys)@.slot(self.ptr_spec(), FILTER_GRAPH_ADD_FILTER) is Status,
            old(sys)@.is_live(filter.ptr_spec()),
        ensures
            r == ok_result(slot_code(old(sys)@.slot(self.ptr_spec(), FILTER_GRAPH_ADD_FILTER))),
            final(sys)@.call_logged(
                old(sys)@,
                self.ptr_spec(),
                FILTER_GRAPH_ADD_FILTER,
                filter.ptr_spec(),
                0,
                wide_text(name@),
            ),
    {
        dispatch_with_args(sys, self.ptr(), FILTER_GRAPH_ADD_FILTER, filter.ptr(), 0, to_wide(name))
    }

    /// Enumerates the graph's filters. On success the new wrapper owns the
    /// reference that the call added; the enumerator may be a fresh object.
    pub fn EnumFilters(&self, sys: &mut ForeignSystem) -> (r: HrResult<IEnumFilters>)
        requires
            old(sys)@.has_slot(self.ptr_spec(), FILTER_GRAPH_ENUM_FILTERS),
            old(sys)@.slot(self.ptr_spec(), FILTER_GRAPH_ENUM_FILTERS) is Object,
        ensures
            final(sys)@.log.len() == old(sys)@.log.len() + 1,
            plain_record(final(sys)@.log.last(), self.ptr_spec(), FILTER_GRAPH_ENUM_FILTERS),
            object_result(
                with_last_call(old(sys)@, final(sys)@),
                final(sys)@,
                old(sys)@.slot(self.ptr_spec(), FILTER_GRAPH_ENUM_FILTERS),
                r,
            ),
    {
        dispatch_object(sys, self.ptr(), FILTER_GRAPH_ENUM_FILTERS, Vec::new())
    }

    /// Finds the filter added under a name; the name crosses over. On
    /// success the new wrapper owns the reference that the call added.
    pub fn FindFilterByName(&self, sys: &mut ForeignSystem, name: &str) -> (r: HrResult<IBaseFilter>)
        requires
            old(sys)@.has_slot(self.ptr_spec(), FILTER_GRAPH_FIND_FILTER_BY_NAME),
            old(sys)@.slot(self.ptr_spec(), FILTER_GRAPH_FIND_FILTER_BY_NAME) is Object,
        ensures
            final(sys)@.log.len() == old(sys)@.log.len() + 1,
            final(sys)@.log.last().ptr == self.ptr_spec(),
            final(sys)@.log.last().slot == FILTER_GRAPH_FIND_FILTER_BY_NAME,
            final(sys)@.log.last().object == 0,
            final(sys)@.log.last().number == 0,
            final(sys)@.log.last().text@ == wide_text(name@),
            object_result(
                with_last_call(old(sys)@, final(sys)@),
                final(sys)@,
                old(sys)@.slot(self.ptr_spec(), FILTER_GRAPH_FIND_FILTER_BY_NAME),
                r,
            ),
    {
        dispatch_object(sys, self.ptr(), FILTER_GRAPH_FIND_FILTER_BY_NAME, to_wide(name))
    }

    /// Removes a filter from the graph; the filter crosses over.
    pub fn RemoveFilter(&self, sys: &mut ForeignSystem, filter: &IBaseFilter) -> (r: HrResult<()>)
        requires
            old(sys)@.has_slot(self.ptr_spec(), FILTER_GRAPH_REMOVE_FILTER),
            old(sys)@.slot(self.ptr_spec(), FILTER_GRAPH_REMOVE_FILTER) is Status,
            old(sys)@.is_live(filter.ptr_spec()),
        ensures
            r == ok_result(slot_code(old(sys)@.slot(self.ptr_spec(), FILTER_GRAPH_REMOVE_FILTER))),
            final(sys)@.call_logged(
                old(sys)@,
                self.ptr_spec(),
                FILTER_GRAPH_REMOVE_FILTER,
                filter.ptr_spec(),
                0,
                Seq::<u16>::empty(),
            ),
    {
        dispatch_with_args(sys, self.ptr(), FILTER_GRAPH_REMOVE_FILTER, filter.ptr(), 0, Vec::new())
    }

    /// Sets the default reference clock.
    pub fn SetDefaultSyncSource(&self, sys: &mut ForeignSystem) -> (r: HrResult<()>)
        requires
            old(sys)@.has_slot(self.ptr_spec(), FILTER_GRAPH_SET_DEFAULT_SYNC_SOURCE),
            old(sys)@.slot(self.ptr_spec(), FILTER_GRAPH_SET_DEFAULT_SYNC_SOURCE) is Status,
        ensures
            r == ok_result(slot_code(old(sys)@.slot(self.ptr_spec(), FILTER_GRAPH_SET_DEFAULT_SYNC_SOURCE))),
            final(sys)@.plain_call_logged(old(sys)@, self.ptr_spec(), FILTER_GRAPH_SET_DEFAULT_SYNC_SOURCE),
    {
        dispatch_status(sys, self.ptr(), FILTER_GRAPH_SET_DEFAULT_SYNC_SOURCE)
    }
}

} // verus!
