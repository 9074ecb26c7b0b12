//! Reference-counted component-object wrappers over a verified model of the
//! foreign object system: result codes, dispatch-table layouts, capability
//! queries and scoped release.
#![allow(non_snake_case, non_camel_case_types, non_upper_case_globals)]

pub mod guid;
pub mod hresult;
pub mod system;
pub mod com;
pub mod dispatch;
pub mod vt;
pub mod ole;
pub mod taskschd;
pub mod dshow;
pub mod handles;
pub mod msg;
