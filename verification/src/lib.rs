//! A verified model of C++ virtual function tables as the Itanium ABI lays
//! them out: the calling convention a build target selects, the notation that
//! declares a table's methods and the aggregate it stands for, handles to
//! objects that begin with a table pointer, the store in which each table
//! stands once at its address, and the resolution of a virtual call through
//! a handle.

pub mod abi;
pub mod decl;
pub mod dispatch;
pub mod lookup;
pub mod object;
pub mod provide;

pub use crate::object::{TableStore, VTablePtr, VtObject, VtObjectPtr};
