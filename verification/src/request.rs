//! The name lookups and property reads that describing windows takes.

use vstd::prelude::*;
use crate::atom::AtomName;

verus! {

/// What is read of a window or a root.
#[derive(Debug, Clone, Copy, PartialEq, Eq, Structural)]
pub enum Query {
    /// The name of a window.
    Title,
    /// The class of a window.
    Class,
    /// The process that owns a window.
    Pid,
    /// The states of a window.
    State,
    /// The focused window, read on a root.
    ActiveWindow,
    /// The windows in stacking order, read on a root.
    ClientList,
}

/// How a property is identified: by an identifier that the protocol fixes,
/// or by one that has to be looked up by name.
#[derive(Debug, Clone, Copy, PartialEq, Eq, Structural)]
pub enum Property {
    WmName,
    WmClass,
    Named(AtomName),
}

/// The type that the values of a property are asked to have.
#[derive(Debug, Clone, Copy, PartialEq, Eq, Structural)]
pub enum ValueType {
    Any,
    Atom,
    Cardinal,
    String,
}

/// A read of a property. Offset and length count units of 32 bits.
#[derive(Debug, Clone, Copy, PartialEq, Eq, Structural)]
pub struct PropertyRequest {
    /// Whether the read removes the property.
    pub delete: bool,
    pub property: Property,
    pub value_type: ValueType,
    pub long_offset: u32,
    pub long_length: u32,
}

/// A lookup of the identifier of a name.
#[derive(Debug, Clone, Copy, PartialEq, Eq, Structural)]
pub struct AtomRequest {
    pub name: AtomName,
    /// Whether the lookup leaves a name without identifier as it is, rather
    /// than giving it one.
    pub only_if_exists: bool,
}

/// Describes the lookup of `name`. No lookup creates an identifier: that a
/// name has none is what tells that the window manager does not support it.
pub fn atom_request(name: AtomName) -> (request: AtomRequest)
    ensures
        request == (AtomRequest { name, only_if_exists: true }),
{
    AtomRequest { name, only_if_exists: true }
}

/// The read that answers `query`. Every read starts at the beginning of the
/// property and leaves the property in place. Text and the list of windows
/// are read up to 1024 units, the states of a window up to 12, and a process
/// id or a focused window up to 4.
pub open spec fn spec_property_request(query: Query) -> PropertyRequest {
    match query {
        Query::Title => PropertyRequest {
            delete: false,
            property: Property::WmName,
            value_type: ValueType::String,
            long_offset: 0,
            long_length: 1024,
        },
        Query::Class => PropertyRequest {
            delete: false,
            property: Property::WmClass,
            value_type: ValueType::String,
            long_offset: 0,
            long_length: 1024,
        },
        Query::Pid => PropertyRequest {
            delete: false,
            property: Property::Named(AtomName::NetWmPid),
            value_type: ValueType::Cardinal,
            long_offset: 0,
            long_length: 4,
        },
        Query::State => PropertyRequest {
            delete: false,
            property: Property::Named(AtomName::NetWmState),
            value_type: ValueType::Atom,
            long_offset: 0,
            long_length: 12,
        },
        Query::ActiveWindow => PropertyRequest {
            delete: false,
            property: Property::Named(AtomName::NetActiveWindow),
            value_type: ValueType::Any,
            long_offset: 0,
            long_length: 4,
        },
        Query::ClientList => PropertyRequest {
            delete: false,
            property: Property::Named(AtomName::NetClientListStacking),
            value_type: ValueType::Any,
            long_offset: 0,
            long_length: 1024,
        },
    }
}

/// Describes the read of a property that answers `query`.
pub fn property_request(query: Query) -> (request: PropertyRequest)
    ensures
        request == spec_property_request(query),
{
    let (property, value_type, long_length): (Property, ValueType, u32) = match query {
        Query::Title => (Property::WmName, ValueType::String, 1024),
        Query::Class => (Property::WmClass, ValueType::String, 1024),
        Query::Pid => (Property::Named(AtomName::NetWmPid), ValueType::Cardinal, 4),
        Query::State => (Property::Named(AtomName::NetWmState), ValueType::Atom, 12),
        Query::ActiveWindow => (Property::Named(AtomName::NetActiveWindow), ValueType::Any, 4),
        Query::ClientList => (
            Property::Named(AtomName::NetClientListStacking),
            ValueType::Any,
            1024,
        ),
    };
    PropertyRequest { delete: false, property, value_type, long_offset: 0, long_length }
}

} // verus!
