//! The request and response bodies exchanged with the external status
//! registry.
//!
//! The registry identifies a service by a 128-bit identifier; the library
//! carries it as a plain `u128`. The process around the library converts
//! between these types and the wire encoding.

use vstd::prelude::*;

verus! {

/// The origin a status record is reported from. Only cloud polling exists
/// at this version.
#[derive(Clone, Copy, PartialEq, Eq, Structural, Debug)]
pub enum RecordSourceDto {
    GcpPoll,
}

/// The readiness verdict written to the registry.
#[derive(Clone, Copy, PartialEq, Eq, Structural, Debug)]
pub enum StatusDto {
    Okay,
    Down,
}

/// An area grouping services in the registry. No area content is modelled
/// at this version; the type exists so that requests can carry the (always
/// empty) area collection.
#[derive(Clone, Copy, PartialEq, Eq, Structural, Debug)]
pub struct AreaDto {
}

/// The body of a status write: one readiness verdict for one service.
pub struct RecordDto {
    pub service_id: u128,
    pub status: StatusDto,
    pub source: RecordSourceDto,
    pub description: String,
}

/// The body of a service-creation request. The dependency and area
/// collections are reserved and always empty at this version.
pub struct ServiceDto {
    pub name: String,
    pub typ: String,
    pub team: String,
    pub service_dependencies: Vec<ServiceDto>,
    pub component_dependencies: Vec<ServiceDto>,
    pub areas_containing_this_service: Vec<AreaDto>,
    pub services_dependent_on_this_component: Vec<ServiceDto>,
}

} // verus!
