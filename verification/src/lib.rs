//! Command dispatch and type-translation core for a satellite electrical
//! power system (EPS) service.
//!
//! The crate exposes the EPS hardware command set behind a uniform
//! request/response interface: a catalog maps named operations to typed
//! handler calls on a single device handle, a translator converts between
//! rich domain types and the restricted primitive set a generic query layer
//! can carry, and the subsystem serializes device access while recording the
//! last issued command and the last error for diagnostics.
//!
//! Module map: [`wire`] holds the transport's primitive value types,
//! [`translate`] the domain enumerations with their wire ordinals,
//! [`telemetry`] the composite records and their flattened projections,
//! [`command`] the byte encoding of device command frames, [`device`] the
//! device port interface and its instrumented implementation, [`subsystem`]
//! the exclusive owner of the port with the diagnostic record, [`catalog`]
//! the static registry of named operations, [`dispatch`] the wire
//! request/response contract with the dispatch laws, [`config`] the reading
//! of construction parameters, and [`error`] the error taxonomy.

pub mod catalog;
pub mod command;
pub mod config;
pub mod device;
pub mod dispatch;
pub mod error;
pub mod subsystem;
pub mod telemetry;
pub mod translate;
pub mod wire;
