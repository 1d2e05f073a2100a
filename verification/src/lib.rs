//! Layered connection parameters for SSH hosts.
//!
//! A [`HostParams`] value is one configuration layer: a record in which every
//! setting is either unset or explicitly given. Layers are folded together
//! with [`HostParams::merge`], from the least to the most specific one; a
//! setting given by a later layer replaces what earlier layers said, and a
//! setting that a later layer leaves unset keeps its earlier value.
//!
//! The contracts are stated over [`layer::ParameterSet`], the mathematical
//! model of a layer.
pub mod laws;
pub mod layer;
pub mod params;
pub mod path;

pub use params::HostParams;
