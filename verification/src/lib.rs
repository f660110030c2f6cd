//! Object and geometry model of a binary 3D-scene document.
//!
//! A [`document::Document`] is a tree of named nodes, some of which hold
//! property values, together with a cache of the default property values of
//! each object class. On top of it stand
//!
//! - [`properties::ObjectProperties`], which resolves a property of an object
//!   to the object's own value or else to the default of its class,
//! - [`global_settings::GlobalSettings`], which reads the axis system and the
//!   unit scale factor of a document, and
//! - [`mesh`], which decodes the raw buffer of polygon vertices and converts
//!   between control points, polygon vertices and triangle vertices.
//!
//! Floating-point values are carried as their IEEE 754 bit patterns.

pub mod axis;
pub mod definitions;
pub mod document;
pub mod error;
pub mod float;
pub mod global_settings;
pub mod loaders;
pub mod mesh;
pub mod properties;
pub mod property;
pub mod search;
pub mod text;
pub mod tree;
