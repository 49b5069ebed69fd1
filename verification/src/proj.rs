//! The reprojection that every geometry of a manifest goes through.
//!
//! The arithmetic of a reprojection is not part of this crate. What is kept
//! here is which pair of coordinate reference systems a transformation is
//! for, so that one transformation is set up per run and what comes out of
//! it is known to be in its target system.

use vstd::prelude::*;

use crate::text::{copy_text, same_text};

verus! {

/// The coordinate reference system in which manifests are written.
pub const SOURCE_CRS: &'static str = "EPSG:2056";

/// The coordinate reference system in which geometries are stored.
pub const CANONICAL_CRS: &'static str = "EPSG:4326";

/// A transformation from one coordinate reference system to another. It
/// holds no state that a transformation changes, so one value serves every
/// feature of a run.
#[derive(Clone, Debug, PartialEq, Eq)]
pub struct Proj {
    /// The system that geometries come in.
    pub from: String,
    /// The system that geometries leave in.
    pub to: String,
}

/// A geometry in well-known binary form, with the system it is in.
#[derive(Clone, Debug, PartialEq, Eq)]
pub struct Projected {
    /// The system of the coordinates.
    pub crs: String,
    /// The geometry, in well-known binary form.
    pub wkb: Vec<u8>,
}

impl Proj {
    /// The transformation from `from` to `to`.
    pub fn new(from: &str, to: &str) -> (proj: Proj)
        ensures
            proj.from@ == from@,
            proj.to@ == to@,
    {
        Proj { from: from.to_owned(), to: to.to_owned() }
    }

    /// The transformation from the system of manifests to the system of the
    /// feature store.
    pub fn canonical() -> (proj: Proj)
        ensures
            proj.from@ == SOURCE_CRS@,
            proj.to@ == CANONICAL_CRS@,
    {
        Proj::new(SOURCE_CRS, CANONICAL_CRS)
    }

    /// Whether what this transformation gives out is in the system of the
    /// feature store.
    pub fn is_canonical(&self) -> (canonical: bool)
        ensures
            canonical == (self.to@ == CANONICAL_CRS@),
    {
        same_text(self.to.as_str(), CANONICAL_CRS)
    }

    /// Takes in what this transformation has made of a geometry.
    pub fn label(&self, wkb: Vec<u8>) -> (projected: Projected)
        ensures
            projected.crs@ == self.to@,
            projected.wkb@ == wkb@,
    {
        Projected { crs: copy_text(&self.to), wkb }
    }
}

} // verus!
