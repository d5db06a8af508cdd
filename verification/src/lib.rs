//! Measure theory over arbitrary data types: measurable spaces and their
//! algebras of subsets, measurable functions, and measures with the
//! probability measures that they normalize to.
pub mod boolean;
pub mod derive;
pub mod measurable;
pub mod pair;
pub mod reals;
pub mod unit;
pub mod util;
pub mod variance;
pub mod vector;

pub use measurable::{
    compose, compose_measure, identity, CompositeFunction, CompositeMeasure, CompositePMeasure,
    DiracMeasure, Identity, Measurable, MeasurableFn, Measure, PointMeasurable, PointMeasure,
    SigmaAlgebra,
};
