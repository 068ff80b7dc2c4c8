//! Rewrite systems for equality saturation: the term grammars, the per-class
//! analysis, the side conditions and the rule catalogs of a lambda calculus
//! and of a small calculus of arithmetic, together with the bookkeeping of
//! the runs that saturate them.
pub mod analysis;
pub mod bench;
pub mod conditions;
pub mod constant_fold;
pub mod egglog;
pub mod lambda;
pub mod math;
pub mod math_seminaive;
pub mod rational;
pub mod rewrite;
pub mod runner;
pub mod text;
