//! The verified core of a spider orb-web simulator.
//!
//! A web is a network of point masses joined by damped springs. This crate
//! owns everything about such a network that is a matter of structure and of
//! decision: the two arenas and the indices between them, the splice that
//! puts a particle into a strand, the search for the nearest strand, the
//! collision scan and the sticking of bugs, the commit of an integration
//! step, and the staged construction of a web from its genes.
//!
//! Real quantities are carried as [`scalar::Scalar`], the encoding of a
//! binary64 number. The crate compares such values and moves them about; it
//! never does arithmetic on them. Whoever drives it measures lengths and
//! sums forces, and hands the results in.
pub mod scalar;
pub mod simulator;
pub mod web;
pub mod webgen;
