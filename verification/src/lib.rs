//! An insert-only set over a closed, statically known universe of tags.
//!
//! Each tag is backed by its own single-assignment cell: a slot that is
//! written at most once and, once set, never becomes empty again. On top of
//! the cells, [`tag_set::TagSet`] offers insertion (in a strict and a lenient
//! flavour), point lookup, and enumeration of the inserted tags in the
//! universe's declaration order.

pub mod cell;
pub mod laws;
pub mod tag_set;
