//! Parsers of the elementary files, one module per file kind.

pub mod ef_com;
pub mod ef_dg1;
pub mod ef_dg11;
pub mod ef_dg12;
pub mod ef_dg2;
pub mod ef_dg5;
pub mod ef_dg7;
pub mod generic;
pub mod helpers;
