//! The rules of the catalogue, one module each.

pub mod test_6_1_49;
