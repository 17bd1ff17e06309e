//! Collects the addressable targets of a vault of interlinked markdown notes:
//! each note's name, its aliases, and every link destination found in its body
//! or in the quoted values of its metadata header.
pub mod laws;
pub mod link;
pub mod note;
pub mod registry;
pub mod vault;
