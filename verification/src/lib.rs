//! A small workout diary: a registry of user profiles and exercise
//! definitions, plus the interactive construction of workout records.
//!
//! The library holds the data model, the text handling and the decision
//! logic of the interactive flows; reading lines and touching the disk is
//! left to the surrounding program.

pub mod text;
pub mod body_part;
pub mod model;
pub mod menu;
pub mod store;
pub mod flows;
