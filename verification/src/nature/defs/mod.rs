//! The three kinds of type descriptions.
pub mod composite;
pub mod primitive;
pub mod referred;
