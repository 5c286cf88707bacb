pub mod env;
pub mod error;
pub mod firestoredb;
pub mod path;
pub mod text;
