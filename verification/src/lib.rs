//! An in-memory account manager: a store of username/credential pairs, a
//! credential-validation function, and the session state machine that rules
//! which operations (create, login, change password, delete, logout, list)
//! are legal in which authentication state.

pub mod laws;
pub mod menu;
pub mod session;
pub mod store;
pub mod text;
