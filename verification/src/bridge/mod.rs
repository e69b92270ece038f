//! Client of the bridge service, through which the embedding program tells
//! the daemon about its delegates and its preferences.

pub mod client;
pub mod messages;
pub mod service;
pub mod tasks;
pub mod xpcom;
