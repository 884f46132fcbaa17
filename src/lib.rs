//! Keystore provider for Android's platform keystore: the decisions that a
//! native caller makes before and after each call into the managed runtime.
pub mod algorithms;
pub mod config;
pub mod error;
pub mod keystore;
pub mod key_properties;
pub mod marshal;
pub mod operations;
pub mod provider;
pub mod registry;
