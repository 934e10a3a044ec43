//! Lonis: the block contract, the harness runtime and the provider seam of an
//! AI-native tool harness.

pub mod builtins;
pub mod capabilities;
pub mod error;
pub mod ids;
pub mod mock;
pub mod input;
pub mod json;
pub mod order;
pub mod payload;
pub mod provider;
pub mod registry;
pub mod replay;
pub mod run;
pub mod schemas;
pub mod stream;
pub mod subprocess;
pub mod text;
pub mod time;
