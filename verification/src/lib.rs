//! The decisions behind pulling the layers of a container image from a
//! registry: how the registry client is configured, which outside work each
//! layer needs and in which order, when a pulled layer is accepted, and how
//! the layers that finished in any order are put back into manifest order.
//!
//! The work itself (network, decryption, unpacking) is done by the caller,
//! who hands the outcome of each piece of work back as a plain value.

pub mod client;
pub mod error;
pub mod laws;
pub mod layer;
pub mod order;
pub mod outcome;
pub mod registry;
pub mod text;
pub mod work;
