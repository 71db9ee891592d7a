pub mod arcium;
pub mod bridge;
pub mod codec;
pub mod eidas;
pub mod hub;
pub mod identity;
pub mod wallet;

pub use eidas::EidasLevel;
pub use identity::Identity;
