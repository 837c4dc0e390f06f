//! Chrome DevTools Protocol (CDP): message types, transport bookkeeping and
//! session targeting.
pub mod session;
pub mod transport;
pub mod types;
