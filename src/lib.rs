//! Client side of a small chat protocol: the wire codec for the tagged
//! envelope, and the session that turns inbound frames and user actions into
//! changes of the roster and message log and into outbound frames.

pub mod json;
pub mod session;
pub mod wire;
