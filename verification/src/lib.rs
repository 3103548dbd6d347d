//! Control client for a network-attached camera that exposes an HTTP/JSON
//! surface.  The crate holds the logic worth proving: the response validator
//! (HTTP status gate plus JSON envelope gate), the command and URL builders,
//! and the bounded-retry capture poller, stated as a step function from state
//! and response to the next request or the final outcome.  The network round
//! trips themselves are performed by the program around the library, which
//! feeds each response back into the verified step functions.

pub mod error;
pub mod response;
pub mod envelope;
pub mod decimal;
pub mod endpoints;
pub mod poller;
