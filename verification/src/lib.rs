//! The OAuth2 device authorization grant: a client without a browser obtains a
//! token by showing the user a short code and polling the authorization server
//! until the user has approved the request elsewhere.
//!
//! The library holds the rules of the exchange and leaves the network, the
//! timer and the screen to its host: it says which request to send, decodes
//! what came back, and decides whether to wait, to poll again or to stop.

pub mod clock;
pub mod device;
pub mod form;
pub mod helper;
pub mod json;
pub mod response;
pub mod types;
