//! Bearer-token authentication and request/response shaping for the Google Maps
//! Connect service, with the rules proved by Verus.

pub mod header;
pub mod responses;
pub mod rpc_error;
pub mod text;
pub mod time_zone;
pub mod token_auth;
pub mod token_list;
pub mod transport;
