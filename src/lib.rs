//! A native model of the browser authentication library's configuration,
//! request and result objects, with a verified decoder for token claims.
//! Values cross to and from the library's JS objects as plain data: setting
//! plans going out, claim bags and raw results coming in.
pub mod account;
pub mod claims;
pub mod options;
pub mod redirect;
pub mod requests;
pub mod settings;
