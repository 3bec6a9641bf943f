//! A CardDAV client core: address-book discovery and multistatus extraction.

pub mod addressbook;
pub mod client;
pub mod credentials;
pub mod dom;
pub mod error;
pub mod http;
pub mod multistatus;
pub mod text;
pub mod xml;

pub use addressbook::Addressbook;
pub use client::CardDAV;
pub use credentials::Credentials;
pub use error::DavError;
