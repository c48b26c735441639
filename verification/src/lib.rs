//! The front-end of an OAuth2 authorization server: the authorization code
//! request, the access token grant and the resource guard, each as a
//! stateless pipeline over an abstract request and response.

pub mod access;
pub mod authorization;
pub mod backend;
pub mod basic;
pub mod error;
pub mod grant;
pub mod laws;
pub mod params;
pub mod request;
pub mod web;
