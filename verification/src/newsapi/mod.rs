//! The client of the news API.

pub mod client;
pub mod decode;
pub mod error;
pub mod json;
pub mod params;
pub mod response;
pub mod web;

pub use client::{NewsAPI, Request};
pub use error::NewsAPIError;
pub use params::{Country, Endpoint};
pub use response::{Article, NewsAPIResponse};
