//! Client-side logic of the Copper (NoRisk) web API: which endpoint each
//! call reaches, which query parameters and headers it carries, and how each
//! reply is turned into a result or an error.

pub mod encode;
pub mod model;
pub mod exchange;
pub mod query;
pub mod refresh;
pub mod request;
pub mod status;
pub mod text;
