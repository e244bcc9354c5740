//! The typed contract between a small HTTP server and its single-page client:
//! the server's routes and what each answers, the record that travels between
//! the two as a JSON object, and the client's state and markup.

pub mod json;
pub mod lookup;
pub mod record;
pub mod routes;
pub mod markup;
pub mod fetch_json;
pub mod exchange;
pub mod client;
