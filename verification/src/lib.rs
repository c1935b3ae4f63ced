//! A client core for strict, globally rate-limited catalog APIs: validated
//! identifiers, replayable requests, and a dispatcher that bounds the calls in
//! flight, hands out the permits of a shared rate limiter and retries within
//! a budget. The dispatcher decides and its caller waits and sends, so every
//! decision is a plain function of the state and of what happened.

pub mod admission;
pub mod area;
pub mod artist;
pub mod config;
pub mod decimal;
pub mod discogs;
pub mod dispatch;
pub mod error;
pub mod hex;
pub mod limiter;
pub mod lookup;
pub mod mbid;
pub mod release;
pub mod release_group;
pub mod request;
pub mod retry;
pub mod web;
