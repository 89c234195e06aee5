//! A verified core for a Micropub publishing endpoint.
//!
//! The library validates bearer-credential headers, checks token-introspection
//! responses against a configured identity, normalizes text posts and media
//! uploads into content-store commits, and interprets the store's replies.
//! All network traffic and route wiring live outside the library; every
//! decision and every byte of a request body built here is verified.

use vstd::prelude::*;

mod strutil;

pub mod auth;

pub mod clock;

pub mod commit;

pub mod config;

pub mod content;

pub mod discovery;

verus! {

/// Greeting served at the root route.
pub fn index() -> (r: &'static str)
    ensures
        r@ == "Hello, world!"@,
{
    "Hello, world!"
}

} // verus!
