//! A typed client core for the Binance REST API: it builds requests, signs the
//! privileged ones with HMAC-SHA256, and classifies what the exchange answers.
//!
//! Nothing here touches the network. A [`http::request::RequestBuilder`] is a
//! description of one call; whoever owns the transport performs it and hands
//! the outcome to [`http::dispatch`].
//!
//! # What is proved and what is assumed
//!
//! Every function of this crate is verified against its contract, but for the
//! calls into other crates, whose contracts are assumed:
//!
//! * [`http::address`]: `Url::parse`, `Url::as_str`, `Url::query`,
//!   `Url::set_path` and `Url::query_pairs_mut` with `append_pair` of the
//!   `url` crate. A URL is known by its three parts, [`http::address::UrlParts`];
//!   which URL a text parses to and which location a new path gives a URL
//!   are named, not defined, and the form encoding of a pair is written out.
//! * [`http::signature`]: `hmac::sign` of `ring`, whose tag of 32 bytes is
//!   named.
//! * [`http::json`]: `serde_json::to_string` on a list of texts, which is
//!   written out.
//! * [`http::client`]: `Duration::from_secs`, and [`text`]: `String::push`.
//!
//! [`http::laws`] states what follows for every input: signing is a function
//! of key and query, an empty query is never signed, the signature is 64
//! digits, is the last parameter and goes out as computed, and an absent
//! parameter makes the query strictly shorter. The modules of the endpoints
//! say the last of each of their optional arguments.

pub mod account;
pub mod error;
pub mod http;
pub mod market;
pub mod prelude;
pub mod spot;
pub mod text;
pub mod types;
