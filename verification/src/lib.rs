//! Tooling around the Turborepo language server: locating or installing the
//! server binary for an editor, and small helpers for reading a monorepo's
//! configuration.
//!
//! # Resolving the binary
//!
//! An editor extension needs the path of the language server binary each time
//! it starts the server. [`resolver`] finds it: it looks where a binary may
//! already be, in a fixed order, and downloads the latest published version
//! when it is nowhere. It does no input or output of its own. It names what
//! it needs as a [`protocol::Request`], and the host that embeds it answers
//! with a [`protocol::Reply`].
//!
//! - [`platform`]: the platforms, and the name of the binary on each.
//! - [`layout`]: where an unpacked version lives on disk.
//! - [`registry`]: the query that finds the latest version, and how its
//!   answer is read.
//! - [`failure`]: the failures, and the text shown for each.
//! - [`transition`]: the rule by which a resolution moves from one request to
//!   the next.
//! - [`resolver`]: the resolution itself.
//!
//! # What is proved of a resolution
//!
//! - [`model`]: a model of the host, and what a resolution comes to in it.
//! - [`account`]: the same, written out from beginning to end.
//! - [`agreement`]: the proof that the two agree.
//! - [`laws`]: the order of precedence, the behaviour on unsupported
//!   platforms, what a second call does, and what is left on disk.
//!
//! # Helpers for the monorepo server
//!
//! - [`jsonc`]: removing comments from JSON text.
//! - [`json`]: the trusted boundary to the JSON parser.
//! - [`config`]: reading tasks and workspaces from parsed configuration.
//! - [`tools`]: the parameters of the server's tools and the decisions they
//!   make.
//! - [`icon`]: the server's icon as a `data:` URI.
//! - [`label`]: how a completion is shown.
//! - [`diagnostics`]: tags on diagnostics.
//! - [`text`]: small helpers on text.

pub mod account;
pub mod agreement;
pub mod config;
pub mod diagnostics;
pub mod failure;
pub mod icon;
pub mod json;
pub mod jsonc;
pub mod label;
pub mod laws;
pub mod layout;
pub mod model;
pub mod platform;
pub mod protocol;
pub mod registry;
pub mod resolver;
pub mod text;
pub mod tools;
pub mod transition;
