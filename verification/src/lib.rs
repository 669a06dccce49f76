//! A dissection layer for network-protocol plugins of a packet analyser.
//!
//! A dissector author describes protocols and their fields, the host
//! registers them, and for each packet a tree builder keeps the offset
//! bookkeeping while fields are placed. The library decides and the program
//! around it talks to the host: every operation that needs the host returns
//! a request as a plain value and takes the host's answer as an argument.
//!
//! Every function carries a contract. Verus proves them all but those of
//! the few private functions that call the `bytestream` and `bumpalo`
//! crates: what those contracts say of the two crates is taken on trust,
//! and the comment above each says what is claimed.
//!
//! - `defines`: the catalogue of field kinds, display hints and encodings.
//! - `tvbuff`: a cursor over a packet's bytes with endian-aware reads.
//! - `fields`: field definitions and their label tables.
//! - `definition`: protocol definitions, built during setup.
//! - `protocol`: registered protocols, which map field ids to handles.
//! - `tree`: the tree builder of one dissection.
//! - `plugin`: the owner of all protocols, the registration pass, the
//!   handoff and the dispatcher.
//! - `host`: the requests to the host and its answers.
//! - `error`: configuration errors.

pub mod defines;
pub mod tvbuff;
pub mod fields;
pub mod error;
pub mod host;
pub mod definition;
pub mod protocol;
pub mod tree;
pub mod plugin;
