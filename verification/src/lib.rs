//! State synchronisation and relay engine of a decentralised social feed.
//!
//! A node keeps a bounded feed of posts without doubles ([`feed`]) and a
//! directory of the peers it knows ([`directory`]), held together in
//! [`state`]. The [`hub`] takes in what the node authors, what the mesh
//! delivers and what relay sessions of browsers send, and says what is to
//! be broadcast and pushed in turn. The [`client`] is the browser's side of
//! such a session. Messages and their JSON form are in [`wire`] and
//! [`json`]; the identity of a browser node is in [`identity`].

pub mod ambient;
pub mod client;
pub mod directory;
pub mod feed;
pub mod hub;
pub mod identity;
pub mod json;
pub mod peer;
pub mod post;
pub mod state;
pub mod text;
pub mod wire;
