//! What the client stores about peers, downloads and its shares.
pub mod entities;
