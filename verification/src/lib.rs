//! Packet capture analysis for real-time media sessions.
//!
//! The crate classifies raw frames into a tree of protocol records,
//! recognises RTP and RTCP inside UDP datagrams, groups RTP packets into
//! connections and calls, and derives transport quality figures for each
//! call. Every function is verified against the contract it carries.

pub mod bytes;
pub mod capture;
pub mod centrifuge;
pub mod cli;
pub mod flow;
pub mod fmt;
pub mod link;
pub mod render;
pub mod structs;
