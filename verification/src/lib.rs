//! Core of a network gateway's front door: the BER codec and negotiation
//! messages used by its terminal-protocol handlers, and the pure decision
//! logic of its connection listener (scheme selection, protocol sniffing,
//! handler dispatch and per-connection failure policy).

pub mod ber;
pub mod listener;
pub mod kdc;
pub mod nego;
