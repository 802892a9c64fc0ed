//! Client half of a deterministic lockstep networking runtime.
//!
//! The crate is organised around four tightly coupled subsystems:
//! the packet codec (`net_packet`), the per-tic delta codec (`ticdiff`),
//! the connection and session state machine with its send/receive rings
//! (`net_client`), and the game-loop pacing layer (`d_loop`).

pub mod bot;
pub mod d_loop;
pub mod net_client;
pub mod net_packet;
pub mod net_structs;
pub mod ticdiff;
