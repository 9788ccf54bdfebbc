//! Sans-I/O core of a sector-sealing test harness.
//!
//! A sealing lifecycle takes one piece of client data through the proving
//! pipeline of a storage provider: the piece is committed and staged, the
//! sector is pre-committed in two phases, the proof is built in two more,
//! and at the end the data is unsealed again and the proof verified. Every
//! one of these operations is slow, disk-bound work done by the proving
//! library. What this crate owns is the order in which they may happen and
//! the checks that stand between them.
//!
//! The pipeline is a state machine ([`pipeline::Lifecycle`]). It names the
//! one operation that is due ([`pipeline::Action`]), takes the operation's
//! result ([`pipeline::Event`]) and moves on, aborts, or reports a failed
//! check. The caller performs the operations; the machine never touches a
//! file. Its transition function is specified by [`pipeline::advance`], and
//! [`laws`] proves what follows from it for whole runs. [`driver`] sets a
//! lifecycle up, and [`harness`] plans the work of the harness's threads and
//! judges what they return.

pub mod config;
pub mod driver;
pub mod harness;
pub mod laws;
pub mod piece;
pub mod pipeline;
pub mod session;
