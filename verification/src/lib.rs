//! An interpreter for a minimal tape-based esoteric language: eight
//! single-character instructions operate on a growable byte tape, with
//! explicit byte input/output and bracket-delimited looping.
//!
//! The crate is split along the language pipeline: `token` (and its older
//! twin `symbol`) classify characters, `syntax` tokenizes and parses source
//! text into a syntax tree, `tape` (and its older twin `tap`) hold the byte
//! tape, and `brainfuck` walks the tree against a tape and two byte buffers.

pub mod brainfuck;
pub mod symbol;
pub mod syntax;
pub mod tap;
pub mod tape;
pub mod token;
