//! Typed register model and boot runtime for Allwinner D1-class RISC-V SoCs.
//!
//! The crate has two halves. The register half describes memory-mapped
//! peripheral registers: bit fields within one 32-bit register
//! ([`bits`]), the access class of a register ([`access`]), and the
//! placement of registers inside a peripheral's address range
//! ([`memory`], [`dma`]). The runtime half describes what happens between
//! reset and user firmware: the header the boot ROM parses ([`head`]), the
//! ordered bring-up steps ([`bring_up`]) and the transfer of peripheral
//! ownership to user firmware ([`handover`]).
//!
//! Every executable function carries a contract over the mathematical
//! meaning of the data (bit fields as quotients and remainders, memory as a
//! sequence of bytes), and every contract is proved of the code beneath it.

pub mod access;
pub mod bits;
pub mod bring_up;
pub mod dma;
pub mod handover;
pub mod head;
pub mod memory;
