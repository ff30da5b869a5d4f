//! A steppable model of the Sharp LR35902: cartridge header parsing, the
//! memory bus, the register file, the instruction decoder and the execution
//! engine, each with a machine-checked contract.

pub mod hardware;
