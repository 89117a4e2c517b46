//! Machine-cycle stepped core of a Sharp LR35902 handheld: register file,
//! operand descriptors, instruction stage machine and memory bus.

pub mod audio;
pub mod bus;
pub mod cpu;
pub mod decode;
pub mod fault;
pub mod gb;
pub mod graphic;
pub mod operand;
pub mod reg;
