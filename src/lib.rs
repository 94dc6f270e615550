//! Command/response core of a game-console CD-ROM controller, with the
//! coprocessor-0 register file and the drawing side of the graphics unit.
mod bits;
pub mod disc;
pub mod packet;
pub mod drive;
pub mod commands;
pub mod cop0;
pub mod gpu;
