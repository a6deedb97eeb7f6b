//! Control routine for the on-chip NOR flash of CH32 microcontrollers:
//! unlocking, sector and whole-chip erase, buffered page programming with
//! read-back verification, and re-locking, written against an abstract
//! register interface and proved against a model of the flash controller.

pub mod error;
pub mod geometry;
pub mod model;
pub mod poll;
pub mod flash;
pub mod sim;
pub mod laws;
pub mod targets;
