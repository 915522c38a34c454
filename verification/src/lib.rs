//! A CHIP-8 virtual machine: opcode decoder, interpreter state, execution
//! engine and the clocks that drive them, with every rule stated as a
//! contract and proved.
//!
//! The machine owns no window, keyboard, file or clock. It takes a program
//! as bytes, a keypad as sixteen flags and time as nanoseconds, and gives
//! back its display as a grid of pixels.
//!
//! - [`nibble`], [`instruction`], [`decoder`]: from a 16-bit word to an
//!   instruction.
//! - [`state`]: the interpreter state and the model the contracts speak of.
//! - [`execute`], [`draw`], [`keypad`]: what each instruction does.
//! - [`engine`]: fetch, decode, execute.
//! - [`clock`], [`driver`]: instruction cycles and timer ticks from wall
//!   time.
//! - [`rom`], [`text`], [`cli`], [`input`], [`render`]: programs as bytes,
//!   messages, the command line, the keyboard and the window.
//! - [`laws`]: what holds of every machine.
//! - [`outside`]: what is taken on trust.

pub mod cli;
pub mod clock;
pub mod decoder;
pub mod draw;
pub mod driver;
pub mod engine;
pub mod execute;
pub mod input;
pub mod instruction;
pub mod keypad;
pub mod laws;
pub mod nibble;
pub mod outside;
pub mod render;
pub mod rom;
pub mod state;
pub mod text;
