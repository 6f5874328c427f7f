//! Driver for a two-operator FM synthesis chip of the OPL2 family, reached through a
//! write-only register interface behind a shift register.
//!
//! The layers, leaves first:
//! - [`interface`]: the transport. It keeps a shadow copy of every register, since the
//!   chip cannot be read, and clocks each byte in with the chip's timing.
//! - [`ll`]: the register file. Registers, their addresses and named bit fields, and
//!   reads, writes and field updates over the transport.
//! - [`instrument`] and [`presets`]: instrument descriptors and built-in timbres.
//! - [`hl`]: the device, a type-state machine from uninitialized to melody mode and
//!   rhythm mode, that turns channels, notes and voices into register writes.
//! - [`bits`]: bit ranges inside a byte.
pub mod bits;
pub mod hl;
pub mod instrument;
pub mod interface;
pub mod ll;
pub mod presets;
