//! Serial-port arbitration and streaming core for a microcontroller
//! flashing tool: a session flag that arbitrates one physical serial port
//! between a background line-streaming reader and an exclusive firmware
//! upload, the reader's line-splitting and backpressure logic, the upload
//! orchestration state machine, and USB port enumeration.

pub mod orchestrator;
pub mod ports;
pub mod reader;
pub mod registry;
pub mod text;

pub use registry::PortRegistry;
