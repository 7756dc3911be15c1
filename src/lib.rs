//! Host-side protocol logic for the VF60 vacuum-fluorescent USB display:
//! device selection, the power-on handshake, and the byte encoding of its
//! query and display commands.
use vstd::prelude::*;

pub mod error;
pub mod handshake;
pub mod locator;
pub mod protocol;

pub use error::Error;
pub use handshake::ControlTransfer;
pub use locator::{DeviceIds, Direction, EndpointBinding, EndpointInfo, InterfaceInfo, TransferKind};
pub use protocol::{CharacterMode, CursorMode, DeviceString};
