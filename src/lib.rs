//! Host-side collector for a BLE wearable sensor: the identifier table, the
//! payload decoder and the session state machine that drives discovery,
//! connection and data acquisition.
pub mod decode;
pub mod identifiers;
pub mod session;
pub mod text;

pub use decode::{decode_scalar, decode_vec3, encode_scalar, encode_vec3, DecodeError, Vec3};
pub use identifiers::{parse_header_for_uuids, BleIdentifiers, IdentifierError, UuidName};
pub use session::{Action, Channel, Event, Mode, Operation, Phase, Readings, Report, Session, SessionError, Step};
