//! An HTTP/2 tunnel: TCP byte streams carried over HTTP/2 CONNECT streams.
//!
//! The library holds the frame codec, the state machines of the tunnel's two
//! byte pumps, the dispatch rules of the client's connection pool and the
//! decisions of the client and server edges. The programs around it perform the
//! I/O and feed the outcomes back.
use vstd::prelude::*;

pub mod wire;
pub mod uint;
pub mod error;
pub mod setting;
pub mod frame;
pub mod round_trip;
pub mod validation;
pub mod pump;
pub mod pool;
pub mod connection;
pub mod edge;

pub use error::{Error, ErrorCode, ErrorCodeCodec};
pub use frame::{eat_padding, Frame, FrameCodec};
pub use setting::{Setting, SettingCodec};
pub use uint::{U24, U24Codec, U31, U31Codec};

verus! {

} // verus!
