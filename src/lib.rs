//! Session and protocol layer of a telemetry dashboard's websocket endpoint:
//! frame codec, session state, request routing and ordered response output.

pub mod codec;
pub mod request;
pub mod session;
pub mod dispatch;
pub mod sink;
