pub mod account;
pub mod futures_type;
pub mod general;
pub mod router;
pub mod userstream;
pub mod websockets;
pub mod ws_model;
