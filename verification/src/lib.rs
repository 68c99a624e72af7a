//! Transaction-exchange core of a grin wallet: slate data model, transport
//! addressing, the round-decision rule, the controller that glues protocol
//! decisions to transport events, and the listener lifecycle model.

pub mod address;
pub mod broker;
pub mod error;
pub mod events;
pub mod lifecycle;
pub mod session;
pub mod slate;
pub mod wallet;
