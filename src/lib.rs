//! Guild operations of a WeTEE DAO chain: which storage entries a read asks
//! for and how its answer is decoded, and which runtime call a write submits
//! and along which route, direct signing or governance.
pub mod client;
mod address;
pub mod call;
pub mod storage;
pub mod submission;
pub mod guild;
