//! A per-component store of hook state: typed values registered in call order,
//! read back in the same order on every traversal, and torn down together.

pub mod value;
pub mod hooklist;
pub mod laws;

pub use value::{HookValue, Kind, Teardown};
pub use hooklist::{AccessError, Entry, Handle, HookList, ReadError, StoreView};
