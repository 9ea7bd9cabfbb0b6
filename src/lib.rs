//! Type-directed marshaling of values across a native call boundary, and the
//! dispatch protocol between a scripting thread and a native loop thread.
//!
//! The library decides; its caller performs. Descriptors are parsed from
//! their description (`parse`), values are marshaled into native-call-ready
//! form (`marshal`) and native results converted back with the ownership rule
//! their descriptor declares (`receive`); a call is laid out slot by slot
//! (`invoke`); callbacks are answered per calling convention (`trampoline`);
//! native objects are named by identities (`registry`); and the two threads
//! hand work to each other through `dispatch`.

use vstd::prelude::*;

pub mod dispatch;
pub mod field;
pub mod gtype;
pub mod invoke;
pub mod marshal;
pub mod parse;
pub mod receive;
pub mod registry;
pub mod state;
pub mod trampoline;
pub mod types;
pub mod value;

verus! {

} // verus!
