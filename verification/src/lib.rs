//! Verified pieces of a DCE RPC client and of the driver of the DCE IDL compiler: the
//! compiler's command line, status codes and their messages, the strings handed to C, and
//! the UTF-16 encodings that RPC interfaces carry.

use vstd::prelude::*;

pub mod builder;
pub mod rpc;
pub mod status;
pub mod utf16;

verus! {

} // verus!
