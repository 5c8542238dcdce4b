//! A transient-to-persistent bridge for consuming encoder/decoder protocols.
//!
//! Some resources cannot implement a consuming (move-by-value) decode or
//! encode protocol directly, because the concrete implementor they would hand
//! out has to be manufactured freshly for every call.  The bridge types here
//! wrap such a resource and implement the full protocol on its behalf: every
//! operation manufactures a transient implementor bound to that single call,
//! forwards the operation verbatim, and discards the transient when the call
//! returns.  The bridge adds no behaviour of its own: results and errors pass
//! through unchanged, and the contracts of each forwarding operation say so.

pub mod de;
pub mod ser;
pub mod stream;
pub mod text;
