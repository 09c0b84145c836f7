//! Embedding a native web view in a host window: the platform-independent
//! core of the wrapper.
//!
//! The wrapper's job is to marshal strings and plain values between the host
//! application and the native web view. This crate holds the part of that
//! work that is ordinary computation: the script and the message name that
//! define the JavaScript-to-host bridge, the decoding of a bridge payload,
//! the parsing of the view's current location, and the translation of a load
//! request into the plain values the native side consumes.

use vstd::prelude::*;

mod bridge;
mod load;

pub use bridge::bridge_script;
pub use bridge::bridge_script_spec;
pub use bridge::decode_payload;
pub use bridge::invoke_message_name;
pub use bridge::invoke_message_name_spec;
pub use bridge::utf8_decode;
pub use load::Load;
pub use load::LoadPlan;
pub use load::RequestPlan;
pub use load::current_uri;
pub use load::load_plan;
pub use load::plan_for_html;
pub use load::plan_for_request;
pub use load::req_headers_of;
pub use load::req_method_str_of;
pub use load::req_uri_str_of;
pub use load::uri_parse;
pub use load::uri_str_of;

verus! {

/// A handle onto the UI thread of the view, safe to move to another thread.
///
/// The handle itself carries no data; it only witnesses that a view exists.
/// Enqueueing work onto the UI thread from it is native-side work and lives
/// with the platform code.
pub struct Handle {}

} // verus!
