//! The JavaScript-to-host bridge: the script injected into every page and
//! the name under which the page posts messages back to the host.

use vstd::prelude::*;

verus! {

/// The script text that defines `window.external.invoke` on the page.
pub open spec fn bridge_script_spec() -> Seq<char> {
    r#"
            window.external = {
                invoke: function(arg) {
                    webkit.messageHandlers.invoke.postMessage(JSON.stringify(arg));
                }
            };
        "#@
}

/// The script injected at document start into every page, defining
/// `window.external.invoke` to post its argument to the host.
pub fn bridge_script() -> (r: &'static str)
    ensures
        r@ == bridge_script_spec(),
{
    r#"
            window.external = {
                invoke: function(arg) {
                    webkit.messageHandlers.invoke.postMessage(JSON.stringify(arg));
                }
            };
        "#
}

/// The name of the script message handler the bridge posts to.
pub open spec fn invoke_message_name_spec() -> Seq<char> {
    "invoke"@
}

/// The message name the bridge script posts under; the platform side
/// registers and unregisters its handler under this same name.
pub fn invoke_message_name() -> (r: &'static str)
    ensures
        r@ == invoke_message_name_spec(),
{
    "invoke"
}

/// What decoding the given bytes as UTF-8 returns.
pub uninterp spec fn utf8_decode(b: Seq<u8>) -> Option<Seq<char>>;

/// Relies on `String::from_utf8`: succeeds exactly when the bytes are valid
/// UTF-8, and then returns the string those bytes spell.
#[verifier::external_body]
fn utf8_to_string(bytes: Vec<u8>) -> (r: Option<String>)
    ensures
        r is Some <==> utf8_decode(bytes@) is Some,
        r matches Some(s) ==> utf8_decode(bytes@) == Some(s@),
        bytes@.len() == 0 ==> r is Some,
{
    String::from_utf8(bytes).ok()
}

/// Decodes the body of a bridge message, as handed over by the native side,
/// into the text the page posted: present exactly when the bytes are valid
/// UTF-8. The platform side treats an invalid body as a programmer error.
pub fn decode_payload(bytes: Vec<u8>) -> (r: Option<String>)
    ensures
        r is Some <==> utf8_decode(bytes@) is Some,
        r matches Some(s) ==> utf8_decode(bytes@) == Some(s@),
        bytes@.len() == 0 ==> r is Some,
{
    utf8_to_string(bytes)
}

} // verus!
