//! Names that are derived from a path or from the user: the encoded form of
//! a directory, and the socket on which a user's daemon listens.

use crate::text::{decimal, push_decimal};
use base64::engine::general_purpose::URL_SAFE_NO_PAD;
use base64::Engine;
use vstd::prelude::*;

verus! {

/// The base64 text of `bytes` in the URL-safe alphabet and without padding,
/// as `base64` writes it.
pub uninterp spec fn url_safe_base64(bytes: Seq<u8>) -> Seq<char>;

/// Calls `base64::Engine::encode` on the engine
/// `base64::engine::general_purpose::URL_SAFE_NO_PAD`. The text that comes
/// back depends on the bytes alone; the contract gives it its name and
/// claims nothing else. The encoder fails only where the length of its output
/// does not fit a `usize`, which no slice in memory can bring about.
#[verifier::external_body]
fn encode_url_safe(bytes: &[u8]) -> (text: String)
    ensures
        text@ == url_safe_base64(bytes@),
{
    URL_SAFE_NO_PAD.encode(bytes)
}

/// A name for a directory that is safe in a file name or a URL: the base64
/// text of the path in UTF-8.
pub fn encode_path(path: &str) -> (name: String)
    ensures
        name@ == url_safe_base64(vstd::utf8::encode_utf8(path@)),
{
    encode_url_safe(path.as_bytes())
}

/// The path of the socket of the user `uid`: `/tmp/jobctl-`, the user's id
/// in decimal, and `.sock`.
pub open spec fn socket_path_text(uid: u32) -> Seq<char> {
    "/tmp/jobctl-"@ + decimal(uid as nat) + ".sock"@
}

/// The path of the socket on which the daemon of the user `uid` listens.
/// There is one per user, and it depends on nothing but the user's id.
pub fn socket_path(uid: u32) -> (path: String)
    ensures
        path@ == socket_path_text(uid),
{
    let mut path = String::new();
    path.append("/tmp/jobctl-");
    push_decimal(&mut path, uid as u64);
    path.append(".sock");
    assert(path@ =~= socket_path_text(uid));
    path
}

} // verus!
