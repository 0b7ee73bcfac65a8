//! The first-run guide of the desktop app and the greeting of the mobile bridge.
use vstd::prelude::*;

verus! {

/// Whether the app has an identity, and the keys to show the user.
#[derive(Clone, Debug, PartialEq, Eq)]
pub struct GuideStatus {
    pub ready: bool,
    pub pubkey_hex: Option<String>,
    pub secret_nsec: Option<String>,
}

/// The option's text, as a value.
pub open spec fn opt_view(value: Option<String>) -> Option<Seq<char>> {
    match value {
        Some(s) => Some(s@),
        None => None,
    }
}

/// The guide status of a running app: ready, with the public key, when the
/// runtime (and so an identity) exists; not ready and empty otherwise.  The
/// secret is never shown here.
pub fn guide_status_for_runtime(runtime_pubkey_hex: Option<String>) -> (res: GuideStatus)
    ensures
        res.ready == runtime_pubkey_hex is Some,
        opt_view(res.pubkey_hex) == opt_view(runtime_pubkey_hex),
        res.secret_nsec is None,
{
    match runtime_pubkey_hex {
        Some(pubkey_hex) => GuideStatus { ready: true, pubkey_hex: Some(pubkey_hex), secret_nsec: None },
        None => GuideStatus { ready: false, pubkey_hex: None, secret_nsec: None },
    }
}

/// The guide status right after a new identity was written: not yet ready
/// (the app restarts to load it), showing the public key and the secret once.
pub fn guide_status_for_new_identity(pubkey_hex: String, secret_nsec: String) -> (res: GuideStatus)
    ensures
        !res.ready,
        opt_view(res.pubkey_hex) == Some(pubkey_hex@),
        opt_view(res.secret_nsec) == Some(secret_nsec@),
{
    GuideStatus { ready: false, pubkey_hex: Some(pubkey_hex), secret_nsec: Some(secret_nsec) }
}

/// The greeting `Hello, {name}!`.
pub fn greet(name: String) -> (res: String)
    ensures
        res@ == "Hello, "@ + name@ + "!"@,
{
    let mut greeting = "Hello, ".to_string();
    greeting.append(name.as_str());
    greeting.append("!");
    greeting
}

} // verus!
