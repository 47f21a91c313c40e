use vstd::prelude::*;

verus! {

/// Why no secure entropy source could be used.
///
/// Both kinds are permanent for a given host state: probing the same host
/// again gives the same failure.
#[derive(Clone, Copy, Debug, PartialEq, Eq, Structural)]
pub enum Error {
    /// The host has a browser-style global object, but neither `crypto`
    /// nor `msCrypto` is defined on it.
    CryptoUndefined,
    /// A crypto object was found, but its `getRandomValues` method is not
    /// defined.
    GetRandomValuesUndefined,
}

} // verus!
