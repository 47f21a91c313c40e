use vstd::prelude::*;

use crate::error::Error;
use wasm_bindgen::JsValue;

verus! {

/// The two property names under which a browser exposes its crypto object:
/// the standard `crypto` and the legacy `msCrypto`.
#[derive(Clone, Copy, Debug, PartialEq, Eq, Structural)]
pub enum CryptoName {
    Crypto,
    MsCrypto,
}

/// How far resolution of the entropy provider has come.
///
/// The first three variants say which host lookup is due next; the last
/// three are final.
#[derive(Clone, Copy, Debug, PartialEq, Eq, Structural)]
pub enum Resolution {
    /// Look for the browser-style global object (`self`).
    ProbeGlobal,
    /// Read `crypto` and `msCrypto` off the global object.
    ReadCryptoObjects,
    /// Read `getRandomValues` off the crypto object of that name.
    CheckFillMethod(CryptoName),
    /// No global object: load the server-side module `"crypto"` and use it.
    UseNodeModule,
    /// Use the browser crypto object of that name.
    UseBrowser(CryptoName),
    /// No usable provider.
    Failed(Error),
}

/// What the host answered to a lookup.
#[derive(Clone, Copy, Debug, PartialEq, Eq, Structural)]
pub enum Finding {
    /// Whether the global object could be reached.
    Global(bool),
    /// Whether `crypto` and `msCrypto` are defined on the global object.
    CryptoObjects { crypto: bool, ms_crypto: bool },
    /// Whether the chosen crypto object defines `getRandomValues`.
    FillMethod(bool),
}

#[verifier::external_type_specification]
#[verifier::external_body]
pub struct ExJsValue(JsValue);

/// Whether JS value `v` is `undefined`.
pub uninterp spec fn undefined_of(v: JsValue) -> bool;

/// Relies on wasm_bindgen::JsValue::is_undefined: whether a property read
/// from the host came back `undefined`, which depends on that value alone.
#[verifier::external_body]
fn is_undefined(v: &JsValue) -> (r: bool)
    ensures
        r == undefined_of(*v),
{
    v.is_undefined()
}

impl Finding {
    /// The answer to `ReadCryptoObjects`, from the values read for `crypto`
    /// and `msCrypto`: each counts as defined unless it is `undefined`.
    pub fn crypto_objects(crypto: &JsValue, ms_crypto: &JsValue) -> (r: Finding)
        ensures
            r == (Finding::CryptoObjects {
                crypto: !undefined_of(*crypto),
                ms_crypto: !undefined_of(*ms_crypto),
            }),
    {
        let crypto_defined = !is_undefined(crypto);
        let ms_crypto_defined = !is_undefined(ms_crypto);
        Finding::CryptoObjects { crypto: crypto_defined, ms_crypto: ms_crypto_defined }
    }

    /// The answer to `CheckFillMethod`, from the value read for
    /// `getRandomValues` on the chosen object.
    pub fn fill_method(get_random_values: &JsValue) -> (r: Finding)
        ensures
            r == Finding::FillMethod(!undefined_of(*get_random_values)),
    {
        Finding::FillMethod(!is_undefined(get_random_values))
    }
}

pub open spec fn is_final(r: Resolution) -> bool {
    r is UseNodeModule || r is UseBrowser || r is Failed
}

/// The state that follows `r` once the host has answered `f`. A final state,
/// or an answer to a different lookup than the one due, changes nothing.
pub open spec fn next_resolution(r: Resolution, f: Finding) -> Resolution {
    match (r, f) {
        (Resolution::ProbeGlobal, Finding::Global(found)) => {
            if found {
                Resolution::ReadCryptoObjects
            } else {
                Resolution::UseNodeModule
            }
        },
        (Resolution::ReadCryptoObjects, Finding::CryptoObjects { crypto, ms_crypto }) => {
            if crypto {
                Resolution::CheckFillMethod(CryptoName::Crypto)
            } else if ms_crypto {
                Resolution::CheckFillMethod(CryptoName::MsCrypto)
            } else {
                Resolution::Failed(Error::CryptoUndefined)
            }
        },
        (Resolution::CheckFillMethod(name), Finding::FillMethod(defined)) => {
            if defined {
                Resolution::UseBrowser(name)
            } else {
                Resolution::Failed(Error::GetRandomValuesUndefined)
            }
        },
        _ => r,
    }
}

impl Resolution {
    /// Where resolution begins in a context that has no provider yet.
    pub fn start() -> (r: Resolution)
        ensures
            r == Resolution::ProbeGlobal,
    {
        Resolution::ProbeGlobal
    }

    /// Whether resolution has ended, with a provider or with an error.
    pub fn is_finished(&self) -> (r: bool)
        ensures
            r == is_final(*self),
    {
        match self {
            Resolution::UseNodeModule | Resolution::UseBrowser(_) | Resolution::Failed(_) => true,
            _ => false,
        }
    }

    /// Takes in the host's answer to the lookup that is due.
    pub fn advance(self, found: Finding) -> (r: Resolution)
        ensures
            r == next_resolution(self, found),
    {
        match (self, found) {
            (Resolution::ProbeGlobal, Finding::Global(true)) => Resolution::ReadCryptoObjects,
            (Resolution::ProbeGlobal, Finding::Global(false)) => Resolution::UseNodeModule,
            (Resolution::ReadCryptoObjects, Finding::CryptoObjects { crypto, ms_crypto }) => {
                if crypto {
                    Resolution::CheckFillMethod(CryptoName::Crypto)
                } else if ms_crypto {
                    Resolution::CheckFillMethod(CryptoName::MsCrypto)
                } else {
                    Resolution::Failed(Error::CryptoUndefined)
                }
            },
            (Resolution::CheckFillMethod(name), Finding::FillMethod(defined)) => {
                if defined {
                    Resolution::UseBrowser(name)
                } else {
                    Resolution::Failed(Error::GetRandomValuesUndefined)
                }
            },
            _ => self,
        }
    }
}

/// How a host offers one crypto object.
#[derive(Clone, Copy, Debug, PartialEq, Eq, Structural)]
pub enum Capability {
    /// The property is undefined.
    Absent,
    /// The object is there, but its `getRandomValues` is undefined.
    NonFunctional,
    /// The object is there and can fill arrays.
    Functional,
}

/// A host, as far as resolution can observe it.
#[derive(Clone, Copy, Debug, PartialEq, Eq, Structural)]
pub struct Host {
    /// Whether the browser-style global object can be reached.
    pub global: bool,
    pub crypto: Capability,
    pub ms_crypto: Capability,
}

pub open spec fn capability(h: Host, name: CryptoName) -> Capability {
    match name {
        CryptoName::Crypto => h.crypto,
        CryptoName::MsCrypto => h.ms_crypto,
    }
}

/// What host `h` answers to the lookup that is due in state `r`.
pub open spec fn answer(h: Host, r: Resolution) -> Finding {
    match r {
        Resolution::ReadCryptoObjects => Finding::CryptoObjects {
            crypto: !(h.crypto is Absent),
            ms_crypto: !(h.ms_crypto is Absent),
        },
        Resolution::CheckFillMethod(name) => Finding::FillMethod(capability(h, name) is Functional),
        _ => Finding::Global(h.global),
    }
}

/// The state reached from `r` after `steps` lookups answered by host `h`.
pub open spec fn run(h: Host, r: Resolution, steps: nat) -> Resolution
    decreases steps,
{
    if steps == 0 {
        r
    } else {
        run(h, next_resolution(r, answer(h, r)), (steps - 1) as nat)
    }
}

/// The provider that host `h` offers: the server-side module when no global
/// object is reachable; otherwise `crypto` if defined, else `msCrypto`, and
/// only if the chosen object defines `getRandomValues`.
pub open spec fn host_outcome(h: Host) -> Resolution {
    if !h.global {
        Resolution::UseNodeModule
    } else {
        let name = if !(h.crypto is Absent) {
            CryptoName::Crypto
        } else {
            CryptoName::MsCrypto
        };
        match capability(h, name) {
            Capability::Absent => Resolution::Failed(Error::CryptoUndefined),
            Capability::NonFunctional => Resolution::Failed(Error::GetRandomValuesUndefined),
            Capability::Functional => Resolution::UseBrowser(name),
        }
    }
}

/// Once resolution has ended, further answers change nothing.
pub proof fn lemma_final_is_stable(h: Host, r: Resolution, steps: nat)
    requires
        is_final(r),
    ensures
        run(h, r, steps) == r,
    decreases steps,
{
    if steps > 0 {
        lemma_final_is_stable(h, r, (steps - 1) as nat);
    }
}

/// Driving the machine from its start with a host's answers ends, after at
/// most three lookups, in the provider that the host offers, and stays there.
pub proof fn lemma_resolution_follows_host(h: Host, steps: nat)
    requires
        steps >= 3,
    ensures
        is_final(host_outcome(h)),
        run(h, Resolution::ProbeGlobal, steps) == host_outcome(h),
{
    reveal_with_fuel(run, 4);
    lemma_run_split(h, Resolution::ProbeGlobal, 3, (steps - 3) as nat);
    lemma_final_is_stable(h, run(h, Resolution::ProbeGlobal, 3), (steps - 3) as nat);
}

proof fn lemma_run_split(h: Host, r: Resolution, a: nat, b: nat)
    ensures
        run(h, r, a + b) == run(h, run(h, r, a), b),
    decreases a,
{
    if a > 0 {
        lemma_run_split(h, next_resolution(r, answer(h, r)), (a - 1) as nat, b);
        assert((a - 1) as nat + b == (a + b - 1) as nat);
    }
}

/// Without a reachable global object, the first lookup settles on the
/// server-side module, and no browser property is read after it.
pub proof fn lemma_no_global_uses_node_module(h: Host, steps: nat)
    requires
        !h.global,
        steps >= 1,
    ensures
        run(h, Resolution::ProbeGlobal, 1) == Resolution::UseNodeModule,
        run(h, Resolution::ProbeGlobal, steps) == Resolution::UseNodeModule,
        host_outcome(h) == Resolution::UseNodeModule,
{
    reveal_with_fuel(run, 2);
    lemma_run_split(h, Resolution::ProbeGlobal, 1, (steps - 1) as nat);
    lemma_final_is_stable(h, Resolution::UseNodeModule, (steps - 1) as nat);
}

/// With `crypto` undefined and a working `msCrypto`, the legacy object is used.
pub proof fn lemma_legacy_fallback(h: Host)
    requires
        h.global,
        h.crypto is Absent,
        h.ms_crypto is Functional,
    ensures
        host_outcome(h) == Resolution::UseBrowser(CryptoName::MsCrypto),
{
}

/// A defined `crypto` is chosen whatever `msCrypto` holds; when it works it
/// is the provider.
pub proof fn lemma_standard_preferred(h: Host)
    requires
        h.global,
        !(h.crypto is Absent),
    ensures
        h.crypto is Functional ==> host_outcome(h) == Resolution::UseBrowser(CryptoName::Crypto),
        h.crypto is NonFunctional ==> host_outcome(h) == Resolution::Failed(
            Error::GetRandomValuesUndefined,
        ),
{
}

/// A crypto object without `getRandomValues` fails as such, not as a missing
/// crypto object.
pub proof fn lemma_missing_fill_method(h: Host)
    requires
        h.global,
        h.crypto is NonFunctional || (h.crypto is Absent && h.ms_crypto is NonFunctional),
    ensures
        host_outcome(h) == Resolution::Failed(Error::GetRandomValuesUndefined),
{
}

/// With neither object defined, resolution fails with `CryptoUndefined`.
pub proof fn lemma_no_crypto_object(h: Host)
    requires
        h.global,
        h.crypto is Absent,
        h.ms_crypto is Absent,
    ensures
        host_outcome(h) == Resolution::Failed(Error::CryptoUndefined),
{
}

} // verus!
