use getrandom::cache::{Provider, ProviderCache};
use getrandom::error::Error;
use getrandom::source::{CryptoName, Finding, Resolution};

/// A host double: answers each lookup from fixed facts and counts lookups.
struct FakeHost {
    global: bool,
    crypto: Option<bool>,
    ms_crypto: Option<bool>,
    lookups: u32,
}

impl FakeHost {
    fn answer(&mut self, r: Resolution) -> Finding {
        self.lookups += 1;
        match r {
            Resolution::ProbeGlobal => Finding::Global(self.global),
            Resolution::ReadCryptoObjects => Finding::CryptoObjects {
                crypto: self.crypto.is_some(),
                ms_crypto: self.ms_crypto.is_some(),
            },
            Resolution::CheckFillMethod(CryptoName::Crypto) => {
                Finding::FillMethod(self.crypto == Some(true))
            }
            Resolution::CheckFillMethod(CryptoName::MsCrypto) => {
                Finding::FillMethod(self.ms_crypto == Some(true))
            }
            _ => panic!("lookup after resolution ended"),
        }
    }

    fn resolve(&mut self) -> Resolution {
        let mut r = Resolution::start();
        while !r.is_finished() {
            let found = self.answer(r);
            r = r.advance(found);
        }
        r
    }
}

fn host(global: bool, crypto: Option<bool>, ms_crypto: Option<bool>) -> FakeHost {
    FakeHost { global, crypto, ms_crypto, lookups: 0 }
}

#[test]
fn legacy_ms_crypto_used_when_crypto_undefined() {
    let mut h = host(true, None, Some(true));
    assert_eq!(h.resolve(), Resolution::UseBrowser(CryptoName::MsCrypto));
    assert_eq!(h.lookups, 3);
}

#[test]
fn standard_crypto_preferred_over_legacy() {
    let mut h = host(true, Some(true), Some(true));
    assert_eq!(h.resolve(), Resolution::UseBrowser(CryptoName::Crypto));
    let mut h = host(true, Some(true), None);
    assert_eq!(h.resolve(), Resolution::UseBrowser(CryptoName::Crypto));
}

#[test]
fn standard_crypto_chosen_even_when_only_legacy_works() {
    let mut h = host(true, Some(false), Some(true));
    assert_eq!(h.resolve(), Resolution::Failed(Error::GetRandomValuesUndefined));
}

#[test]
fn missing_fill_method_is_its_own_error() {
    let mut h = host(true, Some(false), None);
    assert_eq!(h.resolve(), Resolution::Failed(Error::GetRandomValuesUndefined));
    let mut h = host(true, None, Some(false));
    assert_eq!(h.resolve(), Resolution::Failed(Error::GetRandomValuesUndefined));
}

#[test]
fn no_crypto_object_is_crypto_undefined() {
    let mut h = host(true, None, None);
    assert_eq!(h.resolve(), Resolution::Failed(Error::CryptoUndefined));
    assert_eq!(h.lookups, 2);
}

#[test]
fn no_global_goes_to_node_module_after_one_lookup() {
    let mut h = host(false, Some(true), Some(true));
    assert_eq!(h.resolve(), Resolution::UseNodeModule);
    assert_eq!(h.lookups, 1);
}

#[test]
fn finished_states_ignore_answers() {
    let done = Resolution::UseBrowser(CryptoName::Crypto);
    assert_eq!(done.advance(Finding::Global(false)), done);
    let failed = Resolution::Failed(Error::CryptoUndefined);
    assert_eq!(failed.advance(Finding::FillMethod(true)), failed);
    assert_eq!(Resolution::ProbeGlobal.advance(Finding::FillMethod(true)), Resolution::ProbeGlobal);
    assert!(!Resolution::ReadCryptoObjects.is_finished());
    assert!(Resolution::UseNodeModule.is_finished());
}

/// One request in a context: probes only while the cache is empty.
fn request(cache: &mut ProviderCache<u32, u32>, h: &mut FakeHost, next_id: u32) -> Result<u32, Error> {
    if !cache.is_resolved() {
        let outcome = match h.resolve() {
            Resolution::UseNodeModule => Ok(Provider::Node(next_id)),
            Resolution::UseBrowser(_) => Ok(Provider::Browser(next_id)),
            Resolution::Failed(e) => Err(e),
            _ => unreachable!(),
        };
        cache.settle(outcome)?;
    }
    match cache.provider() {
        Some(Provider::Node(id)) | Some(Provider::Browser(id)) => Ok(*id),
        None => unreachable!(),
    }
}

#[test]
fn second_request_does_not_probe_again() {
    let mut cache = ProviderCache::new();
    let mut h = host(true, Some(true), None);
    assert_eq!(request(&mut cache, &mut h, 1), Ok(1));
    let after_first = h.lookups;
    assert_eq!(after_first, 3);
    assert_eq!(request(&mut cache, &mut h, 2), Ok(1));
    assert_eq!(h.lookups, after_first);
}

#[test]
fn failed_resolution_is_probed_again() {
    let mut cache: ProviderCache<u32, u32> = ProviderCache::new();
    let mut h = host(true, None, None);
    assert_eq!(request(&mut cache, &mut h, 1), Err(Error::CryptoUndefined));
    assert!(!cache.is_resolved());
    h.crypto = Some(true);
    assert_eq!(request(&mut cache, &mut h, 2), Ok(2));
    assert_eq!(h.lookups, 2 + 3);
}

#[test]
fn store_keeps_first_provider() {
    let mut cache: ProviderCache<u32, u32> = ProviderCache::new();
    assert!(cache.provider().is_none());
    cache.store(Provider::Browser(7));
    cache.store(Provider::Node(9));
    assert!(matches!(cache.provider(), Some(Provider::Browser(7))));
}

#[test]
fn settle_keeps_provider_and_passes_errors_on() {
    let mut cache: ProviderCache<u32, u32> = ProviderCache::new();
    assert_eq!(cache.settle(Err(Error::GetRandomValuesUndefined)), Err(Error::GetRandomValuesUndefined));
    assert!(!cache.is_resolved());
    assert_eq!(cache.settle(Ok(Provider::Node(4))), Ok(()));
    assert!(matches!(cache.provider(), Some(Provider::Node(4))));
    assert_eq!(cache.settle(Ok(Provider::Browser(5))), Ok(()));
    assert!(matches!(cache.provider(), Some(Provider::Node(4))));
    assert_eq!(cache.settle(Err(Error::CryptoUndefined)), Err(Error::CryptoUndefined));
    assert!(matches!(cache.provider(), Some(Provider::Node(4))));
}
