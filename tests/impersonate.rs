use impersonate::headers::HeaderName;
use impersonate::http2::{PseudoHeader, SettingId};
use impersonate::identifier::{all, Impersonate, ImpersonateError};
use impersonate::registry::{settings_for_name, tls_settings, Registry};
use impersonate::text::{join, str_eq};
use impersonate::tls::{build_tls, Alpn, Cipher, Curve, OkHttpTlsSettings, SigAlg, TlsProfile, TlsVersion};
use std::sync::Arc;

const OKHTTP4_CIPHERS: &str = "TLS_AES_128_GCM_SHA256:TLS_AES_256_GCM_SHA384:TLS_CHACHA20_POLY1305_SHA256:TLS_ECDHE_ECDSA_WITH_AES_128_GCM_SHA256:TLS_ECDHE_RSA_WITH_AES_128_GCM_SHA256:TLS_ECDHE_ECDSA_WITH_AES_256_GCM_SHA384:TLS_ECDHE_RSA_WITH_AES_256_GCM_SHA384:TLS_ECDHE_ECDSA_WITH_CHACHA20_POLY1305_SHA256:TLS_ECDHE_RSA_WITH_CHACHA20_POLY1305_SHA256:TLS_ECDHE_RSA_WITH_AES_128_CBC_SHA:TLS_ECDHE_RSA_WITH_AES_256_CBC_SHA:TLS_RSA_WITH_AES_128_GCM_SHA256:TLS_RSA_WITH_AES_256_GCM_SHA384:TLS_RSA_WITH_AES_128_CBC_SHA:TLS_RSA_WITH_AES_256_CBC_SHA:SSL_RSA_WITH_3DES_EDE_CBC_SHA";

const DEFAULT_SIGALGS: &str = "ecdsa_secp256r1_sha256:rsa_pss_rsae_sha256:rsa_pkcs1_sha256:ecdsa_secp384r1_sha384:rsa_pss_rsae_sha384:rsa_pkcs1_sha384:rsa_pss_rsae_sha512:rsa_pkcs1_sha512:rsa_pkcs1_sha1";

fn has_dups<T: PartialEq>(v: &[T]) -> bool {
    (0..v.len()).any(|i| (i + 1..v.len()).any(|j| v[i] == v[j]))
}

#[test]
fn every_name_parses_back() {
    let profiles = all();
    assert_eq!(profiles.len(), 46);
    for v in profiles {
        let parsed = Impersonate::parse(v.as_str()).unwrap();
        assert_eq!(parsed, v);
        assert_eq!(parsed.as_str(), v.as_str());
    }
    assert_eq!(Impersonate::parse("safari_ios_17.4.1"), Ok(Impersonate::SafariIos17_4_1));
    assert_eq!(Impersonate::parse("okhttp_4.10"), Ok(Impersonate::OkHttp4_10));
    assert_eq!(Impersonate::parse("edge_127"), Ok(Impersonate::Edge127));
    assert_eq!(Impersonate::parse("chrome_131"), Ok(Impersonate::Chrome131));
}

#[test]
fn names_are_distinct() {
    let profiles = all();
    let names: Vec<&str> = profiles.iter().map(|v| v.as_str()).collect();
    assert!(!has_dups(&names));
}

#[test]
fn unknown_name_is_rejected() {
    assert_eq!(
        Impersonate::parse("chrome_999"),
        Err(ImpersonateError::UnknownIdentifier("chrome_999".to_string()))
    );
    assert_eq!(
        Impersonate::parse("Chrome_131"),
        Err(ImpersonateError::UnknownIdentifier("Chrome_131".to_string()))
    );
    assert_eq!(
        Impersonate::parse("chrome_13"),
        Err(ImpersonateError::UnknownIdentifier("chrome_13".to_string()))
    );
    assert_eq!(Impersonate::parse(""), Err(ImpersonateError::UnknownIdentifier(String::new())));
}

#[test]
fn default_profile_is_chrome_131() {
    assert_eq!(Impersonate::default(), Impersonate::Chrome131);
}

#[test]
fn no_headers_unless_asked() {
    for v in all() {
        let s = tls_settings(v, false);
        assert!(s.headers.is_none());
        assert!(s.headers_order.is_none());
    }
}

#[test]
fn headers_match_their_order() {
    for v in all() {
        let s = tls_settings(v, true);
        let map = s.headers.unwrap();
        let order = s.headers_order.unwrap();
        assert!(map.len() > 0);
        let names: Vec<HeaderName> = map.entries.iter().map(|e| e.0).collect();
        assert_eq!(*order, names);
        assert!(!has_dups(&names));
        for n in order.iter() {
            assert!(map.get(*n).is_some());
        }
    }
}

#[test]
fn chrome_headers_in_order() {
    let s = tls_settings(Impersonate::Chrome131, true);
    let order = s.headers_order.unwrap();
    assert_eq!(
        *order,
        vec![
            HeaderName::UpgradeInsecureRequests,
            HeaderName::UserAgent,
            HeaderName::Accept,
            HeaderName::AcceptEncoding,
            HeaderName::AcceptLanguage
        ]
    );
    let map = s.headers.unwrap();
    assert_eq!(map.get(HeaderName::UpgradeInsecureRequests), Some("1"));
    assert_eq!(map.get(HeaderName::Dnt), None);
    assert_eq!(HeaderName::UserAgent.name(), "user-agent");
}

#[test]
fn cached_headers_are_shared() {
    let mut registry = Registry::new();
    let a = registry.build(Impersonate::Safari18, true);
    let b = registry.build(Impersonate::Safari18, true);
    assert!(Arc::ptr_eq(a.headers.as_ref().unwrap(), b.headers.as_ref().unwrap()));
    assert!(Arc::ptr_eq(a.headers_order.as_ref().unwrap(), b.headers_order.as_ref().unwrap()));
    let c = registry.build(Impersonate::Chrome131, true);
    assert!(!Arc::ptr_eq(a.headers.as_ref().unwrap(), c.headers.as_ref().unwrap()));
    let d = registry.build(Impersonate::Safari18, false);
    assert!(d.headers.is_none());
    let e = registry.build(Impersonate::Safari18, true);
    assert!(Arc::ptr_eq(a.headers.as_ref().unwrap(), e.headers.as_ref().unwrap()));
}

#[test]
fn fresh_registries_build_afresh() {
    let mut first = Registry::new();
    let mut second = Registry::new();
    let a = first.build(Impersonate::OkHttp5, true);
    let b = second.build(Impersonate::OkHttp5, true);
    assert!(!Arc::ptr_eq(a.headers.as_ref().unwrap(), b.headers.as_ref().unwrap()));
    assert_eq!(a.headers.unwrap().entries, b.headers.unwrap().entries);
}

#[test]
fn curves_are_distinct_and_chrome_default() {
    for v in all() {
        let s = tls_settings(v, false);
        assert!(!s.tls.curves.is_empty());
        assert!(!has_dups(&s.tls.curves));
        assert!(!has_dups(&s.tls.ciphers));
        assert!(!has_dups(&s.tls.sigalgs));
    }
    for v in [Impersonate::Chrome100, Impersonate::Chrome120, Impersonate::Edge101, Impersonate::Edge122] {
        let s = tls_settings(v, false);
        assert_eq!(s.tls.curves, vec![Curve::X25519, Curve::Secp256r1, Curve::Secp384r1]);
    }
    let s = tls_settings(Impersonate::Chrome131, false);
    assert_eq!(s.tls.curves[0], Curve::X25519Kyber768Draft00);
}

#[test]
fn http2_settings_are_permutations() {
    for v in all() {
        let s = tls_settings(v, false);
        let ids: Vec<SettingId> = s.http2.settings.iter().map(|p| p.0).collect();
        assert!(!has_dups(&ids));
        assert_eq!(s.http2.pseudo_order.len(), 4);
        for p in [PseudoHeader::Method, PseudoHeader::Scheme, PseudoHeader::Authority, PseudoHeader::Path] {
            assert!(s.http2.pseudo_order.contains(&p));
        }
    }
}

#[test]
fn http2_chrome_values() {
    let s = tls_settings(Impersonate::Chrome131, false);
    assert_eq!(
        s.http2.settings,
        vec![
            (SettingId::HeaderTableSize, 65536),
            (SettingId::EnablePush, 0),
            (SettingId::InitialWindowSize, 6291456),
            (SettingId::MaxHeaderListSize, 262144)
        ]
    );
    assert_eq!(
        s.http2.pseudo_order,
        vec![PseudoHeader::Method, PseudoHeader::Authority, PseudoHeader::Scheme, PseudoHeader::Path]
    );
    assert_eq!(s.http2.initial_connection_window_update, 15663105);
    let o = tls_settings(Impersonate::OkHttp4_9, false);
    assert_eq!(
        o.http2.pseudo_order,
        vec![PseudoHeader::Method, PseudoHeader::Path, PseudoHeader::Authority, PseudoHeader::Scheme]
    );
}

#[test]
fn chrome_131_version_bounds() {
    let s = tls_settings(Impersonate::Chrome131, false);
    assert_eq!(s.tls.min_version, TlsVersion::Tls1_2);
    assert_eq!(s.tls.max_version, TlsVersion::Tls1_3);
    assert!(s.tls.permute_extensions);
    assert_eq!(s.tls.alpn, vec![Alpn::Http2, Alpn::Http1_1]);
}

#[test]
fn okhttp_4_10_cipher_list() {
    let s = tls_settings(Impersonate::OkHttp4_10, false);
    assert_eq!(s.tls.cipher_list(), OKHTTP4_CIPHERS);
    assert_eq!(s.tls.sigalgs_list(), DEFAULT_SIGALGS);
    assert!(s.tls.ocsp_stapling);
    assert_eq!(s.tls.min_version, TlsVersion::Tls1_2);
    assert_eq!(s.tls.max_version, TlsVersion::Tls1_3);
}

#[test]
fn okhttp_try_into_applies_defaults() {
    let s = OkHttpTlsSettings {
        curves: None,
        sigalgs_list: None,
        cipher_list: vec![Cipher::Aes128GcmSha256, Cipher::RsaAes128CbcSha],
    }
    .try_into()
    .unwrap();
    assert_eq!(s.curves, vec![Curve::X25519, Curve::Secp256r1, Curve::Secp384r1]);
    assert_eq!(s.cipher_list(), "TLS_AES_128_GCM_SHA256:TLS_RSA_WITH_AES_128_CBC_SHA");
    assert_eq!(s.sigalgs_list(), DEFAULT_SIGALGS);
    let custom = OkHttpTlsSettings {
        curves: Some(vec![Curve::Secp384r1]),
        sigalgs_list: Some(vec![SigAlg::RsaPkcs1Sha1]),
        cipher_list: vec![Cipher::Aes256GcmSha384],
    }
    .try_into()
    .unwrap();
    assert_eq!(custom.curves, vec![Curve::Secp384r1]);
    assert_eq!(custom.sigalgs_list(), "rsa_pkcs1_sha1");
}

fn profile() -> TlsProfile {
    TlsProfile {
        ciphers: vec![Cipher::Aes128GcmSha256],
        curves: None,
        sigalgs: None,
        alpn: None,
        cert_compression: vec![],
        permute_extensions: false,
        grease: false,
        ocsp_stapling: false,
        min_version: None,
        max_version: None,
    }
}

#[test]
fn engine_rejects_bad_requests() {
    assert!(build_tls(profile()).is_ok());
    let mut empty = profile();
    empty.ciphers = vec![];
    assert_eq!(build_tls(empty).unwrap_err(), ImpersonateError::EngineConfiguration);
    let mut dup = profile();
    dup.curves = Some(vec![Curve::X25519, Curve::X25519]);
    assert_eq!(build_tls(dup).unwrap_err(), ImpersonateError::EngineConfiguration);
    let mut no_curves = profile();
    no_curves.curves = Some(vec![]);
    assert_eq!(build_tls(no_curves).unwrap_err(), ImpersonateError::EngineConfiguration);
    let mut inverted = profile();
    inverted.min_version = Some(TlsVersion::Tls1_3);
    inverted.max_version = Some(TlsVersion::Tls1_2);
    assert_eq!(build_tls(inverted).unwrap_err(), ImpersonateError::EngineConfiguration);
    let rejected = OkHttpTlsSettings { curves: None, sigalgs_list: None, cipher_list: vec![] }.try_into();
    assert_eq!(rejected.unwrap_err(), ImpersonateError::EngineConfiguration);
}

#[test]
fn text_helpers() {
    assert!(str_eq("okhttp_5", "okhttp_5"));
    assert!(!str_eq("okhttp_5", "okhttp_3"));
    assert!(!str_eq("a", "ab"));
    assert_eq!(join(&vec!["a", "b", "c"], ":"), "a:b:c");
    assert_eq!(join(&vec![], ":"), "");
    assert_eq!(join(&vec!["x"], ", "), "x");
}

#[test]
fn alpn_wire_format() {
    let s = tls_settings(Impersonate::Safari18, false);
    assert_eq!(
        s.tls.alpn_wire(),
        vec![2, b'h', b'2', 8, b'h', b't', b't', b'p', b'/', b'1', b'.', b'1']
    );
    assert_eq!(Alpn::Http2.name(), "h2");
}

#[test]
fn settings_by_name() {
    let s = settings_for_name("okhttp_4.10", false).unwrap();
    assert_eq!(s.tls.cipher_list(), OKHTTP4_CIPHERS);
    assert!(s.headers.is_none());
    let h = settings_for_name("safari_ios_17.4.1", true).unwrap();
    assert!(h.headers.is_some());
    assert_eq!(
        settings_for_name("chrome_999", true).unwrap_err(),
        ImpersonateError::UnknownIdentifier("chrome_999".to_string())
    );
}

#[test]
fn safari_settings() {
    let s = tls_settings(Impersonate::Safari17_5, false);
    assert_eq!(s.tls.curves, vec![Curve::X25519, Curve::Secp256r1, Curve::Secp384r1, Curve::Secp521r1]);
    assert_eq!(s.tls.min_version, TlsVersion::Tls1_0);
    assert_eq!(s.http2.initial_connection_window_update, 10420225);
    let old = tls_settings(Impersonate::Safari15_3, false);
    assert_eq!(
        old.http2.settings,
        vec![(SettingId::InitialWindowSize, 4194304), (SettingId::MaxConcurrentStreams, 100)]
    );
}

#[test]
fn user_agent_names_the_version() {
    let s = tls_settings(Impersonate::Chrome100, true);
    let ua = s.headers.unwrap().get(HeaderName::UserAgent).unwrap();
    assert_eq!(
        ua,
        "Mozilla/5.0 (Windows NT 10.0; Win64; x64) AppleWebKit/537.36 (KHTML, like Gecko) Chrome/100.0.0.0 Safari/537.36"
    );
    let e = tls_settings(Impersonate::Edge122, true);
    assert!(e.headers.unwrap().get(HeaderName::UserAgent).unwrap().ends_with("Edg/122.0.0.0"));
    let o = tls_settings(Impersonate::OkHttp4_10, true);
    assert_eq!(o.headers.unwrap().get(HeaderName::UserAgent), Some("okhttp/4.10.0"));
    let i = tls_settings(Impersonate::SafariIos17_4_1, true);
    assert!(i.headers.unwrap().get(HeaderName::UserAgent).unwrap().contains("iPhone OS 17_4_1"));
}
