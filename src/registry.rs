use std::sync::Arc;
use vstd::prelude::*;
use crate::headers::{
    build_header_policy, entry_names, header_entries, lemma_header_entries_distinct, HeaderFamily, HeaderMap,
    HeaderName,
};
use crate::http2::{
    build_http2, http2_model, http2_well_formed, lemma_http2_model_well_formed, Http2Family, Http2Settings,
};
use crate::identifier::{all_profiles, index_of, name_of, Impersonate, ImpersonateError, PROFILE_COUNT};
use crate::tls::{acceptable, no_dups, Curve, TlsSettings};
use crate::tls_profiles::{build_family_tls, lemma_tls_family_acceptable, tls_family_model, TlsFamily};

verus! {

/// The TLS handshake family of a profile.
pub open spec fn tls_family(v: Impersonate) -> TlsFamily {
    match v {
        Impersonate::Chrome100 => TlsFamily::ChromeLegacy,
        Impersonate::Chrome101 => TlsFamily::ChromeLegacy,
        Impersonate::Chrome104 => TlsFamily::ChromeLegacy,
        Impersonate::Chrome105 => TlsFamily::ChromeLegacy,
        Impersonate::Chrome106 => TlsFamily::Chrome,
        Impersonate::Chrome107 => TlsFamily::Chrome,
        Impersonate::Chrome108 => TlsFamily::Chrome,
        Impersonate::Chrome109 => TlsFamily::Chrome,
        Impersonate::Chrome114 => TlsFamily::Chrome,
        Impersonate::Chrome116 => TlsFamily::Chrome,
        Impersonate::Chrome117 => TlsFamily::Chrome,
        Impersonate::Chrome118 => TlsFamily::Chrome,
        Impersonate::Chrome119 => TlsFamily::Chrome,
        Impersonate::Chrome120 => TlsFamily::Chrome,
        Impersonate::Chrome123 => TlsFamily::Chrome,
        Impersonate::Chrome124 => TlsFamily::ChromeKyber,
        Impersonate::Chrome126 => TlsFamily::ChromeKyber,
        Impersonate::Chrome127 => TlsFamily::ChromeKyber,
        Impersonate::Chrome128 => TlsFamily::ChromeKyber,
        Impersonate::Chrome129 => TlsFamily::ChromeKyber,
        Impersonate::Chrome130 => TlsFamily::ChromeKyber,
        Impersonate::Chrome131 => TlsFamily::ChromeKyber,
        Impersonate::SafariIos17_2 => TlsFamily::Safari,
        Impersonate::SafariIos17_4_1 => TlsFamily::Safari,
        Impersonate::SafariIos16_5 => TlsFamily::Safari,
        Impersonate::Safari15_3 => TlsFamily::Safari,
        Impersonate::Safari15_5 => TlsFamily::Safari,
        Impersonate::Safari15_6_1 => TlsFamily::Safari,
        Impersonate::Safari16 => TlsFamily::Safari,
        Impersonate::Safari16_5 => TlsFamily::Safari,
        Impersonate::Safari17_0 => TlsFamily::Safari,
        Impersonate::Safari17_2_1 => TlsFamily::Safari,
        Impersonate::Safari17_4_1 => TlsFamily::Safari,
        Impersonate::Safari17_5 => TlsFamily::Safari,
        Impersonate::Safari18 => TlsFamily::Safari,
        Impersonate::SafariIPad18 => TlsFamily::Safari,
        Impersonate::OkHttp3_9 => TlsFamily::OkHttp3,
        Impersonate::OkHttp3_11 => TlsFamily::OkHttp3,
        Impersonate::OkHttp3_13 => TlsFamily::OkHttp3,
        Impersonate::OkHttp3_14 => TlsFamily::OkHttp3,
        Impersonate::OkHttp4_9 => TlsFamily::OkHttp4,
        Impersonate::OkHttp4_10 => TlsFamily::OkHttp4,
        Impersonate::OkHttp5 => TlsFamily::OkHttp4,
        Impersonate::Edge101 => TlsFamily::ChromeLegacy,
        Impersonate::Edge122 => TlsFamily::Chrome,
        Impersonate::Edge127 => TlsFamily::ChromeKyber,
    }
}

/// The TLS handshake family of a profile.
pub fn tls_family_exec(v: Impersonate) -> (r: TlsFamily)
    ensures
        r == tls_family(v),
{
    match v {
        Impersonate::Chrome100 => TlsFamily::ChromeLegacy,
        Impersonate::Chrome101 => TlsFamily::ChromeLegacy,
        Impersonate::Chrome104 => TlsFamily::ChromeLegacy,
        Impersonate::Chrome105 => TlsFamily::ChromeLegacy,
        Impersonate::Chrome106 => TlsFamily::Chrome,
        Impersonate::Chrome107 => TlsFamily::Chrome,
        Impersonate::Chrome108 => TlsFamily::Chrome,
        Impersonate::Chrome109 => TlsFamily::Chrome,
        Impersonate::Chrome114 => TlsFamily::Chrome,
        Impersonate::Chrome116 => TlsFamily::Chrome,
        Impersonate::Chrome117 => TlsFamily::Chrome,
        Impersonate::Chrome118 => TlsFamily::Chrome,
        Impersonate::Chrome119 => TlsFamily::Chrome,
        Impersonate::Chrome120 => TlsFamily::Chrome,
        Impersonate::Chrome123 => TlsFamily::Chrome,
        Impersonate::Chrome124 => TlsFamily::ChromeKyber,
        Impersonate::Chrome126 => TlsFamily::ChromeKyber,
        Impersonate::Chrome127 => TlsFamily::ChromeKyber,
        Impersonate::Chrome128 => TlsFamily::ChromeKyber,
        Impersonate::Chrome129 => TlsFamily::ChromeKyber,
        Impersonate::Chrome130 => TlsFamily::ChromeKyber,
        Impersonate::Chrome131 => TlsFamily::ChromeKyber,
        Impersonate::SafariIos17_2 => TlsFamily::Safari,
        Impersonate::SafariIos17_4_1 => TlsFamily::Safari,
        Impersonate::SafariIos16_5 => TlsFamily::Safari,
        Impersonate::Safari15_3 => TlsFamily::Safari,
        Impersonate::Safari15_5 => TlsFamily::Safari,
        Impersonate::Safari15_6_1 => TlsFamily::Safari,
        Impersonate::Safari16 => TlsFamily::Safari,
        Impersonate::Safari16_5 => TlsFamily::Safari,
        Impersonate::Safari17_0 => TlsFamily::Safari,
        Impersonate::Safari17_2_1 => TlsFamily::Safari,
        Impersonate::Safari17_4_1 => TlsFamily::Safari,
        Impersonate::Safari17_5 => TlsFamily::Safari,
        Impersonate::Safari18 => TlsFamily::Safari,
        Impersonate::SafariIPad18 => TlsFamily::Safari,
        Impersonate::OkHttp3_9 => TlsFamily::OkHttp3,
        Impersonate::OkHttp3_11 => TlsFamily::OkHttp3,
        Impersonate::OkHttp3_13 => TlsFamily::OkHttp3,
        Impersonate::OkHttp3_14 => TlsFamily::OkHttp3,
        Impersonate::OkHttp4_9 => TlsFamily::OkHttp4,
        Impersonate::OkHttp4_10 => TlsFamily::OkHttp4,
        Impersonate::OkHttp5 => TlsFamily::OkHttp4,
        Impersonate::Edge101 => TlsFamily::ChromeLegacy,
        Impersonate::Edge122 => TlsFamily::Chrome,
        Impersonate::Edge127 => TlsFamily::ChromeKyber,
    }
}

/// The HTTP/2 engine family of a profile.
pub open spec fn http2_family(v: Impersonate) -> Http2Family {
    match v {
        Impersonate::Chrome100 => Http2Family::ChromiumLegacy,
        Impersonate::Chrome101 => Http2Family::ChromiumLegacy,
        Impersonate::Chrome104 => Http2Family::ChromiumLegacy,
        Impersonate::Chrome105 => Http2Family::ChromiumLegacy,
        Impersonate::Chrome106 => Http2Family::Chromium,
        Impersonate::Chrome107 => Http2Family::Chromium,
        Impersonate::Chrome108 => Http2Family::Chromium,
        Impersonate::Chrome109 => Http2Family::Chromium,
        Impersonate::Chrome114 => Http2Family::Chromium,
        Impersonate::Chrome116 => Http2Family::Chromium,
        Impersonate::Chrome117 => Http2Family::Chromium,
        Impersonate::Chrome118 => Http2Family::Chromium,
        Impersonate::Chrome119 => Http2Family::Chromium,
        Impersonate::Chrome120 => Http2Family::Chromium,
        Impersonate::Chrome123 => Http2Family::Chromium,
        Impersonate::Chrome124 => Http2Family::Chromium,
        Impersonate::Chrome126 => Http2Family::Chromium,
        Impersonate::Chrome127 => Http2Family::Chromium,
        Impersonate::Chrome128 => Http2Family::Chromium,
        Impersonate::Chrome129 => Http2Family::Chromium,
        Impersonate::Chrome130 => Http2Family::Chromium,
        Impersonate::Chrome131 => Http2Family::Chromium,
        Impersonate::SafariIos17_2 => Http2Family::WebKit,
        Impersonate::SafariIos17_4_1 => Http2Family::WebKit,
        Impersonate::SafariIos16_5 => Http2Family::WebKitLegacy,
        Impersonate::Safari15_3 => Http2Family::WebKitLegacy,
        Impersonate::Safari15_5 => Http2Family::WebKitLegacy,
        Impersonate::Safari15_6_1 => Http2Family::WebKitLegacy,
        Impersonate::Safari16 => Http2Family::WebKitLegacy,
        Impersonate::Safari16_5 => Http2Family::WebKitLegacy,
        Impersonate::Safari17_0 => Http2Family::WebKit,
        Impersonate::Safari17_2_1 => Http2Family::WebKit,
        Impersonate::Safari17_4_1 => Http2Family::WebKit,
        Impersonate::Safari17_5 => Http2Family::WebKit,
        Impersonate::Safari18 => Http2Family::WebKit,
        Impersonate::SafariIPad18 => Http2Family::WebKit,
        Impersonate::OkHttp3_9 => Http2Family::OkHttp,
        Impersonate::OkHttp3_11 => Http2Family::OkHttp,
        Impersonate::OkHttp3_13 => Http2Family::OkHttp,
        Impersonate::OkHttp3_14 => Http2Family::OkHttp,
        Impersonate::OkHttp4_9 => Http2Family::OkHttp,
        Impersonate::OkHttp4_10 => Http2Family::OkHttp,
        Impersonate::OkHttp5 => Http2Family::OkHttp,
        Impersonate::Edge101 => Http2Family::ChromiumLegacy,
        Impersonate::Edge122 => Http2Family::Chromium,
        Impersonate::Edge127 => Http2Family::Chromium,
    }
}

/// The HTTP/2 engine family of a profile.
pub fn http2_family_exec(v: Impersonate) -> (r: Http2Family)
    ensures
        r == http2_family(v),
{
    match v {
        Impersonate::Chrome100 => Http2Family::ChromiumLegacy,
        Impersonate::Chrome101 => Http2Family::ChromiumLegacy,
        Impersonate::Chrome104 => Http2Family::ChromiumLegacy,
        Impersonate::Chrome105 => Http2Family::ChromiumLegacy,
        Impersonate::Chrome106 => Http2Family::Chromium,
        Impersonate::Chrome107 => Http2Family::Chromium,
        Impersonate::Chrome108 => Http2Family::Chromium,
        Impersonate::Chrome109 => Http2Family::Chromium,
        Impersonate::Chrome114 => Http2Family::Chromium,
        Impersonate::Chrome116 => Http2Family::Chromium,
        Impersonate::Chrome117 => Http2Family::Chromium,
        Impersonate::Chrome118 => Http2Family::Chromium,
        Impersonate::Chrome119 => Http2Family::Chromium,
        Impersonate::Chrome120 => Http2Family::Chromium,
        Impersonate::Chrome123 => Http2Family::Chromium,
        Impersonate::Chrome124 => Http2Family::Chromium,
        Impersonate::Chrome126 => Http2Family::Chromium,
        Impersonate::Chrome127 => Http2Family::Chromium,
        Impersonate::Chrome128 => Http2Family::Chromium,
        Impersonate::Chrome129 => Http2Family::Chromium,
        Impersonate::Chrome130 => Http2Family::Chromium,
        Impersonate::Chrome131 => Http2Family::Chromium,
        Impersonate::SafariIos17_2 => Http2Family::WebKit,
        Impersonate::SafariIos17_4_1 => Http2Family::WebKit,
        Impersonate::SafariIos16_5 => Http2Family::WebKitLegacy,
        Impersonate::Safari15_3 => Http2Family::WebKitLegacy,
        Impersonate::Safari15_5 => Http2Family::WebKitLegacy,
        Impersonate::Safari15_6_1 => Http2Family::WebKitLegacy,
        Impersonate::Safari16 => Http2Family::WebKitLegacy,
        Impersonate::Safari16_5 => Http2Family::WebKitLegacy,
        Impersonate::Safari17_0 => Http2Family::WebKit,
        Impersonate::Safari17_2_1 => Http2Family::WebKit,
        Impersonate::Safari17_4_1 => Http2Family::WebKit,
        Impersonate::Safari17_5 => Http2Family::WebKit,
        Impersonate::Safari18 => Http2Family::WebKit,
        Impersonate::SafariIPad18 => Http2Family::WebKit,
        Impersonate::OkHttp3_9 => Http2Family::OkHttp,
        Impersonate::OkHttp3_11 => Http2Family::OkHttp,
        Impersonate::OkHttp3_13 => Http2Family::OkHttp,
        Impersonate::OkHttp3_14 => Http2Family::OkHttp,
        Impersonate::OkHttp4_9 => Http2Family::OkHttp,
        Impersonate::OkHttp4_10 => Http2Family::OkHttp,
        Impersonate::OkHttp5 => Http2Family::OkHttp,
        Impersonate::Edge101 => Http2Family::ChromiumLegacy,
        Impersonate::Edge122 => Http2Family::Chromium,
        Impersonate::Edge127 => Http2Family::Chromium,
    }
}

/// The default-header family of a profile.
pub open spec fn header_family(v: Impersonate) -> HeaderFamily {
    match v {
        Impersonate::Chrome100 => HeaderFamily::Chromium,
        Impersonate::Chrome101 => HeaderFamily::Chromium,
        Impersonate::Chrome104 => HeaderFamily::Chromium,
        Impersonate::Chrome105 => HeaderFamily::Chromium,
        Impersonate::Chrome106 => HeaderFamily::Chromium,
        Impersonate::Chrome107 => HeaderFamily::Chromium,
        Impersonate::Chrome108 => HeaderFamily::Chromium,
        Impersonate::Chrome109 => HeaderFamily::Chromium,
        Impersonate::Chrome114 => HeaderFamily::Chromium,
        Impersonate::Chrome116 => HeaderFamily::Chromium,
        Impersonate::Chrome117 => HeaderFamily::Chromium,
        Impersonate::Chrome118 => HeaderFamily::Chromium,
        Impersonate::Chrome119 => HeaderFamily::Chromium,
        Impersonate::Chrome120 => HeaderFamily::Chromium,
        Impersonate::Chrome123 => HeaderFamily::Chromium,
        Impersonate::Chrome124 => HeaderFamily::Chromium,
        Impersonate::Chrome126 => HeaderFamily::Chromium,
        Impersonate::Chrome127 => HeaderFamily::Chromium,
        Impersonate::Chrome128 => HeaderFamily::Chromium,
        Impersonate::Chrome129 => HeaderFamily::Chromium,
        Impersonate::Chrome130 => HeaderFamily::Chromium,
        Impersonate::Chrome131 => HeaderFamily::Chromium,
        Impersonate::SafariIos17_2 => HeaderFamily::WebKit,
        Impersonate::SafariIos17_4_1 => HeaderFamily::WebKit,
        Impersonate::SafariIos16_5 => HeaderFamily::WebKit,
        Impersonate::Safari15_3 => HeaderFamily::WebKit,
        Impersonate::Safari15_5 => HeaderFamily::WebKit,
        Impersonate::Safari15_6_1 => HeaderFamily::WebKit,
        Impersonate::Safari16 => HeaderFamily::WebKit,
        Impersonate::Safari16_5 => HeaderFamily::WebKit,
        Impersonate::Safari17_0 => HeaderFamily::WebKit,
        Impersonate::Safari17_2_1 => HeaderFamily::WebKit,
        Impersonate::Safari17_4_1 => HeaderFamily::WebKit,
        Impersonate::Safari17_5 => HeaderFamily::WebKit,
        Impersonate::Safari18 => HeaderFamily::WebKit,
        Impersonate::SafariIPad18 => HeaderFamily::WebKit,
        Impersonate::OkHttp3_9 => HeaderFamily::OkHttp,
        Impersonate::OkHttp3_11 => HeaderFamily::OkHttp,
        Impersonate::OkHttp3_13 => HeaderFamily::OkHttp,
        Impersonate::OkHttp3_14 => HeaderFamily::OkHttp,
        Impersonate::OkHttp4_9 => HeaderFamily::OkHttp,
        Impersonate::OkHttp4_10 => HeaderFamily::OkHttp,
        Impersonate::OkHttp5 => HeaderFamily::OkHttp,
        Impersonate::Edge101 => HeaderFamily::Chromium,
        Impersonate::Edge122 => HeaderFamily::Chromium,
        Impersonate::Edge127 => HeaderFamily::Chromium,
    }
}

/// The default-header family of a profile.
pub fn header_family_exec(v: Impersonate) -> (r: HeaderFamily)
    ensures
        r == header_family(v),
{
    match v {
        Impersonate::Chrome100 => HeaderFamily::Chromium,
        Impersonate::Chrome101 => HeaderFamily::Chromium,
        Impersonate::Chrome104 => HeaderFamily::Chromium,
        Impersonate::Chrome105 => HeaderFamily::Chromium,
        Impersonate::Chrome106 => HeaderFamily::Chromium,
        Impersonate::Chrome107 => HeaderFamily::Chromium,
        Impersonate::Chrome108 => HeaderFamily::Chromium,
        Impersonate::Chrome109 => HeaderFamily::Chromium,
        Impersonate::Chrome114 => HeaderFamily::Chromium,
        Impersonate::Chrome116 => HeaderFamily::Chromium,
        Impersonate::Chrome117 => HeaderFamily::Chromium,
        Impersonate::Chrome118 => HeaderFamily::Chromium,
        Impersonate::Chrome119 => HeaderFamily::Chromium,
        Impersonate::Chrome120 => HeaderFamily::Chromium,
        Impersonate::Chrome123 => HeaderFamily::Chromium,
        Impersonate::Chrome124 => HeaderFamily::Chromium,
        Impersonate::Chrome126 => HeaderFamily::Chromium,
        Impersonate::Chrome127 => HeaderFamily::Chromium,
        Impersonate::Chrome128 => HeaderFamily::Chromium,
        Impersonate::Chrome129 => HeaderFamily::Chromium,
        Impersonate::Chrome130 => HeaderFamily::Chromium,
        Impersonate::Chrome131 => HeaderFamily::Chromium,
        Impersonate::SafariIos17_2 => HeaderFamily::WebKit,
        Impersonate::SafariIos17_4_1 => HeaderFamily::WebKit,
        Impersonate::SafariIos16_5 => HeaderFamily::WebKit,
        Impersonate::Safari15_3 => HeaderFamily::WebKit,
        Impersonate::Safari15_5 => HeaderFamily::WebKit,
        Impersonate::Safari15_6_1 => HeaderFamily::WebKit,
        Impersonate::Safari16 => HeaderFamily::WebKit,
        Impersonate::Safari16_5 => HeaderFamily::WebKit,
        Impersonate::Safari17_0 => HeaderFamily::WebKit,
        Impersonate::Safari17_2_1 => HeaderFamily::WebKit,
        Impersonate::Safari17_4_1 => HeaderFamily::WebKit,
        Impersonate::Safari17_5 => HeaderFamily::WebKit,
        Impersonate::Safari18 => HeaderFamily::WebKit,
        Impersonate::SafariIPad18 => HeaderFamily::WebKit,
        Impersonate::OkHttp3_9 => HeaderFamily::OkHttp,
        Impersonate::OkHttp3_11 => HeaderFamily::OkHttp,
        Impersonate::OkHttp3_13 => HeaderFamily::OkHttp,
        Impersonate::OkHttp3_14 => HeaderFamily::OkHttp,
        Impersonate::OkHttp4_9 => HeaderFamily::OkHttp,
        Impersonate::OkHttp4_10 => HeaderFamily::OkHttp,
        Impersonate::OkHttp5 => HeaderFamily::OkHttp,
        Impersonate::Edge101 => HeaderFamily::Chromium,
        Impersonate::Edge122 => HeaderFamily::Chromium,
        Impersonate::Edge127 => HeaderFamily::Chromium,
    }
}
/// The user agent a profile announces.
pub open spec fn user_agent_of(v: Impersonate) -> Seq<char> {
    match v {
        Impersonate::Chrome100 => "Mozilla/5.0 (Windows NT 10.0; Win64; x64) AppleWebKit/537.36 (KHTML, like Gecko) Chrome/100.0.0.0 Safari/537.36"@,
        Impersonate::Chrome101 => "Mozilla/5.0 (Windows NT 10.0; Win64; x64) AppleWebKit/537.36 (KHTML, like Gecko) Chrome/101.0.0.0 Safari/537.36"@,
        Impersonate::Chrome104 => "Mozilla/5.0 (Windows NT 10.0; Win64; x64) AppleWebKit/537.36 (KHTML, like Gecko) Chrome/104.0.0.0 Safari/537.36"@,
        Impersonate::Chrome105 => "Mozilla/5.0 (Windows NT 10.0; Win64; x64) AppleWebKit/537.36 (KHTML, like Gecko) Chrome/105.0.0.0 Safari/537.36"@,
        Impersonate::Chrome106 => "Mozilla/5.0 (Windows NT 10.0; Win64; x64) AppleWebKit/537.36 (KHTML, like Gecko) Chrome/106.0.0.0 Safari/537.36"@,
        Impersonate::Chrome107 => "Mozilla/5.0 (Windows NT 10.0; Win64; x64) AppleWebKit/537.36 (KHTML, like Gecko) Chrome/107.0.0.0 Safari/537.36"@,
        Impersonate::Chrome108 => "Mozilla/5.0 (Windows NT 10.0; Win64; x64) AppleWebKit/537.36 (KHTML, like Gecko) Chrome/108.0.0.0 Safari/537.36"@,
        Impersonate::Chrome109 => "Mozilla/5.0 (Windows NT 10.0; Win64; x64) AppleWebKit/537.36 (KHTML, like Gecko) Chrome/109.0.0.0 Safari/537.36"@,
        Impersonate::Chrome114 => "Mozilla/5.0 (Windows NT 10.0; Win64; x64) AppleWebKit/537.36 (KHTML, like Gecko) Chrome/114.0.0.0 Safari/537.36"@,
        Impersonate::Chrome116 => "Mozilla/5.0 (Windows NT 10.0; Win64; x64) AppleWebKit/537.36 (KHTML, like Gecko) Chrome/116.0.0.0 Safari/537.36"@,
        Impersonate::Chrome117 => "Mozilla/5.0 (Windows NT 10.0; Win64; x64) AppleWebKit/537.36 (KHTML, like Gecko) Chrome/117.0.0.0 Safari/537.36"@,
        Impersonate::Chrome118 => "Mozilla/5.0 (Windows NT 10.0; Win64; x64) AppleWebKit/537.36 (KHTML, like Gecko) Chrome/118.0.0.0 Safari/537.36"@,
        Impersonate::Chrome119 => "Mozilla/5.0 (Windows NT 10.0; Win64; x64) AppleWebKit/537.36 (KHTML, like Gecko) Chrome/119.0.0.0 Safari/537.36"@,
        Impersonate::Chrome120 => "Mozilla/5.0 (Windows NT 10.0; Win64; x64) AppleWebKit/537.36 (KHTML, like Gecko) Chrome/120.0.0.0 Safari/537.36"@,
        Impersonate::Chrome123 => "Mozilla/5.0 (Windows NT 10.0; Win64; x64) AppleWebKit/537.36 (KHTML, like Gecko) Chrome/123.0.0.0 Safari/537.36"@,
        Impersonate::Chrome124 => "Mozilla/5.0 (Windows NT 10.0; Win64; x64) AppleWebKit/537.36 (KHTML, like Gecko) Chrome/124.0.0.0 Safari/537.36"@,
        Impersonate::Chrome126 => "Mozilla/5.0 (Windows NT 10.0; Win64; x64) AppleWebKit/537.36 (KHTML, like Gecko) Chrome/126.0.0.0 Safari/537.36"@,
        Impersonate::Chrome127 => "Mozilla/5.0 (Windows NT 10.0; Win64; x64) AppleWebKit/537.36 (KHTML, like Gecko) Chrome/127.0.0.0 Safari/537.36"@,
        Impersonate::Chrome128 => "Mozilla/5.0 (Windows NT 10.0; Win64; x64) AppleWebKit/537.36 (KHTML, like Gecko) Chrome/128.0.0.0 Safari/537.36"@,
        Impersonate::Chrome129 => "Mozilla/5.0 (Windows NT 10.0; Win64; x64) AppleWebKit/537.36 (KHTML, like Gecko) Chrome/129.0.0.0 Safari/537.36"@,
        Impersonate::Chrome130 => "Mozilla/5.0 (Windows NT 10.0; Win64; x64) AppleWebKit/537.36 (KHTML, like Gecko) Chrome/130.0.0.0 Safari/537.36"@,
        Impersonate::Chrome131 => "Mozilla/5.0 (Windows NT 10.0; Win64; x64) AppleWebKit/537.36 (KHTML, like Gecko) Chrome/131.0.0.0 Safari/537.36"@,
        Impersonate::SafariIos17_2 => "Mozilla/5.0 (iPhone; CPU iPhone OS 17_2 like Mac OS X) AppleWebKit/605.1.15 (KHTML, like Gecko) Version/17.2 Mobile/15E148 Safari/604.1"@,
        Impersonate::SafariIos17_4_1 => "Mozilla/5.0 (iPhone; CPU iPhone OS 17_4_1 like Mac OS X) AppleWebKit/605.1.15 (KHTML, like Gecko) Version/17.4.1 Mobile/15E148 Safari/604.1"@,
        Impersonate::SafariIos16_5 => "Mozilla/5.0 (iPhone; CPU iPhone OS 16_5 like Mac OS X) AppleWebKit/605.1.15 (KHTML, like Gecko) Version/16.5 Mobile/15E148 Safari/604.1"@,
        Impersonate::Safari15_3 => "Mozilla/5.0 (Macintosh; Intel Mac OS X 10_15_7) AppleWebKit/605.1.15 (KHTML, like Gecko) Version/15.3 Safari/605.1.15"@,
        Impersonate::Safari15_5 => "Mozilla/5.0 (Macintosh; Intel Mac OS X 10_15_7) AppleWebKit/605.1.15 (KHTML, like Gecko) Version/15.5 Safari/605.1.15"@,
        Impersonate::Safari15_6_1 => "Mozilla/5.0 (Macintosh; Intel Mac OS X 10_15_7) AppleWebKit/605.1.15 (KHTML, like Gecko) Version/15.6.1 Safari/605.1.15"@,
        Impersonate::Safari16 => "Mozilla/5.0 (Macintosh; Intel Mac OS X 10_15_7) AppleWebKit/605.1.15 (KHTML, like Gecko) Version/16.0 Safari/605.1.15"@,
        Impersonate::Safari16_5 => "Mozilla/5.0 (Macintosh; Intel Mac OS X 10_15_7) AppleWebKit/605.1.15 (KHTML, like Gecko) Version/16.5 Safari/605.1.15"@,
        Impersonate::Safari17_0 => "Mozilla/5.0 (Macintosh; Intel Mac OS X 10_15_7) AppleWebKit/605.1.15 (KHTML, like Gecko) Version/17.0 Safari/605.1.15"@,
        Impersonate::Safari17_2_1 => "Mozilla/5.0 (Macintosh; Intel Mac OS X 10_15_7) AppleWebKit/605.1.15 (KHTML, like Gecko) Version/17.2.1 Safari/605.1.15"@,
        Impersonate::Safari17_4_1 => "Mozilla/5.0 (Macintosh; Intel Mac OS X 10_15_7) AppleWebKit/605.1.15 (KHTML, like Gecko) Version/17.4.1 Safari/605.1.15"@,
        Impersonate::Safari17_5 => "Mozilla/5.0 (Macintosh; Intel Mac OS X 10_15_7) AppleWebKit/605.1.15 (KHTML, like Gecko) Version/17.5 Safari/605.1.15"@,
        Impersonate::Safari18 => "Mozilla/5.0 (Macintosh; Intel Mac OS X 10_15_7) AppleWebKit/605.1.15 (KHTML, like Gecko) Version/18.0 Safari/605.1.15"@,
        Impersonate::SafariIPad18 => "Mozilla/5.0 (iPad; CPU OS 18_0 like Mac OS X) AppleWebKit/605.1.15 (KHTML, like Gecko) Version/18.0 Mobile/15E148 Safari/604.1"@,
        Impersonate::OkHttp3_9 => "okhttp/3.9.1"@,
        Impersonate::OkHttp3_11 => "okhttp/3.11.0"@,
        Impersonate::OkHttp3_13 => "okhttp/3.13.1"@,
        Impersonate::OkHttp3_14 => "okhttp/3.14.9"@,
        Impersonate::OkHttp4_9 => "okhttp/4.9.3"@,
        Impersonate::OkHttp4_10 => "okhttp/4.10.0"@,
        Impersonate::OkHttp5 => "okhttp/5.0.0-alpha2"@,
        Impersonate::Edge101 => "Mozilla/5.0 (Windows NT 10.0; Win64; x64) AppleWebKit/537.36 (KHTML, like Gecko) Chrome/101.0.0.0 Safari/537.36 Edg/101.0.0.0"@,
        Impersonate::Edge122 => "Mozilla/5.0 (Windows NT 10.0; Win64; x64) AppleWebKit/537.36 (KHTML, like Gecko) Chrome/122.0.0.0 Safari/537.36 Edg/122.0.0.0"@,
        Impersonate::Edge127 => "Mozilla/5.0 (Windows NT 10.0; Win64; x64) AppleWebKit/537.36 (KHTML, like Gecko) Chrome/127.0.0.0 Safari/537.36 Edg/127.0.0.0"@,
    }
}

/// The user agent a profile announces.
pub fn user_agent(v: Impersonate) -> (r: &'static str)
    ensures
        r@ == user_agent_of(v),
{
    match v {
        Impersonate::Chrome100 => "Mozilla/5.0 (Windows NT 10.0; Win64; x64) AppleWebKit/537.36 (KHTML, like Gecko) Chrome/100.0.0.0 Safari/537.36",
        Impersonate::Chrome101 => "Mozilla/5.0 (Windows NT 10.0; Win64; x64) AppleWebKit/537.36 (KHTML, like Gecko) Chrome/101.0.0.0 Safari/537.36",
        Impersonate::Chrome104 => "Mozilla/5.0 (Windows NT 10.0; Win64; x64) AppleWebKit/537.36 (KHTML, like Gecko) Chrome/104.0.0.0 Safari/537.36",
        Impersonate::Chrome105 => "Mozilla/5.0 (Windows NT 10.0; Win64; x64) AppleWebKit/537.36 (KHTML, like Gecko) Chrome/105.0.0.0 Safari/537.36",
        Impersonate::Chrome106 => "Mozilla/5.0 (Windows NT 10.0; Win64; x64) AppleWebKit/537.36 (KHTML, like Gecko) Chrome/106.0.0.0 Safari/537.36",
        Impersonate::Chrome107 => "Mozilla/5.0 (Windows NT 10.0; Win64; x64) AppleWebKit/537.36 (KHTML, like Gecko) Chrome/107.0.0.0 Safari/537.36",
        Impersonate::Chrome108 => "Mozilla/5.0 (Windows NT 10.0; Win64; x64) AppleWebKit/537.36 (KHTML, like Gecko) Chrome/108.0.0.0 Safari/537.36",
        Impersonate::Chrome109 => "Mozilla/5.0 (Windows NT 10.0; Win64; x64) AppleWebKit/537.36 (KHTML, like Gecko) Chrome/109.0.0.0 Safari/537.36",
        Impersonate::Chrome114 => "Mozilla/5.0 (Windows NT 10.0; Win64; x64) AppleWebKit/537.36 (KHTML, like Gecko) Chrome/114.0.0.0 Safari/537.36",
        Impersonate::Chrome116 => "Mozilla/5.0 (Windows NT 10.0; Win64; x64) AppleWebKit/537.36 (KHTML, like Gecko) Chrome/116.0.0.0 Safari/537.36",
        Impersonate::Chrome117 => "Mozilla/5.0 (Windows NT 10.0; Win64; x64) AppleWebKit/537.36 (KHTML, like Gecko) Chrome/117.0.0.0 Safari/537.36",
        Impersonate::Chrome118 => "Mozilla/5.0 (Windows NT 10.0; Win64; x64) AppleWebKit/537.36 (KHTML, like Gecko) Chrome/118.0.0.0 Safari/537.36",
        Impersonate::Chrome119 => "Mozilla/5.0 (Windows NT 10.0; Win64; x64) AppleWebKit/537.36 (KHTML, like Gecko) Chrome/119.0.0.0 Safari/537.36",
        Impersonate::Chrome120 => "Mozilla/5.0 (Windows NT 10.0; Win64; x64) AppleWebKit/537.36 (KHTML, like Gecko) Chrome/120.0.0.0 Safari/537.36",
        Impersonate::Chrome123 => "Mozilla/5.0 (Windows NT 10.0; Win64; x64) AppleWebKit/537.36 (KHTML, like Gecko) Chrome/123.0.0.0 Safari/537.36",
        Impersonate::Chrome124 => "Mozilla/5.0 (Windows NT 10.0; Win64; x64) AppleWebKit/537.36 (KHTML, like Gecko) Chrome/124.0.0.0 Safari/537.36",
        Impersonate::Chrome126 => "Mozilla/5.0 (Windows NT 10.0; Win64; x64) AppleWebKit/537.36 (KHTML, like Gecko) Chrome/126.0.0.0 Safari/537.36",
        Impersonate::Chrome127 => "Mozilla/5.0 (Windows NT 10.0; Win64; x64) AppleWebKit/537.36 (KHTML, like Gecko) Chrome/127.0.0.0 Safari/537.36",
        Impersonate::Chrome128 => "Mozilla/5.0 (Windows NT 10.0; Win64; x64) AppleWebKit/537.36 (KHTML, like Gecko) Chrome/128.0.0.0 Safari/537.36",
        Impersonate::Chrome129 => "Mozilla/5.0 (Windows NT 10.0; Win64; x64) AppleWebKit/537.36 (KHTML, like Gecko) Chrome/129.0.0.0 Safari/537.36",
        Impersonate::Chrome130 => "Mozilla/5.0 (Windows NT 10.0; Win64; x64) AppleWebKit/537.36 (KHTML, like Gecko) Chrome/130.0.0.0 Safari/537.36",
        Impersonate::Chrome131 => "Mozilla/5.0 (Windows NT 10.0; Win64; x64) AppleWebKit/537.36 (KHTML, like Gecko) Chrome/131.0.0.0 Safari/537.36",
        Impersonate::SafariIos17_2 => "Mozilla/5.0 (iPhone; CPU iPhone OS 17_2 like Mac OS X) AppleWebKit/605.1.15 (KHTML, like Gecko) Version/17.2 Mobile/15E148 Safari/604.1",
        Impersonate::SafariIos17_4_1 => "Mozilla/5.0 (iPhone; CPU iPhone OS 17_4_1 like Mac OS X) AppleWebKit/605.1.15 (KHTML, like Gecko) Version/17.4.1 Mobile/15E148 Safari/604.1",
        Impersonate::SafariIos16_5 => "Mozilla/5.0 (iPhone; CPU iPhone OS 16_5 like Mac OS X) AppleWebKit/605.1.15 (KHTML, like Gecko) Version/16.5 Mobile/15E148 Safari/604.1",
        Impersonate::Safari15_3 => "Mozilla/5.0 (Macintosh; Intel Mac OS X 10_15_7) AppleWebKit/605.1.15 (KHTML, like Gecko) Version/15.3 Safari/605.1.15",
        Impersonate::Safari15_5 => "Mozilla/5.0 (Macintosh; Intel Mac OS X 10_15_7) AppleWebKit/605.1.15 (KHTML, like Gecko) Version/15.5 Safari/605.1.15",
        Impersonate::Safari15_6_1 => "Mozilla/5.0 (Macintosh; Intel Mac OS X 10_15_7) AppleWebKit/605.1.15 (KHTML, like Gecko) Version/15.6.1 Safari/605.1.15",
        Impersonate::Safari16 => "Mozilla/5.0 (Macintosh; Intel Mac OS X 10_15_7) AppleWebKit/605.1.15 (KHTML, like Gecko) Version/16.0 Safari/605.1.15",
        Impersonate::Safari16_5 => "Mozilla/5.0 (Macintosh; Intel Mac OS X 10_15_7) AppleWebKit/605.1.15 (KHTML, like Gecko) Version/16.5 Safari/605.1.15",
        Impersonate::Safari17_0 => "Mozilla/5.0 (Macintosh; Intel Mac OS X 10_15_7) AppleWebKit/605.1.15 (KHTML, like Gecko) Version/17.0 Safari/605.1.15",
        Impersonate::Safari17_2_1 => "Mozilla/5.0 (Macintosh; Intel Mac OS X 10_15_7) AppleWebKit/605.1.15 (KHTML, like Gecko) Version/17.2.1 Safari/605.1.15",
        Impersonate::Safari17_4_1 => "Mozilla/5.0 (Macintosh; Intel Mac OS X 10_15_7) AppleWebKit/605.1.15 (KHTML, like Gecko) Version/17.4.1 Safari/605.1.15",
        Impersonate::Safari17_5 => "Mozilla/5.0 (Macintosh; Intel Mac OS X 10_15_7) AppleWebKit/605.1.15 (KHTML, like Gecko) Version/17.5 Safari/605.1.15",
        Impersonate::Safari18 => "Mozilla/5.0 (Macintosh; Intel Mac OS X 10_15_7) AppleWebKit/605.1.15 (KHTML, like Gecko) Version/18.0 Safari/605.1.15",
        Impersonate::SafariIPad18 => "Mozilla/5.0 (iPad; CPU OS 18_0 like Mac OS X) AppleWebKit/605.1.15 (KHTML, like Gecko) Version/18.0 Mobile/15E148 Safari/604.1",
        Impersonate::OkHttp3_9 => "okhttp/3.9.1",
        Impersonate::OkHttp3_11 => "okhttp/3.11.0",
        Impersonate::OkHttp3_13 => "okhttp/3.13.1",
        Impersonate::OkHttp3_14 => "okhttp/3.14.9",
        Impersonate::OkHttp4_9 => "okhttp/4.9.3",
        Impersonate::OkHttp4_10 => "okhttp/4.10.0",
        Impersonate::OkHttp5 => "okhttp/5.0.0-alpha2",
        Impersonate::Edge101 => "Mozilla/5.0 (Windows NT 10.0; Win64; x64) AppleWebKit/537.36 (KHTML, like Gecko) Chrome/101.0.0.0 Safari/537.36 Edg/101.0.0.0",
        Impersonate::Edge122 => "Mozilla/5.0 (Windows NT 10.0; Win64; x64) AppleWebKit/537.36 (KHTML, like Gecko) Chrome/122.0.0.0 Safari/537.36 Edg/122.0.0.0",
        Impersonate::Edge127 => "Mozilla/5.0 (Windows NT 10.0; Win64; x64) AppleWebKit/537.36 (KHTML, like Gecko) Chrome/127.0.0.0 Safari/537.36 Edg/127.0.0.0",
    }
}

/// Relies on `Arc::clone`: the result points at the same allocation, so it holds the same value.
#[verifier::external_body]
fn share<T>(a: &Arc<T>) -> (r: Arc<T>)
    ensures
        r == *a,
{
    Arc::clone(a)
}

/// A profile's default headers, shared, and their send order, shared.
pub type SharedHeaders = (Arc<HeaderMap>, Arc<Vec<HeaderName>>);

/// Whether a pair of shared header map and order is the default-header policy of a profile.
pub open spec fn is_policy_of(p: SharedHeaders, v: Impersonate) -> bool {
    &&& (*p.0).view() == header_entries(header_family(v), user_agent_of(v))
    &&& (*p.1)@ == entry_names(header_entries(header_family(v), user_agent_of(v)))
}

/// Everything a client needs to look like the profile it was built for.
#[derive(Debug)]
pub struct ImpersonateSettings {
    /// The TLS handshake settings.
    pub tls: TlsSettings,
    /// The HTTP/2 session settings.
    pub http2: Http2Settings,
    /// Default request headers, when asked for.
    pub headers: Option<Arc<HeaderMap>>,
    /// The order in which headers are sent, when default headers were asked for.
    pub headers_order: Option<Arc<Vec<HeaderName>>>,
}

/// The settings of profile `v`, with its default headers exactly when `with_headers` holds.
pub open spec fn settings_of(s: ImpersonateSettings, v: Impersonate, with_headers: bool) -> bool {
    &&& s.tls.view() == tls_family_model(tls_family(v))
    &&& s.http2.view() == http2_model(http2_family(v))
    &&& with_headers ==> s.headers is Some && s.headers_order is Some && is_policy_of(
        (s.headers.unwrap(), s.headers_order.unwrap()),
        v,
    )
    &&& !with_headers ==> s.headers is None && s.headers_order is None
}

/// Builds the settings of a profile; its default headers, when asked for, are
/// built afresh.
pub fn tls_settings(ver: Impersonate, with_headers: bool) -> (r: ImpersonateSettings)
    ensures
        settings_of(r, ver, with_headers),
{
    let tls = build_family_tls(tls_family_exec(ver));
    let http2 = build_http2(http2_family_exec(ver));
    if with_headers {
        let (map, order) = build_header_policy(header_family_exec(ver), user_agent(ver));
        ImpersonateSettings {
            tls,
            http2,
            headers: Some(Arc::new(map)),
            headers_order: Some(Arc::new(order)),
        }
    } else {
        ImpersonateSettings { tls, http2, headers: None, headers_order: None }
    }
}

/// Builds the settings of the profile named `name`, or reports the name as unknown.
pub fn settings_for_name(name: &str, with_headers: bool) -> (r: Result<ImpersonateSettings, ImpersonateError>)
    ensures
        r.is_err() <==> forall|v: Impersonate| name_of(v) != name@,
        r matches Ok(s) ==> exists|v: Impersonate| name_of(v) == name@ && settings_of(s, v, with_headers),
        r matches Err(e) ==> (e matches ImpersonateError::UnknownIdentifier(t) && t@ == name@),
{
    match Impersonate::parse(name) {
        Ok(v) => Ok(tls_settings(v, with_headers)),
        Err(e) => Err(e),
    }
}

/// Default-header policies, built at most once per profile and shared afterwards.
pub struct HeaderCache {
    slots: Vec<Option<SharedHeaders>>,
}

impl HeaderCache {
    /// The policy cached for `v`, if it was built.
    pub closed spec fn entry(&self, v: Impersonate) -> Option<SharedHeaders> {
        self.slots@[index_of(v) as int]
    }

    /// One slot per profile; each filled slot holds that profile's policy.
    pub closed spec fn well_formed(&self) -> bool {
        &&& self.slots@.len() == PROFILE_COUNT
        &&& forall|v: Impersonate| #[trigger]
            self.entry(v) matches Some(p) ==> is_policy_of(p, v)
    }

    /// A cache with no policy built yet.
    pub fn new() -> (r: HeaderCache)
        ensures
            r.well_formed(),
            forall|v: Impersonate| #[trigger] r.entry(v) is None,
    {
        let mut slots: Vec<Option<SharedHeaders>> = Vec::new();
        let mut i: usize = 0;
        while i < PROFILE_COUNT
            invariant
                i <= PROFILE_COUNT,
                slots@.len() == i,
                forall|j: int| 0 <= j < i ==> #[trigger] slots@[j] is None,
            decreases PROFILE_COUNT - i,
        {
            slots.push(None);
            i = i + 1;
        }
        let r = HeaderCache { slots };
        assert forall|v: Impersonate| #[trigger] r.entry(v) is None by {
            assert(index_of(v) < PROFILE_COUNT);
        }
        r
    }

    /// The policy of `v`: the cached one if it was built before, else a new
    /// one, which is cached. No other profile's slot changes.
    pub fn get_or_build(&mut self, v: Impersonate) -> (r: SharedHeaders)
        requires
            old(self).well_formed(),
        ensures
            final(self).well_formed(),
            is_policy_of(r, v),
            final(self).entry(v) == Some(r),
            old(self).entry(v) matches Some(p) ==> r == p,
            forall|u: Impersonate| u != v ==> #[trigger] final(self).entry(u) == old(self).entry(u),
    {
        let i = v.index();
        match &self.slots[i] {
            Some(p) => {
                return (share(&p.0), share(&p.1));
            },
            None => {},
        }
        let (map, order) = build_header_policy(header_family_exec(v), user_agent(v));
        let m = Arc::new(map);
        let o = Arc::new(order);
        let ghost before = *self;
        self.slots.set(i, Some((share(&m), share(&o))));
        proof {
            assert forall|u: Impersonate| u != v implies #[trigger] self.entry(u) == before.entry(u) by {
                lemma_index_injective(u, v);
            }
            assert forall|u: Impersonate| #[trigger]
                self.entry(u) is Some implies is_policy_of(self.entry(u).unwrap(), u) by {
                if u != v {
                    lemma_index_injective(u, v);
                    assert(before.entry(u) == self.entry(u));
                }
            }
        }
        (m, o)
    }
}

/// Distinct profiles stand at distinct positions of the registry table.
pub proof fn lemma_index_injective(u: Impersonate, v: Impersonate)
    ensures
        u != v ==> index_of(u) != index_of(v),
{
    if index_of(u) == index_of(v) {
        assert(all_profiles()[index_of(u) as int] == u);
        assert(all_profiles()[index_of(v) as int] == v);
    }
}

/// The registry of profiles, which owns the cache of their default headers.
pub struct Registry {
    pub headers: HeaderCache,
}

impl Registry {
    /// A registry whose header cache is empty.
    pub fn new() -> (r: Registry)
        ensures
            r.headers.well_formed(),
            forall|v: Impersonate| #[trigger] r.headers.entry(v) is None,
    {
        Registry { headers: HeaderCache::new() }
    }

    /// Builds the settings of a profile. With `with_headers`, its default
    /// headers come from the cache: built on the first request for the profile,
    /// the same shared instance on every later one.
    pub fn build(&mut self, v: Impersonate, with_headers: bool) -> (r: ImpersonateSettings)
        requires
            old(self).headers.well_formed(),
        ensures
            final(self).headers.well_formed(),
            settings_of(r, v, with_headers),
            with_headers ==> final(self).headers.entry(v) == Some(
                (r.headers.unwrap(), r.headers_order.unwrap()),
            ),
            with_headers ==> (old(self).headers.entry(v) matches Some(p) ==> r.headers == Some(p.0)
                && r.headers_order == Some(p.1)),
            !with_headers ==> final(self).headers == old(self).headers,
            forall|u: Impersonate| u != v ==> #[trigger] final(self).headers.entry(u) == old(
                self,
            ).headers.entry(u),
    {
        let tls = build_family_tls(tls_family_exec(v));
        let http2 = build_http2(http2_family_exec(v));
        if with_headers {
            let (m, o) = self.headers.get_or_build(v);
            ImpersonateSettings { tls, http2, headers: Some(m), headers_order: Some(o) }
        } else {
            ImpersonateSettings { tls, http2, headers: None, headers_order: None }
        }
    }
}

/// Settings built without default headers carry neither a header map nor a header order.
pub proof fn lemma_no_headers_without_request(s: ImpersonateSettings, v: Impersonate)
    requires
        settings_of(s, v, false),
    ensures
        s.headers is None,
        s.headers_order is None,
{
}

/// Settings built with default headers carry a non-empty header map and an
/// order that names exactly its headers, each once, in the profile's order.
pub proof fn lemma_headers_with_request(s: ImpersonateSettings, v: Impersonate)
    requires
        settings_of(s, v, true),
    ensures
        s.headers is Some,
        s.headers_order is Some,
        (*s.headers.unwrap()).view().len() > 0,
        (*s.headers_order.unwrap())@ == entry_names((*s.headers.unwrap()).view()),
        (*s.headers_order.unwrap())@.to_set() == (*s.headers.unwrap()).keys(),
        no_dups((*s.headers_order.unwrap())@),
        (*s.headers.unwrap()).view() == header_entries(header_family(v), user_agent_of(v)),
{
    lemma_header_entries_distinct(header_family(v), user_agent_of(v));
}

/// Every profile offers a non-empty list of key-exchange groups without
/// repeats; the Chromium profiles that name no groups of their own offer
/// X25519, P-256 and P-384, in that order.
pub proof fn lemma_curves(v: Impersonate)
    ensures
        tls_family_model(tls_family(v)).curves.len() > 0,
        no_dups(tls_family_model(tls_family(v)).curves),
        tls_family(v) == TlsFamily::ChromeLegacy || tls_family(v) == TlsFamily::Chrome
            ==> tls_family_model(tls_family(v)).curves == seq![
            Curve::X25519,
            Curve::Secp256r1,
            Curve::Secp384r1,
        ],
{
    lemma_tls_family_acceptable(tls_family(v));
}

/// Every profile's TLS settings can configure a TLS engine, so building them never fails.
pub proof fn lemma_tls_acceptable(v: Impersonate)
    ensures
        acceptable(tls_family_model(tls_family(v))),
{
    lemma_tls_family_acceptable(tls_family(v));
}

/// Every profile sends each SETTINGS parameter at most once, and each of the
/// four pseudo-headers exactly once.
pub proof fn lemma_http2(v: Impersonate)
    ensures
        http2_well_formed(http2_model(http2_family(v))),
{
    lemma_http2_model_well_formed(http2_family(v));
}

} // verus!
