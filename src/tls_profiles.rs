use vstd::prelude::*;
use crate::tls::{
    acceptable, build_tls, default_alpn, default_curves, default_sigalgs, okhttp_settings, CertCompression,
    Cipher, Curve, OkHttpTlsSettings, SigAlg, TlsModel, TlsProfile, TlsSettings, TlsVersion,
};

verus! {

/// The TLS handshake families whose settings differ.
#[derive(Clone, Copy, Debug, PartialEq, Eq, Structural)]
pub enum TlsFamily {
    /// Chromium with extensions in a fixed order.
    ChromeLegacy,
    /// Chromium with extensions shuffled on each handshake.
    Chrome,
    /// Chromium offering the post-quantum hybrid group first.
    ChromeKyber,
    Safari,
    OkHttp3,
    OkHttp4,
}

/// The cipher suites Chromium offers, in its order.
pub open spec fn chrome_ciphers() -> Seq<Cipher> {
    seq![
        Cipher::Aes128GcmSha256,
        Cipher::Aes256GcmSha384,
        Cipher::Chacha20Poly1305Sha256,
        Cipher::EcdheEcdsaAes128GcmSha256,
        Cipher::EcdheRsaAes128GcmSha256,
        Cipher::EcdheEcdsaAes256GcmSha384,
        Cipher::EcdheRsaAes256GcmSha384,
        Cipher::EcdheEcdsaChacha20Poly1305Sha256,
        Cipher::EcdheRsaChacha20Poly1305Sha256,
        Cipher::EcdheRsaAes128CbcSha,
        Cipher::EcdheRsaAes256CbcSha,
        Cipher::RsaAes128GcmSha256,
        Cipher::RsaAes256GcmSha384,
        Cipher::RsaAes128CbcSha,
        Cipher::RsaAes256CbcSha,
    ]
}

/// The cipher suites Chromium offers, in its order.
pub fn chrome_ciphers_list() -> (r: Vec<Cipher>)
    ensures
        r@ == chrome_ciphers(),
{
    let r = vec![
        Cipher::Aes128GcmSha256,
        Cipher::Aes256GcmSha384,
        Cipher::Chacha20Poly1305Sha256,
        Cipher::EcdheEcdsaAes128GcmSha256,
        Cipher::EcdheRsaAes128GcmSha256,
        Cipher::EcdheEcdsaAes256GcmSha384,
        Cipher::EcdheRsaAes256GcmSha384,
        Cipher::EcdheEcdsaChacha20Poly1305Sha256,
        Cipher::EcdheRsaChacha20Poly1305Sha256,
        Cipher::EcdheRsaAes128CbcSha,
        Cipher::EcdheRsaAes256CbcSha,
        Cipher::RsaAes128GcmSha256,
        Cipher::RsaAes256GcmSha384,
        Cipher::RsaAes128CbcSha,
        Cipher::RsaAes256CbcSha,
    ];
    assert(r@ =~= chrome_ciphers());
    r
}

/// The signature algorithms Chromium offers.
pub open spec fn chrome_sigalgs() -> Seq<SigAlg> {
    seq![
        SigAlg::EcdsaSecp256r1Sha256,
        SigAlg::RsaPssRsaeSha256,
        SigAlg::RsaPkcs1Sha256,
        SigAlg::EcdsaSecp384r1Sha384,
        SigAlg::RsaPssRsaeSha384,
        SigAlg::RsaPkcs1Sha384,
        SigAlg::RsaPssRsaeSha512,
        SigAlg::RsaPkcs1Sha512,
    ]
}

/// The signature algorithms Chromium offers.
pub fn chrome_sigalgs_list() -> (r: Vec<SigAlg>)
    ensures
        r@ == chrome_sigalgs(),
{
    let r = vec![
        SigAlg::EcdsaSecp256r1Sha256,
        SigAlg::RsaPssRsaeSha256,
        SigAlg::RsaPkcs1Sha256,
        SigAlg::EcdsaSecp384r1Sha384,
        SigAlg::RsaPssRsaeSha384,
        SigAlg::RsaPkcs1Sha384,
        SigAlg::RsaPssRsaeSha512,
        SigAlg::RsaPkcs1Sha512,
    ];
    assert(r@ =~= chrome_sigalgs());
    r
}

/// The cipher suites Safari offers, in its order.
pub open spec fn safari_ciphers() -> Seq<Cipher> {
    seq![
        Cipher::Aes128GcmSha256,
        Cipher::Aes256GcmSha384,
        Cipher::Chacha20Poly1305Sha256,
        Cipher::EcdheEcdsaAes256GcmSha384,
        Cipher::EcdheEcdsaAes128GcmSha256,
        Cipher::EcdheEcdsaChacha20Poly1305Sha256,
        Cipher::EcdheRsaAes256GcmSha384,
        Cipher::EcdheRsaAes128GcmSha256,
        Cipher::EcdheRsaChacha20Poly1305Sha256,
        Cipher::EcdheEcdsaAes256CbcSha,
        Cipher::EcdheEcdsaAes128CbcSha,
        Cipher::EcdheRsaAes256CbcSha,
        Cipher::EcdheRsaAes128CbcSha,
        Cipher::RsaAes256GcmSha384,
        Cipher::RsaAes128GcmSha256,
        Cipher::RsaAes256CbcSha,
        Cipher::RsaAes128CbcSha,
        Cipher::EcdheEcdsa3desEdeCbcSha,
        Cipher::EcdheRsa3desEdeCbcSha,
        Cipher::Rsa3desEdeCbcSha,
    ]
}

/// The cipher suites Safari offers, in its order.
pub fn safari_ciphers_list() -> (r: Vec<Cipher>)
    ensures
        r@ == safari_ciphers(),
{
    let r = vec![
        Cipher::Aes128GcmSha256,
        Cipher::Aes256GcmSha384,
        Cipher::Chacha20Poly1305Sha256,
        Cipher::EcdheEcdsaAes256GcmSha384,
        Cipher::EcdheEcdsaAes128GcmSha256,
        Cipher::EcdheEcdsaChacha20Poly1305Sha256,
        Cipher::EcdheRsaAes256GcmSha384,
        Cipher::EcdheRsaAes128GcmSha256,
        Cipher::EcdheRsaChacha20Poly1305Sha256,
        Cipher::EcdheEcdsaAes256CbcSha,
        Cipher::EcdheEcdsaAes128CbcSha,
        Cipher::EcdheRsaAes256CbcSha,
        Cipher::EcdheRsaAes128CbcSha,
        Cipher::RsaAes256GcmSha384,
        Cipher::RsaAes128GcmSha256,
        Cipher::RsaAes256CbcSha,
        Cipher::RsaAes128CbcSha,
        Cipher::EcdheEcdsa3desEdeCbcSha,
        Cipher::EcdheRsa3desEdeCbcSha,
        Cipher::Rsa3desEdeCbcSha,
    ];
    assert(r@ =~= safari_ciphers());
    r
}

/// The signature algorithms Safari offers.
pub open spec fn safari_sigalgs() -> Seq<SigAlg> {
    seq![
        SigAlg::EcdsaSecp256r1Sha256,
        SigAlg::RsaPssRsaeSha256,
        SigAlg::RsaPkcs1Sha256,
        SigAlg::EcdsaSecp384r1Sha384,
        SigAlg::EcdsaSha1,
        SigAlg::RsaPssRsaeSha384,
        SigAlg::RsaPkcs1Sha384,
        SigAlg::RsaPssRsaeSha512,
        SigAlg::RsaPkcs1Sha512,
        SigAlg::RsaPkcs1Sha1,
    ]
}

/// The signature algorithms Safari offers.
pub fn safari_sigalgs_list() -> (r: Vec<SigAlg>)
    ensures
        r@ == safari_sigalgs(),
{
    let r = vec![
        SigAlg::EcdsaSecp256r1Sha256,
        SigAlg::RsaPssRsaeSha256,
        SigAlg::RsaPkcs1Sha256,
        SigAlg::EcdsaSecp384r1Sha384,
        SigAlg::EcdsaSha1,
        SigAlg::RsaPssRsaeSha384,
        SigAlg::RsaPkcs1Sha384,
        SigAlg::RsaPssRsaeSha512,
        SigAlg::RsaPkcs1Sha512,
        SigAlg::RsaPkcs1Sha1,
    ];
    assert(r@ =~= safari_sigalgs());
    r
}

/// The key-exchange groups Safari offers.
pub open spec fn safari_curves() -> Seq<Curve> {
    seq![
        Curve::X25519,
        Curve::Secp256r1,
        Curve::Secp384r1,
        Curve::Secp521r1,
    ]
}

/// The key-exchange groups Safari offers.
pub fn safari_curves_list() -> (r: Vec<Curve>)
    ensures
        r@ == safari_curves(),
{
    let r = vec![
        Curve::X25519,
        Curve::Secp256r1,
        Curve::Secp384r1,
        Curve::Secp521r1,
    ];
    assert(r@ =~= safari_curves());
    r
}

/// The key-exchange groups of Chromium with the post-quantum hybrid first.
pub open spec fn kyber_curves() -> Seq<Curve> {
    seq![
        Curve::X25519Kyber768Draft00,
        Curve::X25519,
        Curve::Secp256r1,
        Curve::Secp384r1,
    ]
}

/// The key-exchange groups of Chromium with the post-quantum hybrid first.
pub fn kyber_curves_list() -> (r: Vec<Curve>)
    ensures
        r@ == kyber_curves(),
{
    let r = vec![
        Curve::X25519Kyber768Draft00,
        Curve::X25519,
        Curve::Secp256r1,
        Curve::Secp384r1,
    ];
    assert(r@ =~= kyber_curves());
    r
}

/// The cipher suites OkHttp 3 offers, in its order.
pub open spec fn okhttp3_ciphers() -> Seq<Cipher> {
    seq![
        Cipher::Aes128GcmSha256,
        Cipher::Aes256GcmSha384,
        Cipher::Chacha20Poly1305Sha256,
        Cipher::EcdheEcdsaAes128GcmSha256,
        Cipher::EcdheRsaAes128GcmSha256,
        Cipher::EcdheEcdsaAes256GcmSha384,
        Cipher::EcdheRsaAes256GcmSha384,
        Cipher::EcdheEcdsaChacha20Poly1305Sha256,
        Cipher::EcdheRsaChacha20Poly1305Sha256,
        Cipher::EcdheEcdsaAes128CbcSha,
        Cipher::EcdheEcdsaAes256CbcSha,
        Cipher::EcdheRsaAes128CbcSha,
        Cipher::EcdheRsaAes256CbcSha,
        Cipher::RsaAes128GcmSha256,
        Cipher::RsaAes256GcmSha384,
        Cipher::RsaAes128CbcSha,
        Cipher::RsaAes256CbcSha,
        Cipher::Rsa3desEdeCbcSha,
    ]
}

/// The cipher suites OkHttp 3 offers, in its order.
pub fn okhttp3_ciphers_list() -> (r: Vec<Cipher>)
    ensures
        r@ == okhttp3_ciphers(),
{
    let r = vec![
        Cipher::Aes128GcmSha256,
        Cipher::Aes256GcmSha384,
        Cipher::Chacha20Poly1305Sha256,
        Cipher::EcdheEcdsaAes128GcmSha256,
        Cipher::EcdheRsaAes128GcmSha256,
        Cipher::EcdheEcdsaAes256GcmSha384,
        Cipher::EcdheRsaAes256GcmSha384,
        Cipher::EcdheEcdsaChacha20Poly1305Sha256,
        Cipher::EcdheRsaChacha20Poly1305Sha256,
        Cipher::EcdheEcdsaAes128CbcSha,
        Cipher::EcdheEcdsaAes256CbcSha,
        Cipher::EcdheRsaAes128CbcSha,
        Cipher::EcdheRsaAes256CbcSha,
        Cipher::RsaAes128GcmSha256,
        Cipher::RsaAes256GcmSha384,
        Cipher::RsaAes128CbcSha,
        Cipher::RsaAes256CbcSha,
        Cipher::Rsa3desEdeCbcSha,
    ];
    assert(r@ =~= okhttp3_ciphers());
    r
}

/// The cipher suites OkHttp 4 and 5 offer, in its order.
pub open spec fn okhttp4_ciphers() -> Seq<Cipher> {
    seq![
        Cipher::Aes128GcmSha256,
        Cipher::Aes256GcmSha384,
        Cipher::Chacha20Poly1305Sha256,
        Cipher::EcdheEcdsaAes128GcmSha256,
        Cipher::EcdheRsaAes128GcmSha256,
        Cipher::EcdheEcdsaAes256GcmSha384,
        Cipher::EcdheRsaAes256GcmSha384,
        Cipher::EcdheEcdsaChacha20Poly1305Sha256,
        Cipher::EcdheRsaChacha20Poly1305Sha256,
        Cipher::EcdheRsaAes128CbcSha,
        Cipher::EcdheRsaAes256CbcSha,
        Cipher::RsaAes128GcmSha256,
        Cipher::RsaAes256GcmSha384,
        Cipher::RsaAes128CbcSha,
        Cipher::RsaAes256CbcSha,
        Cipher::Rsa3desEdeCbcSha,
    ]
}

/// The cipher suites OkHttp 4 and 5 offer, in its order.
pub fn okhttp4_ciphers_list() -> (r: Vec<Cipher>)
    ensures
        r@ == okhttp4_ciphers(),
{
    let r = vec![
        Cipher::Aes128GcmSha256,
        Cipher::Aes256GcmSha384,
        Cipher::Chacha20Poly1305Sha256,
        Cipher::EcdheEcdsaAes128GcmSha256,
        Cipher::EcdheRsaAes128GcmSha256,
        Cipher::EcdheEcdsaAes256GcmSha384,
        Cipher::EcdheRsaAes256GcmSha384,
        Cipher::EcdheEcdsaChacha20Poly1305Sha256,
        Cipher::EcdheRsaChacha20Poly1305Sha256,
        Cipher::EcdheRsaAes128CbcSha,
        Cipher::EcdheRsaAes256CbcSha,
        Cipher::RsaAes128GcmSha256,
        Cipher::RsaAes256GcmSha384,
        Cipher::RsaAes128CbcSha,
        Cipher::RsaAes256CbcSha,
        Cipher::Rsa3desEdeCbcSha,
    ];
    assert(r@ =~= okhttp4_ciphers());
    r
}
/// The Chromium settings; `permute` shuffles extensions, `kyber` offers the hybrid group first.
pub open spec fn chrome_model(permute: bool, kyber: bool) -> TlsModel {
    TlsModel {
        ciphers: chrome_ciphers(),
        curves: if kyber {
            kyber_curves()
        } else {
            default_curves()
        },
        sigalgs: chrome_sigalgs(),
        alpn: default_alpn(),
        cert_compression: seq![CertCompression::Brotli],
        permute_extensions: permute,
        grease: true,
        ocsp_stapling: true,
        min_version: TlsVersion::Tls1_2,
        max_version: TlsVersion::Tls1_3,
    }
}

/// The TLS settings of each handshake family.
pub open spec fn tls_family_model(f: TlsFamily) -> TlsModel {
    match f {
        TlsFamily::ChromeLegacy => chrome_model(false, false),
        TlsFamily::Chrome => chrome_model(true, false),
        TlsFamily::ChromeKyber => chrome_model(true, true),
        TlsFamily::Safari => TlsModel {
            ciphers: safari_ciphers(),
            curves: safari_curves(),
            sigalgs: safari_sigalgs(),
            alpn: default_alpn(),
            cert_compression: seq![CertCompression::Zlib],
            permute_extensions: false,
            grease: true,
            ocsp_stapling: true,
            min_version: TlsVersion::Tls1_0,
            max_version: TlsVersion::Tls1_3,
        },
        TlsFamily::OkHttp3 => okhttp_settings(okhttp3_ciphers(), default_curves(), default_sigalgs()),
        TlsFamily::OkHttp4 => okhttp_settings(okhttp4_ciphers(), default_curves(), default_sigalgs()),
    }
}

/// Every handshake family's settings can configure a TLS engine.
pub proof fn lemma_tls_family_acceptable(f: TlsFamily)
    ensures
        acceptable(tls_family_model(f)),
{
}

/// Builds the TLS settings of a handshake family.
pub fn build_family_tls(f: TlsFamily) -> (r: TlsSettings)
    ensures
        r.view() == tls_family_model(f),
        acceptable(r.view()),
{
    proof {
        lemma_tls_family_acceptable(f);
    }
    let res = match f {
        TlsFamily::ChromeLegacy | TlsFamily::Chrome | TlsFamily::ChromeKyber => {
            let kyber = f == TlsFamily::ChromeKyber;
            let compression = vec![CertCompression::Brotli];
            assert(compression@ =~= seq![CertCompression::Brotli]);
            build_tls(
                TlsProfile {
                    ciphers: chrome_ciphers_list(),
                    curves: if kyber {
                        Some(kyber_curves_list())
                    } else {
                        None
                    },
                    sigalgs: Some(chrome_sigalgs_list()),
                    alpn: None,
                    cert_compression: compression,
                    permute_extensions: f != TlsFamily::ChromeLegacy,
                    grease: true,
                    ocsp_stapling: true,
                    min_version: None,
                    max_version: None,
                },
            )
        },
        TlsFamily::Safari => {
            let compression = vec![CertCompression::Zlib];
            assert(compression@ =~= seq![CertCompression::Zlib]);
            build_tls(
            TlsProfile {
                ciphers: safari_ciphers_list(),
                curves: Some(safari_curves_list()),
                sigalgs: Some(safari_sigalgs_list()),
                alpn: None,
                cert_compression: compression,
                permute_extensions: false,
                grease: true,
                ocsp_stapling: true,
                min_version: Some(TlsVersion::Tls1_0),
                max_version: None,
            },
        )
        },
        TlsFamily::OkHttp3 => OkHttpTlsSettings {
            curves: None,
            sigalgs_list: None,
            cipher_list: okhttp3_ciphers_list(),
        }.try_into(),
        TlsFamily::OkHttp4 => OkHttpTlsSettings {
            curves: None,
            sigalgs_list: None,
            cipher_list: okhttp4_ciphers_list(),
        }.try_into(),
    };
    res.unwrap()
}

} // verus!
