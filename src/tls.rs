use vstd::prelude::*;
use crate::identifier::ImpersonateError;
use crate::text::{join, join_spec};

verus! {

/// A TLS cipher suite.
#[derive(Clone, Copy, Debug, PartialEq, Eq, Structural)]
pub enum Cipher {
    Aes128GcmSha256,
    Aes256GcmSha384,
    Chacha20Poly1305Sha256,
    EcdheEcdsaAes128GcmSha256,
    EcdheRsaAes128GcmSha256,
    EcdheEcdsaAes256GcmSha384,
    EcdheRsaAes256GcmSha384,
    EcdheEcdsaChacha20Poly1305Sha256,
    EcdheRsaChacha20Poly1305Sha256,
    EcdheEcdsaAes128CbcSha,
    EcdheEcdsaAes256CbcSha,
    EcdheRsaAes128CbcSha,
    EcdheRsaAes256CbcSha,
    RsaAes128GcmSha256,
    RsaAes256GcmSha384,
    RsaAes128CbcSha,
    RsaAes256CbcSha,
    EcdheEcdsa3desEdeCbcSha,
    EcdheRsa3desEdeCbcSha,
    Rsa3desEdeCbcSha,
}

/// The cipher suite's name as the TLS engine spells it.
pub open spec fn cipher_name(x: Cipher) -> Seq<char> {
    match x {
        Cipher::Aes128GcmSha256 => "TLS_AES_128_GCM_SHA256"@,
        Cipher::Aes256GcmSha384 => "TLS_AES_256_GCM_SHA384"@,
        Cipher::Chacha20Poly1305Sha256 => "TLS_CHACHA20_POLY1305_SHA256"@,
        Cipher::EcdheEcdsaAes128GcmSha256 => "TLS_ECDHE_ECDSA_WITH_AES_128_GCM_SHA256"@,
        Cipher::EcdheRsaAes128GcmSha256 => "TLS_ECDHE_RSA_WITH_AES_128_GCM_SHA256"@,
        Cipher::EcdheEcdsaAes256GcmSha384 => "TLS_ECDHE_ECDSA_WITH_AES_256_GCM_SHA384"@,
        Cipher::EcdheRsaAes256GcmSha384 => "TLS_ECDHE_RSA_WITH_AES_256_GCM_SHA384"@,
        Cipher::EcdheEcdsaChacha20Poly1305Sha256 => "TLS_ECDHE_ECDSA_WITH_CHACHA20_POLY1305_SHA256"@,
        Cipher::EcdheRsaChacha20Poly1305Sha256 => "TLS_ECDHE_RSA_WITH_CHACHA20_POLY1305_SHA256"@,
        Cipher::EcdheEcdsaAes128CbcSha => "TLS_ECDHE_ECDSA_WITH_AES_128_CBC_SHA"@,
        Cipher::EcdheEcdsaAes256CbcSha => "TLS_ECDHE_ECDSA_WITH_AES_256_CBC_SHA"@,
        Cipher::EcdheRsaAes128CbcSha => "TLS_ECDHE_RSA_WITH_AES_128_CBC_SHA"@,
        Cipher::EcdheRsaAes256CbcSha => "TLS_ECDHE_RSA_WITH_AES_256_CBC_SHA"@,
        Cipher::RsaAes128GcmSha256 => "TLS_RSA_WITH_AES_128_GCM_SHA256"@,
        Cipher::RsaAes256GcmSha384 => "TLS_RSA_WITH_AES_256_GCM_SHA384"@,
        Cipher::RsaAes128CbcSha => "TLS_RSA_WITH_AES_128_CBC_SHA"@,
        Cipher::RsaAes256CbcSha => "TLS_RSA_WITH_AES_256_CBC_SHA"@,
        Cipher::EcdheEcdsa3desEdeCbcSha => "TLS_ECDHE_ECDSA_WITH_3DES_EDE_CBC_SHA"@,
        Cipher::EcdheRsa3desEdeCbcSha => "TLS_ECDHE_RSA_WITH_3DES_EDE_CBC_SHA"@,
        Cipher::Rsa3desEdeCbcSha => "SSL_RSA_WITH_3DES_EDE_CBC_SHA"@,
    }
}

impl Cipher {
    /// The cipher suite's name as the TLS engine spells it.
    pub fn name(&self) -> (r: &'static str)
        ensures
            r@ == cipher_name(*self),
    {
        match self {
            Cipher::Aes128GcmSha256 => "TLS_AES_128_GCM_SHA256",
            Cipher::Aes256GcmSha384 => "TLS_AES_256_GCM_SHA384",
            Cipher::Chacha20Poly1305Sha256 => "TLS_CHACHA20_POLY1305_SHA256",
            Cipher::EcdheEcdsaAes128GcmSha256 => "TLS_ECDHE_ECDSA_WITH_AES_128_GCM_SHA256",
            Cipher::EcdheRsaAes128GcmSha256 => "TLS_ECDHE_RSA_WITH_AES_128_GCM_SHA256",
            Cipher::EcdheEcdsaAes256GcmSha384 => "TLS_ECDHE_ECDSA_WITH_AES_256_GCM_SHA384",
            Cipher::EcdheRsaAes256GcmSha384 => "TLS_ECDHE_RSA_WITH_AES_256_GCM_SHA384",
            Cipher::EcdheEcdsaChacha20Poly1305Sha256 => "TLS_ECDHE_ECDSA_WITH_CHACHA20_POLY1305_SHA256",
            Cipher::EcdheRsaChacha20Poly1305Sha256 => "TLS_ECDHE_RSA_WITH_CHACHA20_POLY1305_SHA256",
            Cipher::EcdheEcdsaAes128CbcSha => "TLS_ECDHE_ECDSA_WITH_AES_128_CBC_SHA",
            Cipher::EcdheEcdsaAes256CbcSha => "TLS_ECDHE_ECDSA_WITH_AES_256_CBC_SHA",
            Cipher::EcdheRsaAes128CbcSha => "TLS_ECDHE_RSA_WITH_AES_128_CBC_SHA",
            Cipher::EcdheRsaAes256CbcSha => "TLS_ECDHE_RSA_WITH_AES_256_CBC_SHA",
            Cipher::RsaAes128GcmSha256 => "TLS_RSA_WITH_AES_128_GCM_SHA256",
            Cipher::RsaAes256GcmSha384 => "TLS_RSA_WITH_AES_256_GCM_SHA384",
            Cipher::RsaAes128CbcSha => "TLS_RSA_WITH_AES_128_CBC_SHA",
            Cipher::RsaAes256CbcSha => "TLS_RSA_WITH_AES_256_CBC_SHA",
            Cipher::EcdheEcdsa3desEdeCbcSha => "TLS_ECDHE_ECDSA_WITH_3DES_EDE_CBC_SHA",
            Cipher::EcdheRsa3desEdeCbcSha => "TLS_ECDHE_RSA_WITH_3DES_EDE_CBC_SHA",
            Cipher::Rsa3desEdeCbcSha => "SSL_RSA_WITH_3DES_EDE_CBC_SHA",
        }
    }
}

/// A key-exchange group.
#[derive(Clone, Copy, Debug, PartialEq, Eq, Structural)]
pub enum Curve {
    X25519,
    Secp256r1,
    Secp384r1,
    Secp521r1,
    X25519Kyber768Draft00,
}

/// The group's name as the TLS engine spells it.
pub open spec fn curve_name(x: Curve) -> Seq<char> {
    match x {
        Curve::X25519 => "X25519"@,
        Curve::Secp256r1 => "P-256"@,
        Curve::Secp384r1 => "P-384"@,
        Curve::Secp521r1 => "P-521"@,
        Curve::X25519Kyber768Draft00 => "X25519Kyber768Draft00"@,
    }
}

impl Curve {
    /// The group's name as the TLS engine spells it.
    pub fn name(&self) -> (r: &'static str)
        ensures
            r@ == curve_name(*self),
    {
        match self {
            Curve::X25519 => "X25519",
            Curve::Secp256r1 => "P-256",
            Curve::Secp384r1 => "P-384",
            Curve::Secp521r1 => "P-521",
            Curve::X25519Kyber768Draft00 => "X25519Kyber768Draft00",
        }
    }
}

/// A signature algorithm offered in the handshake.
#[derive(Clone, Copy, Debug, PartialEq, Eq, Structural)]
pub enum SigAlg {
    EcdsaSecp256r1Sha256,
    RsaPssRsaeSha256,
    RsaPkcs1Sha256,
    EcdsaSecp384r1Sha384,
    RsaPssRsaeSha384,
    RsaPkcs1Sha384,
    RsaPssRsaeSha512,
    RsaPkcs1Sha512,
    RsaPkcs1Sha1,
    EcdsaSecp521r1Sha512,
    EcdsaSha1,
}

/// The algorithm's name as the TLS engine spells it.
pub open spec fn sigalg_name(x: SigAlg) -> Seq<char> {
    match x {
        SigAlg::EcdsaSecp256r1Sha256 => "ecdsa_secp256r1_sha256"@,
        SigAlg::RsaPssRsaeSha256 => "rsa_pss_rsae_sha256"@,
        SigAlg::RsaPkcs1Sha256 => "rsa_pkcs1_sha256"@,
        SigAlg::EcdsaSecp384r1Sha384 => "ecdsa_secp384r1_sha384"@,
        SigAlg::RsaPssRsaeSha384 => "rsa_pss_rsae_sha384"@,
        SigAlg::RsaPkcs1Sha384 => "rsa_pkcs1_sha384"@,
        SigAlg::RsaPssRsaeSha512 => "rsa_pss_rsae_sha512"@,
        SigAlg::RsaPkcs1Sha512 => "rsa_pkcs1_sha512"@,
        SigAlg::RsaPkcs1Sha1 => "rsa_pkcs1_sha1"@,
        SigAlg::EcdsaSecp521r1Sha512 => "ecdsa_secp521r1_sha512"@,
        SigAlg::EcdsaSha1 => "ecdsa_sha1"@,
    }
}

impl SigAlg {
    /// The algorithm's name as the TLS engine spells it.
    pub fn name(&self) -> (r: &'static str)
        ensures
            r@ == sigalg_name(*self),
    {
        match self {
            SigAlg::EcdsaSecp256r1Sha256 => "ecdsa_secp256r1_sha256",
            SigAlg::RsaPssRsaeSha256 => "rsa_pss_rsae_sha256",
            SigAlg::RsaPkcs1Sha256 => "rsa_pkcs1_sha256",
            SigAlg::EcdsaSecp384r1Sha384 => "ecdsa_secp384r1_sha384",
            SigAlg::RsaPssRsaeSha384 => "rsa_pss_rsae_sha384",
            SigAlg::RsaPkcs1Sha384 => "rsa_pkcs1_sha384",
            SigAlg::RsaPssRsaeSha512 => "rsa_pss_rsae_sha512",
            SigAlg::RsaPkcs1Sha512 => "rsa_pkcs1_sha512",
            SigAlg::RsaPkcs1Sha1 => "rsa_pkcs1_sha1",
            SigAlg::EcdsaSecp521r1Sha512 => "ecdsa_secp521r1_sha512",
            SigAlg::EcdsaSha1 => "ecdsa_sha1",
        }
    }
}

/// An application protocol offered through ALPN.
#[derive(Clone, Copy, Debug, PartialEq, Eq, Structural)]
pub enum Alpn {
    Http2,
    Http1_1,
}

/// The protocol's ALPN identifier.
pub open spec fn alpn_name(x: Alpn) -> Seq<char> {
    match x {
        Alpn::Http2 => "h2"@,
        Alpn::Http1_1 => "http/1.1"@,
    }
}

impl Alpn {
    /// The protocol's ALPN identifier.
    pub fn name(&self) -> (r: &'static str)
        ensures
            r@ == alpn_name(*self),
    {
        match self {
            Alpn::Http2 => "h2",
            Alpn::Http1_1 => "http/1.1",
        }
    }
}

/// A certificate compression algorithm.
#[derive(Clone, Copy, Debug, PartialEq, Eq, Structural)]
pub enum CertCompression {
    Brotli,
    Zlib,
}

/// The algorithm's name.
pub open spec fn cert_compression_name(x: CertCompression) -> Seq<char> {
    match x {
        CertCompression::Brotli => "brotli"@,
        CertCompression::Zlib => "zlib"@,
    }
}

impl CertCompression {
    /// The algorithm's name.
    pub fn name(&self) -> (r: &'static str)
        ensures
            r@ == cert_compression_name(*self),
    {
        match self {
            CertCompression::Brotli => "brotli",
            CertCompression::Zlib => "zlib",
        }
    }
}

/// Whether no two entries of the sequence are equal.
pub open spec fn no_dups<T>(s: Seq<T>) -> bool {
    forall|a: int, b: int| 0 <= a < b < s.len() ==> s[a] != s[b]
}

/// Whether no two entries of the list are equal.
pub fn distinct_ciphers(v: &Vec<Cipher>) -> (r: bool)
    ensures
        r == no_dups(v@),
{
    let n: usize = v.len();
    let mut i: usize = 0;
    while i < n
        invariant
            n == v@.len(),
            i <= n,
            forall|a: int, b: int| 0 <= a < b < n && a < i ==> v@[a] != v@[b],
        decreases n - i,
    {
        let mut j: usize = i + 1;
        while j < n
            invariant
                n == v@.len(),
                i < n,
                i < j <= n,
                forall|a: int, b: int| 0 <= a < b < n && a < i ==> v@[a] != v@[b],
                forall|b: int| i < b < j ==> v@[i as int] != v@[b],
            decreases n - j,
        {
            if v[i] == v[j] {
                return false;
            }
            j = j + 1;
        }
        i = i + 1;
    }
    true
}

/// Whether no two entries of the list are equal.
pub fn distinct_curves(v: &Vec<Curve>) -> (r: bool)
    ensures
        r == no_dups(v@),
{
    let n: usize = v.len();
    let mut i: usize = 0;
    while i < n
        invariant
            n == v@.len(),
            i <= n,
            forall|a: int, b: int| 0 <= a < b < n && a < i ==> v@[a] != v@[b],
        decreases n - i,
    {
        let mut j: usize = i + 1;
        while j < n
            invariant
                n == v@.len(),
                i < n,
                i < j <= n,
                forall|a: int, b: int| 0 <= a < b < n && a < i ==> v@[a] != v@[b],
                forall|b: int| i < b < j ==> v@[i as int] != v@[b],
            decreases n - j,
        {
            if v[i] == v[j] {
                return false;
            }
            j = j + 1;
        }
        i = i + 1;
    }
    true
}

/// Whether no two entries of the list are equal.
pub fn distinct_sigalgs(v: &Vec<SigAlg>) -> (r: bool)
    ensures
        r == no_dups(v@),
{
    let n: usize = v.len();
    let mut i: usize = 0;
    while i < n
        invariant
            n == v@.len(),
            i <= n,
            forall|a: int, b: int| 0 <= a < b < n && a < i ==> v@[a] != v@[b],
        decreases n - i,
    {
        let mut j: usize = i + 1;
        while j < n
            invariant
                n == v@.len(),
                i < n,
                i < j <= n,
                forall|a: int, b: int| 0 <= a < b < n && a < i ==> v@[a] != v@[b],
                forall|b: int| i < b < j ==> v@[i as int] != v@[b],
            decreases n - j,
        {
            if v[i] == v[j] {
                return false;
            }
            j = j + 1;
        }
        i = i + 1;
    }
    true
}

/// Whether no two entries of the list are equal.
pub fn distinct_alpn(v: &Vec<Alpn>) -> (r: bool)
    ensures
        r == no_dups(v@),
{
    let n: usize = v.len();
    let mut i: usize = 0;
    while i < n
        invariant
            n == v@.len(),
            i <= n,
            forall|a: int, b: int| 0 <= a < b < n && a < i ==> v@[a] != v@[b],
        decreases n - i,
    {
        let mut j: usize = i + 1;
        while j < n
            invariant
                n == v@.len(),
                i < n,
                i < j <= n,
                forall|a: int, b: int| 0 <= a < b < n && a < i ==> v@[a] != v@[b],
                forall|b: int| i < b < j ==> v@[i as int] != v@[b],
            decreases n - j,
        {
            if v[i] == v[j] {
                return false;
            }
            j = j + 1;
        }
        i = i + 1;
    }
    true
}

/// Whether no two entries of the list are equal.
pub fn distinct_cert_compression(v: &Vec<CertCompression>) -> (r: bool)
    ensures
        r == no_dups(v@),
{
    let n: usize = v.len();
    let mut i: usize = 0;
    while i < n
        invariant
            n == v@.len(),
            i <= n,
            forall|a: int, b: int| 0 <= a < b < n && a < i ==> v@[a] != v@[b],
        decreases n - i,
    {
        let mut j: usize = i + 1;
        while j < n
            invariant
                n == v@.len(),
                i < n,
                i < j <= n,
                forall|a: int, b: int| 0 <= a < b < n && a < i ==> v@[a] != v@[b],
                forall|b: int| i < b < j ==> v@[i as int] != v@[b],
            decreases n - j,
        {
            if v[i] == v[j] {
                return false;
            }
            j = j + 1;
        }
        i = i + 1;
    }
    true
}
/// A TLS protocol version.
#[derive(Clone, Copy, Debug, PartialEq, Eq, Structural)]
pub enum TlsVersion {
    Tls1_0,
    Tls1_1,
    Tls1_2,
    Tls1_3,
}

/// The order of protocol versions, oldest first.
pub open spec fn version_rank(v: TlsVersion) -> nat {
    match v {
        TlsVersion::Tls1_0 => 0,
        TlsVersion::Tls1_1 => 1,
        TlsVersion::Tls1_2 => 2,
        TlsVersion::Tls1_3 => 3,
    }
}

impl TlsVersion {
    /// Position of this version, oldest first.
    pub fn rank(&self) -> (r: u8)
        ensures
            r as nat == version_rank(*self),
    {
        match self {
            TlsVersion::Tls1_0 => 0,
            TlsVersion::Tls1_1 => 1,
            TlsVersion::Tls1_2 => 2,
            TlsVersion::Tls1_3 => 3,
        }
    }
}

/// The bytes of a protocol's ALPN identifier.
pub open spec fn alpn_bytes(a: Alpn) -> Seq<u8> {
    match a {
        Alpn::Http2 => seq![0x68u8, 0x32u8],
        Alpn::Http1_1 => seq![0x68u8, 0x74u8, 0x74u8, 0x70u8, 0x2fu8, 0x31u8, 0x2eu8, 0x31u8],
    }
}

/// A protocol list in ALPN wire format: each identifier after a length byte.
pub open spec fn alpn_wire(l: Seq<Alpn>) -> Seq<u8>
    decreases l.len(),
{
    if l.len() == 0 {
        Seq::empty()
    } else {
        alpn_wire(l.drop_last()) + seq![alpn_bytes(l.last()).len() as u8] + alpn_bytes(l.last())
    }
}

impl Alpn {
    /// The bytes of this protocol's ALPN identifier.
    pub fn bytes(&self) -> (r: Vec<u8>)
        ensures
            r@ == alpn_bytes(*self),
    {
        let r = match self {
            Alpn::Http2 => vec![0x68u8, 0x32u8],
            Alpn::Http1_1 => vec![0x68u8, 0x74u8, 0x74u8, 0x70u8, 0x2fu8, 0x31u8, 0x2eu8, 0x31u8],
        };
        assert(r@ =~= alpn_bytes(*self));
        r
    }
}

/// Key-exchange groups offered when a profile names none: X25519, then the NIST curves.
pub open spec fn default_curves() -> Seq<Curve> {
    seq![Curve::X25519, Curve::Secp256r1, Curve::Secp384r1]
}

/// Signature algorithms offered when a profile names none.
pub open spec fn default_sigalgs() -> Seq<SigAlg> {
    seq![
        SigAlg::EcdsaSecp256r1Sha256,
        SigAlg::RsaPssRsaeSha256,
        SigAlg::RsaPkcs1Sha256,
        SigAlg::EcdsaSecp384r1Sha384,
        SigAlg::RsaPssRsaeSha384,
        SigAlg::RsaPkcs1Sha384,
        SigAlg::RsaPssRsaeSha512,
        SigAlg::RsaPkcs1Sha512,
        SigAlg::RsaPkcs1Sha1,
    ]
}

/// Application protocols offered when a profile names none: HTTP/2, then HTTP/1.1.
pub open spec fn default_alpn() -> Seq<Alpn> {
    seq![Alpn::Http2, Alpn::Http1_1]
}

/// The key-exchange groups offered when a profile names none.
pub fn default_curve_list() -> (r: Vec<Curve>)
    ensures
        r@ == default_curves(),
{
    vec![Curve::X25519, Curve::Secp256r1, Curve::Secp384r1]
}

/// The signature algorithms offered when a profile names none.
pub fn default_sigalg_list() -> (r: Vec<SigAlg>)
    ensures
        r@ == default_sigalgs(),
{
    vec![
        SigAlg::EcdsaSecp256r1Sha256,
        SigAlg::RsaPssRsaeSha256,
        SigAlg::RsaPkcs1Sha256,
        SigAlg::EcdsaSecp384r1Sha384,
        SigAlg::RsaPssRsaeSha384,
        SigAlg::RsaPkcs1Sha384,
        SigAlg::RsaPssRsaeSha512,
        SigAlg::RsaPkcs1Sha512,
        SigAlg::RsaPkcs1Sha1,
    ]
}

/// The application protocols offered when a profile names none.
pub fn default_alpn_list() -> (r: Vec<Alpn>)
    ensures
        r@ == default_alpn(),
{
    vec![Alpn::Http2, Alpn::Http1_1]
}

/// The TLS handshake parameters of one client, ready for a connector.
#[derive(Clone, Debug)]
pub struct TlsSettings {
    /// Cipher suites in the order they are offered.
    pub ciphers: Vec<Cipher>,
    /// Key-exchange groups in priority order.
    pub curves: Vec<Curve>,
    /// Signature algorithms in the order they are offered.
    pub sigalgs: Vec<SigAlg>,
    /// Application protocols in the order they are offered.
    pub alpn: Vec<Alpn>,
    /// Certificate compression algorithms offered.
    pub cert_compression: Vec<CertCompression>,
    /// Whether extensions are sent in a shuffled order on each handshake.
    pub permute_extensions: bool,
    /// Whether GREASE values are sent.
    pub grease: bool,
    /// Whether OCSP stapling is requested.
    pub ocsp_stapling: bool,
    /// Lowest protocol version accepted.
    pub min_version: TlsVersion,
    /// Highest protocol version offered.
    pub max_version: TlsVersion,
}

/// What a profile asks of the TLS layer; fields left `None` take the defaults.
#[derive(Clone, Debug)]
pub struct TlsProfile {
    /// Cipher suites in the order they are offered.
    pub ciphers: Vec<Cipher>,
    /// Key-exchange groups; `None` takes X25519, P-256, P-384.
    pub curves: Option<Vec<Curve>>,
    /// Signature algorithms; `None` takes the nine-entry default list.
    pub sigalgs: Option<Vec<SigAlg>>,
    /// Application protocols; `None` takes HTTP/2, then HTTP/1.1.
    pub alpn: Option<Vec<Alpn>>,
    /// Certificate compression algorithms offered.
    pub cert_compression: Vec<CertCompression>,
    /// Whether extensions are shuffled on each handshake.
    pub permute_extensions: bool,
    /// Whether GREASE values are sent.
    pub grease: bool,
    /// Whether OCSP stapling is requested.
    pub ocsp_stapling: bool,
    /// Lowest version accepted; `None` takes TLS 1.2.
    pub min_version: Option<TlsVersion>,
    /// Highest version offered; `None` takes TLS 1.3.
    pub max_version: Option<TlsVersion>,
}

/// The abstract value of a profile request, with defaults filled in.
pub struct TlsModel {
    pub ciphers: Seq<Cipher>,
    pub curves: Seq<Curve>,
    pub sigalgs: Seq<SigAlg>,
    pub alpn: Seq<Alpn>,
    pub cert_compression: Seq<CertCompression>,
    pub permute_extensions: bool,
    pub grease: bool,
    pub ocsp_stapling: bool,
    pub min_version: TlsVersion,
    pub max_version: TlsVersion,
}

impl TlsSettings {
    pub open spec fn view(&self) -> TlsModel {
        TlsModel {
            ciphers: self.ciphers@,
            curves: self.curves@,
            sigalgs: self.sigalgs@,
            alpn: self.alpn@,
            cert_compression: self.cert_compression@,
            permute_extensions: self.permute_extensions,
            grease: self.grease,
            ocsp_stapling: self.ocsp_stapling,
            min_version: self.min_version,
            max_version: self.max_version,
        }
    }

    /// The cipher suites as the TLS engine takes them: names joined with `:`.
    pub fn cipher_list(&self) -> (r: String)
        ensures
            r@ == join_spec(self.ciphers@.map_values(|c: Cipher| cipher_name(c)), ":"@),
    {
        let mut names: Vec<&'static str> = Vec::new();
        let mut i: usize = 0;
        while i < self.ciphers.len()
            invariant
                i <= self.ciphers@.len(),
                names@.len() == i,
                forall|j: int| 0 <= j < i ==> (#[trigger] names@[j])@ == cipher_name(self.ciphers@[j]),
            decreases self.ciphers@.len() - i,
        {
            names.push(self.ciphers[i].name());
            i = i + 1;
        }
        assert(names@.map_values(|p: &'static str| p@) =~= self.ciphers@.map_values(
            |c: Cipher| cipher_name(c),
        ));
        join(&names, ":")
    }

    /// The protocol list in ALPN wire format: each identifier after a length byte.
    pub fn alpn_wire(&self) -> (r: Vec<u8>)
        ensures
            r@ == alpn_wire(self.alpn@),
    {
        let mut out: Vec<u8> = Vec::new();
        let mut i: usize = 0;
        while i < self.alpn.len()
            invariant
                i <= self.alpn@.len(),
                out@ == alpn_wire(self.alpn@.take(i as int)),
            decreases self.alpn@.len() - i,
        {
            let mut b = self.alpn[i].bytes();
            assert(b@.len() <= 8);
            out.push(b.len() as u8);
            out.append(&mut b);
            assert(self.alpn@.take(i + 1).drop_last() =~= self.alpn@.take(i as int));
            i = i + 1;
        }
        assert(self.alpn@.take(self.alpn@.len() as int) =~= self.alpn@);
        out
    }

    /// The signature algorithms as the TLS engine takes them: names joined with `:`.
    pub fn sigalgs_list(&self) -> (r: String)
        ensures
            r@ == join_spec(self.sigalgs@.map_values(|s: SigAlg| sigalg_name(s)), ":"@),
    {
        let mut names: Vec<&'static str> = Vec::new();
        let mut i: usize = 0;
        while i < self.sigalgs.len()
            invariant
                i <= self.sigalgs@.len(),
                names@.len() == i,
                forall|j: int| 0 <= j < i ==> (#[trigger] names@[j])@ == sigalg_name(self.sigalgs@[j]),
            decreases self.sigalgs@.len() - i,
        {
            names.push(self.sigalgs[i].name());
            i = i + 1;
        }
        assert(names@.map_values(|p: &'static str| p@) =~= self.sigalgs@.map_values(
            |s: SigAlg| sigalg_name(s),
        ));
        join(&names, ":")
    }
}

/// The settings a profile request resolves to, defaults filled in.
pub open spec fn resolve(p: TlsProfile) -> TlsModel {
    TlsModel {
        ciphers: p.ciphers@,
        curves: match p.curves {
            Some(c) => c@,
            None => default_curves(),
        },
        sigalgs: match p.sigalgs {
            Some(s) => s@,
            None => default_sigalgs(),
        },
        alpn: match p.alpn {
            Some(a) => a@,
            None => default_alpn(),
        },
        cert_compression: p.cert_compression@,
        permute_extensions: p.permute_extensions,
        grease: p.grease,
        ocsp_stapling: p.ocsp_stapling,
        min_version: match p.min_version {
            Some(v) => v,
            None => TlsVersion::Tls1_2,
        },
        max_version: match p.max_version {
            Some(v) => v,
            None => TlsVersion::Tls1_3,
        },
    }
}

/// Whether a TLS engine can be configured with these settings: every list that
/// is offered is non-empty and holds no entry twice, and the version bounds are in order.
pub open spec fn acceptable(m: TlsModel) -> bool {
    &&& m.ciphers.len() > 0 && no_dups(m.ciphers)
    &&& m.curves.len() > 0 && no_dups(m.curves)
    &&& m.sigalgs.len() > 0 && no_dups(m.sigalgs)
    &&& m.alpn.len() > 0 && no_dups(m.alpn)
    &&& no_dups(m.cert_compression)
    &&& version_rank(m.min_version) <= version_rank(m.max_version)
}

/// Builds the TLS settings a profile asks for, or fails as a whole when the
/// request cannot configure a TLS engine.
pub fn build_tls(p: TlsProfile) -> (r: Result<TlsSettings, ImpersonateError>)
    ensures
        r.is_ok() <==> acceptable(resolve(p)),
        r matches Ok(s) ==> s.view() == resolve(p),
        r matches Err(e) ==> e == ImpersonateError::EngineConfiguration,
{
    let ghost m = resolve(p);
    let curves = match p.curves {
        Some(c) => c,
        None => default_curve_list(),
    };
    let sigalgs = match p.sigalgs {
        Some(s) => s,
        None => default_sigalg_list(),
    };
    let alpn = match p.alpn {
        Some(a) => a,
        None => default_alpn_list(),
    };
    let min_version = match p.min_version {
        Some(v) => v,
        None => TlsVersion::Tls1_2,
    };
    let max_version = match p.max_version {
        Some(v) => v,
        None => TlsVersion::Tls1_3,
    };
    let ok = p.ciphers.len() > 0 && distinct_ciphers(&p.ciphers) && curves.len() > 0
        && distinct_curves(&curves) && sigalgs.len() > 0 && distinct_sigalgs(&sigalgs)
        && alpn.len() > 0 && distinct_alpn(&alpn) && distinct_cert_compression(
        &p.cert_compression,
    ) && min_version.rank() <= max_version.rank();
    if !ok {
        return Err(ImpersonateError::EngineConfiguration);
    }
    Ok(
        TlsSettings {
            ciphers: p.ciphers,
            curves,
            sigalgs,
            alpn,
            cert_compression: p.cert_compression,
            permute_extensions: p.permute_extensions,
            grease: p.grease,
            ocsp_stapling: p.ocsp_stapling,
            min_version,
            max_version,
        },
    )
}

/// The TLS request of the OkHttp family: a cipher list, and optionally the
/// curves and signature algorithms; the rest is fixed for the family.
#[derive(Clone, Debug)]
pub struct OkHttpTlsSettings {
    /// Key-exchange groups; `None` takes X25519, P-256, P-384.
    pub curves: Option<Vec<Curve>>,
    /// Signature algorithms; `None` takes the nine-entry default list.
    pub sigalgs_list: Option<Vec<SigAlg>>,
    /// Cipher suites in the order they are offered.
    pub cipher_list: Vec<Cipher>,
}

/// The OkHttp settings for the given lists: the default protocols, OCSP
/// stapling on, TLS 1.2 to 1.3, no certificate compression, no GREASE.
pub open spec fn okhttp_settings(ciphers: Seq<Cipher>, curves: Seq<Curve>, sigalgs: Seq<SigAlg>) -> TlsModel {
    TlsModel {
        ciphers,
        curves,
        sigalgs,
        alpn: default_alpn(),
        cert_compression: Seq::empty(),
        permute_extensions: false,
        grease: false,
        ocsp_stapling: true,
        min_version: TlsVersion::Tls1_2,
        max_version: TlsVersion::Tls1_3,
    }
}

/// The settings an OkHttp request resolves to: the default curves and signature
/// algorithms where it names none.
pub open spec fn okhttp_model(s: OkHttpTlsSettings) -> TlsModel {
    okhttp_settings(
        s.cipher_list@,
        match s.curves {
            Some(c) => c@,
            None => default_curves(),
        },
        match s.sigalgs_list {
            Some(l) => l@,
            None => default_sigalgs(),
        },
    )
}

impl OkHttpTlsSettings {
    /// Builds the TLS settings of an OkHttp client.
    pub fn try_into(self) -> (r: Result<TlsSettings, ImpersonateError>)
        ensures
            r.is_ok() <==> acceptable(okhttp_model(self)),
            r matches Ok(s) ==> s.view() == okhttp_model(self),
            r matches Err(e) ==> e == ImpersonateError::EngineConfiguration,
    {
        build_tls(
            TlsProfile {
                ciphers: self.cipher_list,
                curves: self.curves,
                sigalgs: self.sigalgs_list,
                alpn: None,
                cert_compression: Vec::new(),
                permute_extensions: false,
                grease: false,
                ocsp_stapling: true,
                min_version: Some(TlsVersion::Tls1_2),
                max_version: Some(TlsVersion::Tls1_3),
            },
        )
    }
}

} // verus!
