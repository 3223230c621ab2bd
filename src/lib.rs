//! Browser and HTTP runtime fingerprint profiles: a profile identifier is turned
//! into the TLS handshake, HTTP/2 session and default header settings that the
//! named client sends on the wire.

pub mod headers;
pub mod http2;
pub mod identifier;
pub mod registry;
pub mod text;
pub mod tls;
pub mod tls_profiles;

pub use headers::{HeaderMap, HeaderName};
pub use http2::{Http2Settings, PseudoHeader, SettingId};
pub use identifier::{Impersonate, ImpersonateError};
pub use registry::{tls_settings, HeaderCache, ImpersonateSettings, Registry};
pub use tls::{OkHttpTlsSettings, TlsSettings};
