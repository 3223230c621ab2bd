use vstd::prelude::*;
use crate::tls::no_dups;

verus! {

/// An HTTP/2 SETTINGS parameter.
#[derive(Clone, Copy, Debug, PartialEq, Eq, Structural)]
pub enum SettingId {
    HeaderTableSize,
    EnablePush,
    MaxConcurrentStreams,
    InitialWindowSize,
    MaxFrameSize,
    MaxHeaderListSize,
}

/// An HTTP/2 request pseudo-header.
#[derive(Clone, Copy, Debug, PartialEq, Eq, Structural)]
pub enum PseudoHeader {
    Method,
    Scheme,
    Authority,
    Path,
}

/// The HTTP/2 session parameters of one client.
#[derive(Clone, Debug)]
pub struct Http2Settings {
    /// SETTINGS parameters with their values, in the order they are sent.
    pub settings: Vec<(SettingId, u32)>,
    /// The order in which pseudo-headers are sent on each request.
    pub pseudo_order: Vec<PseudoHeader>,
    /// The increment of the first connection-level WINDOW_UPDATE.
    pub initial_connection_window_update: u32,
}

/// The abstract value of HTTP/2 session parameters.
pub struct Http2Model {
    pub settings: Seq<(SettingId, u32)>,
    pub pseudo_order: Seq<PseudoHeader>,
    pub initial_connection_window_update: u32,
}

impl Http2Settings {
    pub open spec fn view(&self) -> Http2Model {
        Http2Model {
            settings: self.settings@,
            pseudo_order: self.pseudo_order@,
            initial_connection_window_update: self.initial_connection_window_update,
        }
    }
}

/// The parameter identifiers of a SETTINGS list, in order.
pub open spec fn setting_ids(s: Seq<(SettingId, u32)>) -> Seq<SettingId> {
    s.map_values(|p: (SettingId, u32)| p.0)
}

/// Sent as the SETTINGS frame and pseudo-header order of a real client: no
/// parameter twice, and each of the four pseudo-headers exactly once.
pub open spec fn http2_well_formed(m: Http2Model) -> bool {
    &&& no_dups(setting_ids(m.settings))
    &&& m.pseudo_order.len() == 4
    &&& no_dups(m.pseudo_order)
    &&& forall|p: PseudoHeader| #[trigger] m.pseudo_order.contains(p)
}

/// The HTTP/2 engine families whose session parameters differ.
#[derive(Clone, Copy, Debug, PartialEq, Eq, Structural)]
pub enum Http2Family {
    /// Chromium before it dropped the stream limit from its SETTINGS frame.
    ChromiumLegacy,
    Chromium,
    /// WebKit up to Safari 16.
    WebKitLegacy,
    WebKit,
    OkHttp,
}

/// The HTTP/2 session parameters of each engine family.
pub open spec fn http2_model(f: Http2Family) -> Http2Model {
    match f {
        Http2Family::ChromiumLegacy => Http2Model {
            settings: seq![
                (SettingId::HeaderTableSize, 65536u32),
                (SettingId::EnablePush, 0u32),
                (SettingId::MaxConcurrentStreams, 1000u32),
                (SettingId::InitialWindowSize, 6291456u32),
                (SettingId::MaxHeaderListSize, 262144u32),
            ],
            pseudo_order: chromium_pseudo_order(),
            initial_connection_window_update: 15663105,
        },
        Http2Family::Chromium => Http2Model {
            settings: seq![
                (SettingId::HeaderTableSize, 65536u32),
                (SettingId::EnablePush, 0u32),
                (SettingId::InitialWindowSize, 6291456u32),
                (SettingId::MaxHeaderListSize, 262144u32),
            ],
            pseudo_order: chromium_pseudo_order(),
            initial_connection_window_update: 15663105,
        },
        Http2Family::WebKitLegacy => Http2Model {
            settings: seq![
                (SettingId::InitialWindowSize, 4194304u32),
                (SettingId::MaxConcurrentStreams, 100u32),
            ],
            pseudo_order: webkit_pseudo_order(),
            initial_connection_window_update: 10485760,
        },
        Http2Family::WebKit => Http2Model {
            settings: seq![
                (SettingId::EnablePush, 0u32),
                (SettingId::MaxConcurrentStreams, 100u32),
                (SettingId::InitialWindowSize, 2097152u32),
            ],
            pseudo_order: webkit_pseudo_order(),
            initial_connection_window_update: 10420225,
        },
        Http2Family::OkHttp => Http2Model {
            settings: seq![(SettingId::InitialWindowSize, 16777216u32)],
            pseudo_order: okhttp_pseudo_order(),
            initial_connection_window_update: 16711681,
        },
    }
}

/// Chromium sends `:method`, `:authority`, `:scheme`, `:path`.
pub open spec fn chromium_pseudo_order() -> Seq<PseudoHeader> {
    seq![PseudoHeader::Method, PseudoHeader::Authority, PseudoHeader::Scheme, PseudoHeader::Path]
}

/// WebKit sends `:method`, `:scheme`, `:path`, `:authority`.
pub open spec fn webkit_pseudo_order() -> Seq<PseudoHeader> {
    seq![PseudoHeader::Method, PseudoHeader::Scheme, PseudoHeader::Path, PseudoHeader::Authority]
}

/// OkHttp sends `:method`, `:path`, `:authority`, `:scheme`.
pub open spec fn okhttp_pseudo_order() -> Seq<PseudoHeader> {
    seq![PseudoHeader::Method, PseudoHeader::Path, PseudoHeader::Authority, PseudoHeader::Scheme]
}

/// Builds the HTTP/2 session parameters of an engine family.
pub fn build_http2(f: Http2Family) -> (r: Http2Settings)
    ensures
        r.view() == http2_model(f),
        http2_well_formed(r.view()),
{
    let chromium_order = vec![
        PseudoHeader::Method,
        PseudoHeader::Authority,
        PseudoHeader::Scheme,
        PseudoHeader::Path,
    ];
    let webkit_order = vec![
        PseudoHeader::Method,
        PseudoHeader::Scheme,
        PseudoHeader::Path,
        PseudoHeader::Authority,
    ];
    let r = match f {
        Http2Family::ChromiumLegacy => Http2Settings {
            settings: vec![
                (SettingId::HeaderTableSize, 65536u32),
                (SettingId::EnablePush, 0u32),
                (SettingId::MaxConcurrentStreams, 1000u32),
                (SettingId::InitialWindowSize, 6291456u32),
                (SettingId::MaxHeaderListSize, 262144u32),
            ],
            pseudo_order: chromium_order,
            initial_connection_window_update: 15663105,
        },
        Http2Family::Chromium => Http2Settings {
            settings: vec![
                (SettingId::HeaderTableSize, 65536u32),
                (SettingId::EnablePush, 0u32),
                (SettingId::InitialWindowSize, 6291456u32),
                (SettingId::MaxHeaderListSize, 262144u32),
            ],
            pseudo_order: chromium_order,
            initial_connection_window_update: 15663105,
        },
        Http2Family::WebKitLegacy => Http2Settings {
            settings: vec![
                (SettingId::InitialWindowSize, 4194304u32),
                (SettingId::MaxConcurrentStreams, 100u32),
            ],
            pseudo_order: webkit_order,
            initial_connection_window_update: 10485760,
        },
        Http2Family::WebKit => Http2Settings {
            settings: vec![
                (SettingId::EnablePush, 0u32),
                (SettingId::MaxConcurrentStreams, 100u32),
                (SettingId::InitialWindowSize, 2097152u32),
            ],
            pseudo_order: webkit_order,
            initial_connection_window_update: 10420225,
        },
        Http2Family::OkHttp => Http2Settings {
            settings: vec![(SettingId::InitialWindowSize, 16777216u32)],
            pseudo_order: vec![
                PseudoHeader::Method,
                PseudoHeader::Path,
                PseudoHeader::Authority,
                PseudoHeader::Scheme,
            ],
            initial_connection_window_update: 16711681,
        },
    };
    proof {
        assert(r.settings@ =~= http2_model(f).settings);
        assert(r.pseudo_order@ =~= http2_model(f).pseudo_order);
        lemma_http2_model_well_formed(f);
    }
    r
}

/// Every engine family's session parameters are well formed.
pub proof fn lemma_http2_model_well_formed(f: Http2Family)
    ensures
        http2_well_formed(http2_model(f)),
{
    let m = http2_model(f);
    let ids = setting_ids(m.settings);
    assert(ids =~= m.settings.map_values(|p: (SettingId, u32)| p.0));
    assert forall|p: PseudoHeader| #[trigger] m.pseudo_order.contains(p) by {
        let o = m.pseudo_order;
        if p == o[0] {
            assert(o.contains(p));
        } else if p == o[1] {
            assert(o.contains(p));
        } else if p == o[2] {
            assert(o.contains(p));
        } else {
            assert(p == o[3]);
            assert(o.contains(p));
        }
    }
}

} // verus!
