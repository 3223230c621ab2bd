use vstd::prelude::*;
use crate::tls::no_dups;

verus! {

/// A request header a profile sends by default.
#[derive(Clone, Copy, Debug, PartialEq, Eq, Structural)]
pub enum HeaderName {
    Accept,
    AcceptEncoding,
    AcceptLanguage,
    CacheControl,
    Dnt,
    UpgradeInsecureRequests,
    UserAgent,
}

/// The header's name on the wire.
pub open spec fn header_name(x: HeaderName) -> Seq<char> {
    match x {
        HeaderName::Accept => "accept"@,
        HeaderName::AcceptEncoding => "accept-encoding"@,
        HeaderName::AcceptLanguage => "accept-language"@,
        HeaderName::CacheControl => "cache-control"@,
        HeaderName::Dnt => "dnt"@,
        HeaderName::UpgradeInsecureRequests => "upgrade-insecure-requests"@,
        HeaderName::UserAgent => "user-agent"@,
    }
}

impl HeaderName {
    /// The header's name on the wire.
    pub fn name(&self) -> (r: &'static str)
        ensures
            r@ == header_name(*self),
    {
        match self {
            HeaderName::Accept => "accept",
            HeaderName::AcceptEncoding => "accept-encoding",
            HeaderName::AcceptLanguage => "accept-language",
            HeaderName::CacheControl => "cache-control",
            HeaderName::Dnt => "dnt",
            HeaderName::UpgradeInsecureRequests => "upgrade-insecure-requests",
            HeaderName::UserAgent => "user-agent",
        }
    }
}

/// The clients whose default headers differ.
#[derive(Clone, Copy, Debug, PartialEq, Eq, Structural)]
pub enum HeaderFamily {
    /// Chrome and Edge.
    Chromium,
    /// Safari on macOS, iPhone and iPad.
    WebKit,
    /// OkHttp on Android.
    OkHttp,
}

/// The default headers of each client, in the order they are sent, with user agent `ua`.
pub open spec fn header_entries(f: HeaderFamily, ua: Seq<char>) -> Seq<(HeaderName, Seq<char>)> {
    match f {
        HeaderFamily::Chromium => seq![
            (HeaderName::UpgradeInsecureRequests, "1"@),
            (HeaderName::UserAgent, ua),
            (HeaderName::Accept, "text/html,application/xhtml+xml,application/xml;q=0.9,image/avif,image/webp,image/apng,*/*;q=0.8,application/signed-exchange;v=b3;q=0.7"@),
            (HeaderName::AcceptEncoding, "gzip, deflate, br, zstd"@),
            (HeaderName::AcceptLanguage, "en-US,en;q=0.9"@),
        ],
        HeaderFamily::WebKit => seq![
            (HeaderName::UserAgent, ua),
            (HeaderName::Accept, "text/html,application/xhtml+xml,application/xml;q=0.9,*/*;q=0.8"@),
            (HeaderName::AcceptLanguage, "en-US,en;q=0.9"@),
            (HeaderName::AcceptEncoding, "gzip, deflate, br"@),
        ],
        HeaderFamily::OkHttp => seq![
            (HeaderName::Accept, "*/*"@),
            (HeaderName::AcceptLanguage, "de-DE,de;q=0.9,en-US;q=0.8,en;q=0.7"@),
            (HeaderName::UserAgent, ua),
            (HeaderName::AcceptEncoding, "gzip, deflate, br"@),
        ],
    }
}

/// The default headers of a client, in the order they are sent, with user agent `ua`.
pub fn build_header_entries(f: HeaderFamily, ua: &'static str) -> (r: Vec<(HeaderName, &'static str)>)
    ensures
        entries_view(r@) == header_entries(f, ua@),
{
    let r = match f {
        HeaderFamily::Chromium => vec![
            (HeaderName::UpgradeInsecureRequests, "1"),
            (HeaderName::UserAgent, ua),
            (HeaderName::Accept, "text/html,application/xhtml+xml,application/xml;q=0.9,image/avif,image/webp,image/apng,*/*;q=0.8,application/signed-exchange;v=b3;q=0.7"),
            (HeaderName::AcceptEncoding, "gzip, deflate, br, zstd"),
            (HeaderName::AcceptLanguage, "en-US,en;q=0.9"),
        ],
        HeaderFamily::WebKit => vec![
            (HeaderName::UserAgent, ua),
            (HeaderName::Accept, "text/html,application/xhtml+xml,application/xml;q=0.9,*/*;q=0.8"),
            (HeaderName::AcceptLanguage, "en-US,en;q=0.9"),
            (HeaderName::AcceptEncoding, "gzip, deflate, br"),
        ],
        HeaderFamily::OkHttp => vec![
            (HeaderName::Accept, "*/*"),
            (HeaderName::AcceptLanguage, "de-DE,de;q=0.9,en-US;q=0.8,en;q=0.7"),
            (HeaderName::UserAgent, ua),
            (HeaderName::AcceptEncoding, "gzip, deflate, br"),
        ],
    };
    assert(entries_view(r@) =~= header_entries(f, ua@));
    r
}
/// The entries of a header list with their values as character sequences.
pub open spec fn entries_view(e: Seq<(HeaderName, &'static str)>) -> Seq<(HeaderName, Seq<char>)> {
    e.map_values(|p: (HeaderName, &'static str)| (p.0, p.1@))
}

/// The header names of a list of entries, in order.
pub open spec fn entry_names(e: Seq<(HeaderName, Seq<char>)>) -> Seq<HeaderName> {
    e.map_values(|p: (HeaderName, Seq<char>)| p.0)
}

/// A set of default headers: each name at most once, with its value.
#[derive(Debug)]
pub struct HeaderMap {
    pub entries: Vec<(HeaderName, &'static str)>,
}

impl HeaderMap {
    /// The entries, values as character sequences.
    pub open spec fn view(&self) -> Seq<(HeaderName, Seq<char>)> {
        entries_view(self.entries@)
    }

    /// The names that have a value.
    pub open spec fn keys(&self) -> Set<HeaderName> {
        entry_names(self.view()).to_set()
    }

    /// Number of headers.
    pub fn len(&self) -> (r: usize)
        ensures
            r == self.view().len(),
    {
        self.entries.len()
    }

    /// The value given to `name`, if any.
    pub fn get(&self, name: HeaderName) -> (r: Option<&'static str>)
        ensures
            r is None <==> !self.keys().contains(name),
            r matches Some(v) ==> exists|i: int|
                0 <= i < self.view().len() && #[trigger] self.view()[i] == (name, v@),
    {
        let mut i: usize = 0;
        while i < self.entries.len()
            invariant
                i <= self.entries@.len(),
                forall|j: int| 0 <= j < i ==> (#[trigger] self.entries@[j]).0 != name,
            decreases self.entries@.len() - i,
        {
            if self.entries[i].0 == name {
                assert(self.view()[i as int] == (name, self.entries[i as int].1@));
                assert(entry_names(self.view())[i as int] == name);
                assert(entry_names(self.view()).contains(name));
                return Some(self.entries[i].1);
            }
            i = i + 1;
        }
        assert(!self.keys().contains(name)) by {
            if entry_names(self.view()).contains(name) {
                let k = choose|k: int| 0 <= k < entry_names(self.view()).len()
                    && entry_names(self.view())[k] == name;
                assert(self.entries@[k].0 == name);
            }
        }
        None
    }
}

/// The default headers of a profile and the order they are sent in: the order
/// names exactly the headers of the map, each once, as the map lists them.
pub open spec fn policy_well_formed(m: Seq<(HeaderName, Seq<char>)>, order: Seq<HeaderName>) -> bool {
    &&& m.len() > 0
    &&& order == entry_names(m)
    &&& no_dups(order)
}

/// Every client's default headers name each header once.
pub proof fn lemma_header_entries_distinct(f: HeaderFamily, ua: Seq<char>)
    ensures
        header_entries(f, ua).len() > 0,
        no_dups(entry_names(header_entries(f, ua))),
{
    let n = entry_names(header_entries(f, ua));
    assert(n =~= header_entries(f, ua).map_values(|p: (HeaderName, Seq<char>)| p.0));
}

/// Builds the default header map of a client, with user agent `ua`, and its send order.
pub fn build_header_policy(f: HeaderFamily, ua: &'static str) -> (r: (HeaderMap, Vec<HeaderName>))
    ensures
        r.0.view() == header_entries(f, ua@),
        r.1@ == entry_names(header_entries(f, ua@)),
        policy_well_formed(r.0.view(), r.1@),
{
    let entries = build_header_entries(f, ua);
    let mut order: Vec<HeaderName> = Vec::new();
    let mut i: usize = 0;
    while i < entries.len()
        invariant
            i <= entries@.len(),
            order@.len() == i,
            forall|j: int| 0 <= j < i ==> #[trigger] order@[j] == entries@[j].0,
        decreases entries@.len() - i,
    {
        order.push(entries[i].0);
        i = i + 1;
    }
    proof {
        lemma_header_entries_distinct(f, ua@);
        assert(order@ =~= entry_names(header_entries(f, ua@)));
    }
    (HeaderMap { entries }, order)
}

} // verus!
