use vstd::prelude::*;

verus! {

/// A browser or HTTP runtime version whose wire fingerprint can be reproduced.
#[derive(Clone, Copy, Debug, PartialEq, Eq, Structural)]
pub enum Impersonate {
    Chrome100,
    Chrome101,
    Chrome104,
    Chrome105,
    Chrome106,
    Chrome107,
    Chrome108,
    Chrome109,
    Chrome114,
    Chrome116,
    Chrome117,
    Chrome118,
    Chrome119,
    Chrome120,
    Chrome123,
    Chrome124,
    Chrome126,
    Chrome127,
    Chrome128,
    Chrome129,
    Chrome130,
    Chrome131,
    SafariIos17_2,
    SafariIos17_4_1,
    SafariIos16_5,
    Safari15_3,
    Safari15_5,
    Safari15_6_1,
    Safari16,
    Safari16_5,
    Safari17_0,
    Safari17_2_1,
    Safari17_4_1,
    Safari17_5,
    Safari18,
    SafariIPad18,
    OkHttp3_9,
    OkHttp3_11,
    OkHttp3_13,
    OkHttp3_14,
    OkHttp4_9,
    OkHttp4_10,
    OkHttp5,
    Edge101,
    Edge122,
    Edge127,
}

/// Errors raised while turning a profile name or a profile table into settings.
#[derive(Clone, Debug, PartialEq, Eq)]
pub enum ImpersonateError {
    /// The text names no supported profile; it is carried back unchanged.
    UnknownIdentifier(String),
    /// A TLS profile table asked for a configuration the TLS engine cannot take.
    EngineConfiguration,
}

/// Number of supported profiles.
pub const PROFILE_COUNT: usize = 46;

/// The canonical name of a profile.
pub open spec fn name_of(v: Impersonate) -> Seq<char> {
    match v {
        Impersonate::Chrome100 => "chrome_100"@,
        Impersonate::Chrome101 => "chrome_101"@,
        Impersonate::Chrome104 => "chrome_104"@,
        Impersonate::Chrome105 => "chrome_105"@,
        Impersonate::Chrome106 => "chrome_106"@,
        Impersonate::Chrome107 => "chrome_107"@,
        Impersonate::Chrome108 => "chrome_108"@,
        Impersonate::Chrome109 => "chrome_109"@,
        Impersonate::Chrome114 => "chrome_114"@,
        Impersonate::Chrome116 => "chrome_116"@,
        Impersonate::Chrome117 => "chrome_117"@,
        Impersonate::Chrome118 => "chrome_118"@,
        Impersonate::Chrome119 => "chrome_119"@,
        Impersonate::Chrome120 => "chrome_120"@,
        Impersonate::Chrome123 => "chrome_123"@,
        Impersonate::Chrome124 => "chrome_124"@,
        Impersonate::Chrome126 => "chrome_126"@,
        Impersonate::Chrome127 => "chrome_127"@,
        Impersonate::Chrome128 => "chrome_128"@,
        Impersonate::Chrome129 => "chrome_129"@,
        Impersonate::Chrome130 => "chrome_130"@,
        Impersonate::Chrome131 => "chrome_131"@,
        Impersonate::SafariIos17_2 => "safari_ios_17.2"@,
        Impersonate::SafariIos17_4_1 => "safari_ios_17.4.1"@,
        Impersonate::SafariIos16_5 => "safari_ios_16.5"@,
        Impersonate::Safari15_3 => "safari_15.3"@,
        Impersonate::Safari15_5 => "safari_15.5"@,
        Impersonate::Safari15_6_1 => "safari_15.6.1"@,
        Impersonate::Safari16 => "safari_16"@,
        Impersonate::Safari16_5 => "safari_16.5"@,
        Impersonate::Safari17_0 => "safari_17.0"@,
        Impersonate::Safari17_2_1 => "safari_17.2.1"@,
        Impersonate::Safari17_4_1 => "safari_17.4.1"@,
        Impersonate::Safari17_5 => "safari_17.5"@,
        Impersonate::Safari18 => "safari_18"@,
        Impersonate::SafariIPad18 => "safari_ipad_18"@,
        Impersonate::OkHttp3_9 => "okhttp_3.9"@,
        Impersonate::OkHttp3_11 => "okhttp_3.11"@,
        Impersonate::OkHttp3_13 => "okhttp_3.13"@,
        Impersonate::OkHttp3_14 => "okhttp_3.14"@,
        Impersonate::OkHttp4_9 => "okhttp_4.9"@,
        Impersonate::OkHttp4_10 => "okhttp_4.10"@,
        Impersonate::OkHttp5 => "okhttp_5"@,
        Impersonate::Edge101 => "edge_101"@,
        Impersonate::Edge122 => "edge_122"@,
        Impersonate::Edge127 => "edge_127"@,
    }
}

/// Position of a profile in the registry table.
pub open spec fn index_of(v: Impersonate) -> nat {
    match v {
        Impersonate::Chrome100 => 0,
        Impersonate::Chrome101 => 1,
        Impersonate::Chrome104 => 2,
        Impersonate::Chrome105 => 3,
        Impersonate::Chrome106 => 4,
        Impersonate::Chrome107 => 5,
        Impersonate::Chrome108 => 6,
        Impersonate::Chrome109 => 7,
        Impersonate::Chrome114 => 8,
        Impersonate::Chrome116 => 9,
        Impersonate::Chrome117 => 10,
        Impersonate::Chrome118 => 11,
        Impersonate::Chrome119 => 12,
        Impersonate::Chrome120 => 13,
        Impersonate::Chrome123 => 14,
        Impersonate::Chrome124 => 15,
        Impersonate::Chrome126 => 16,
        Impersonate::Chrome127 => 17,
        Impersonate::Chrome128 => 18,
        Impersonate::Chrome129 => 19,
        Impersonate::Chrome130 => 20,
        Impersonate::Chrome131 => 21,
        Impersonate::SafariIos17_2 => 22,
        Impersonate::SafariIos17_4_1 => 23,
        Impersonate::SafariIos16_5 => 24,
        Impersonate::Safari15_3 => 25,
        Impersonate::Safari15_5 => 26,
        Impersonate::Safari15_6_1 => 27,
        Impersonate::Safari16 => 28,
        Impersonate::Safari16_5 => 29,
        Impersonate::Safari17_0 => 30,
        Impersonate::Safari17_2_1 => 31,
        Impersonate::Safari17_4_1 => 32,
        Impersonate::Safari17_5 => 33,
        Impersonate::Safari18 => 34,
        Impersonate::SafariIPad18 => 35,
        Impersonate::OkHttp3_9 => 36,
        Impersonate::OkHttp3_11 => 37,
        Impersonate::OkHttp3_13 => 38,
        Impersonate::OkHttp3_14 => 39,
        Impersonate::OkHttp4_9 => 40,
        Impersonate::OkHttp4_10 => 41,
        Impersonate::OkHttp5 => 42,
        Impersonate::Edge101 => 43,
        Impersonate::Edge122 => 44,
        Impersonate::Edge127 => 45,
    }
}

/// The registry table: every profile, each at its own position.
pub open spec fn all_profiles() -> Seq<Impersonate> {
    seq![
        Impersonate::Chrome100,
        Impersonate::Chrome101,
        Impersonate::Chrome104,
        Impersonate::Chrome105,
        Impersonate::Chrome106,
        Impersonate::Chrome107,
        Impersonate::Chrome108,
        Impersonate::Chrome109,
        Impersonate::Chrome114,
        Impersonate::Chrome116,
        Impersonate::Chrome117,
        Impersonate::Chrome118,
        Impersonate::Chrome119,
        Impersonate::Chrome120,
        Impersonate::Chrome123,
        Impersonate::Chrome124,
        Impersonate::Chrome126,
        Impersonate::Chrome127,
        Impersonate::Chrome128,
        Impersonate::Chrome129,
        Impersonate::Chrome130,
        Impersonate::Chrome131,
        Impersonate::SafariIos17_2,
        Impersonate::SafariIos17_4_1,
        Impersonate::SafariIos16_5,
        Impersonate::Safari15_3,
        Impersonate::Safari15_5,
        Impersonate::Safari15_6_1,
        Impersonate::Safari16,
        Impersonate::Safari16_5,
        Impersonate::Safari17_0,
        Impersonate::Safari17_2_1,
        Impersonate::Safari17_4_1,
        Impersonate::Safari17_5,
        Impersonate::Safari18,
        Impersonate::SafariIPad18,
        Impersonate::OkHttp3_9,
        Impersonate::OkHttp3_11,
        Impersonate::OkHttp3_13,
        Impersonate::OkHttp3_14,
        Impersonate::OkHttp4_9,
        Impersonate::OkHttp4_10,
        Impersonate::OkHttp5,
        Impersonate::Edge101,
        Impersonate::Edge122,
        Impersonate::Edge127,
    ]
}

impl Impersonate {
    /// The canonical name of this profile.
    pub fn as_str(&self) -> (r: &'static str)
        ensures
            r@ == name_of(*self),
    {
        match self {
            Impersonate::Chrome100 => "chrome_100",
            Impersonate::Chrome101 => "chrome_101",
            Impersonate::Chrome104 => "chrome_104",
            Impersonate::Chrome105 => "chrome_105",
            Impersonate::Chrome106 => "chrome_106",
            Impersonate::Chrome107 => "chrome_107",
            Impersonate::Chrome108 => "chrome_108",
            Impersonate::Chrome109 => "chrome_109",
            Impersonate::Chrome114 => "chrome_114",
            Impersonate::Chrome116 => "chrome_116",
            Impersonate::Chrome117 => "chrome_117",
            Impersonate::Chrome118 => "chrome_118",
            Impersonate::Chrome119 => "chrome_119",
            Impersonate::Chrome120 => "chrome_120",
            Impersonate::Chrome123 => "chrome_123",
            Impersonate::Chrome124 => "chrome_124",
            Impersonate::Chrome126 => "chrome_126",
            Impersonate::Chrome127 => "chrome_127",
            Impersonate::Chrome128 => "chrome_128",
            Impersonate::Chrome129 => "chrome_129",
            Impersonate::Chrome130 => "chrome_130",
            Impersonate::Chrome131 => "chrome_131",
            Impersonate::SafariIos17_2 => "safari_ios_17.2",
            Impersonate::SafariIos17_4_1 => "safari_ios_17.4.1",
            Impersonate::SafariIos16_5 => "safari_ios_16.5",
            Impersonate::Safari15_3 => "safari_15.3",
            Impersonate::Safari15_5 => "safari_15.5",
            Impersonate::Safari15_6_1 => "safari_15.6.1",
            Impersonate::Safari16 => "safari_16",
            Impersonate::Safari16_5 => "safari_16.5",
            Impersonate::Safari17_0 => "safari_17.0",
            Impersonate::Safari17_2_1 => "safari_17.2.1",
            Impersonate::Safari17_4_1 => "safari_17.4.1",
            Impersonate::Safari17_5 => "safari_17.5",
            Impersonate::Safari18 => "safari_18",
            Impersonate::SafariIPad18 => "safari_ipad_18",
            Impersonate::OkHttp3_9 => "okhttp_3.9",
            Impersonate::OkHttp3_11 => "okhttp_3.11",
            Impersonate::OkHttp3_13 => "okhttp_3.13",
            Impersonate::OkHttp3_14 => "okhttp_3.14",
            Impersonate::OkHttp4_9 => "okhttp_4.9",
            Impersonate::OkHttp4_10 => "okhttp_4.10",
            Impersonate::OkHttp5 => "okhttp_5",
            Impersonate::Edge101 => "edge_101",
            Impersonate::Edge122 => "edge_122",
            Impersonate::Edge127 => "edge_127",
        }
    }

    /// Position of this profile in the registry table.
    pub fn index(&self) -> (r: usize)
        ensures
            r as nat == index_of(*self),
            r < PROFILE_COUNT,
    {
        match self {
            Impersonate::Chrome100 => 0,
            Impersonate::Chrome101 => 1,
            Impersonate::Chrome104 => 2,
            Impersonate::Chrome105 => 3,
            Impersonate::Chrome106 => 4,
            Impersonate::Chrome107 => 5,
            Impersonate::Chrome108 => 6,
            Impersonate::Chrome109 => 7,
            Impersonate::Chrome114 => 8,
            Impersonate::Chrome116 => 9,
            Impersonate::Chrome117 => 10,
            Impersonate::Chrome118 => 11,
            Impersonate::Chrome119 => 12,
            Impersonate::Chrome120 => 13,
            Impersonate::Chrome123 => 14,
            Impersonate::Chrome124 => 15,
            Impersonate::Chrome126 => 16,
            Impersonate::Chrome127 => 17,
            Impersonate::Chrome128 => 18,
            Impersonate::Chrome129 => 19,
            Impersonate::Chrome130 => 20,
            Impersonate::Chrome131 => 21,
            Impersonate::SafariIos17_2 => 22,
            Impersonate::SafariIos17_4_1 => 23,
            Impersonate::SafariIos16_5 => 24,
            Impersonate::Safari15_3 => 25,
            Impersonate::Safari15_5 => 26,
            Impersonate::Safari15_6_1 => 27,
            Impersonate::Safari16 => 28,
            Impersonate::Safari16_5 => 29,
            Impersonate::Safari17_0 => 30,
            Impersonate::Safari17_2_1 => 31,
            Impersonate::Safari17_4_1 => 32,
            Impersonate::Safari17_5 => 33,
            Impersonate::Safari18 => 34,
            Impersonate::SafariIPad18 => 35,
            Impersonate::OkHttp3_9 => 36,
            Impersonate::OkHttp3_11 => 37,
            Impersonate::OkHttp3_13 => 38,
            Impersonate::OkHttp3_14 => 39,
            Impersonate::OkHttp4_9 => 40,
            Impersonate::OkHttp4_10 => 41,
            Impersonate::OkHttp5 => 42,
            Impersonate::Edge101 => 43,
            Impersonate::Edge122 => 44,
            Impersonate::Edge127 => 45,
        }
    }
}

/// Every profile, in registry order.
pub fn all() -> (r: Vec<Impersonate>)
    ensures
        r@ == all_profiles(),
        r@.len() == PROFILE_COUNT,
        forall|v: Impersonate| #[trigger] index_of(v) < PROFILE_COUNT && r@[index_of(v) as int] == v,
{
    vec![
        Impersonate::Chrome100,
        Impersonate::Chrome101,
        Impersonate::Chrome104,
        Impersonate::Chrome105,
        Impersonate::Chrome106,
        Impersonate::Chrome107,
        Impersonate::Chrome108,
        Impersonate::Chrome109,
        Impersonate::Chrome114,
        Impersonate::Chrome116,
        Impersonate::Chrome117,
        Impersonate::Chrome118,
        Impersonate::Chrome119,
        Impersonate::Chrome120,
        Impersonate::Chrome123,
        Impersonate::Chrome124,
        Impersonate::Chrome126,
        Impersonate::Chrome127,
        Impersonate::Chrome128,
        Impersonate::Chrome129,
        Impersonate::Chrome130,
        Impersonate::Chrome131,
        Impersonate::SafariIos17_2,
        Impersonate::SafariIos17_4_1,
        Impersonate::SafariIos16_5,
        Impersonate::Safari15_3,
        Impersonate::Safari15_5,
        Impersonate::Safari15_6_1,
        Impersonate::Safari16,
        Impersonate::Safari16_5,
        Impersonate::Safari17_0,
        Impersonate::Safari17_2_1,
        Impersonate::Safari17_4_1,
        Impersonate::Safari17_5,
        Impersonate::Safari18,
        Impersonate::SafariIPad18,
        Impersonate::OkHttp3_9,
        Impersonate::OkHttp3_11,
        Impersonate::OkHttp3_13,
        Impersonate::OkHttp3_14,
        Impersonate::OkHttp4_9,
        Impersonate::OkHttp4_10,
        Impersonate::OkHttp5,
        Impersonate::Edge101,
        Impersonate::Edge122,
        Impersonate::Edge127,
    ]
}

} // verus!

verus! {

impl Default for Impersonate {
    fn default() -> (r: Impersonate)
        ensures
            r == Impersonate::Chrome131,
    {
        Impersonate::Chrome131
    }
}

impl Impersonate {
    /// Looks a profile up by its canonical name, matched exactly and case-sensitively.
    pub fn parse(s: &str) -> (r: Result<Impersonate, ImpersonateError>)
        ensures
            r matches Ok(v) ==> name_of(v) == s@,
            forall|u: Impersonate| #[trigger] name_of(u) == s@ ==> r == Ok::<Impersonate, ImpersonateError>(u),
            r.is_err() <==> forall|v: Impersonate| name_of(v) != s@,
            r matches Err(ImpersonateError::UnknownIdentifier(t)) ==> t@ == s@,
            !(r matches Err(ImpersonateError::EngineConfiguration)),
    {
        let table = all();
        let mut i: usize = 0;
        while i < table.len()
            invariant
                table@ == all_profiles(),
                i <= table@.len(),
                forall|j: int| 0 <= j < i ==> name_of(#[trigger] table@[j]) != s@,
            decreases table@.len() - i,
        {
            let v = table[i];
            if crate::text::str_eq(v.as_str(), s) {
                proof {
                    assert forall|u: Impersonate| #[trigger] name_of(u) == s@ implies u == v by {
                        lemma_names_injective(u, v);
                    }
                }
                return Ok(v);
            }
            i = i + 1;
        }
        assert forall|v: Impersonate| name_of(v) != s@ by {
            assert(table@[index_of(v) as int] == v);
        }
        Err(ImpersonateError::UnknownIdentifier(s.to_owned()))
    }
}

/// Distinct profiles have distinct names.
#[verifier::rlimit(100)]
#[verifier::spinoff_prover]
pub proof fn lemma_names_injective(u: Impersonate, v: Impersonate)
    ensures
        name_of(u) == name_of(v) ==> u == v,
{
    reveal_strlit("chrome_100");
    reveal_strlit("chrome_101");
    reveal_strlit("chrome_104");
    reveal_strlit("chrome_105");
    reveal_strlit("chrome_106");
    reveal_strlit("chrome_107");
    reveal_strlit("chrome_108");
    reveal_strlit("chrome_109");
    reveal_strlit("chrome_114");
    reveal_strlit("chrome_116");
    reveal_strlit("chrome_117");
    reveal_strlit("chrome_118");
    reveal_strlit("chrome_119");
    reveal_strlit("chrome_120");
    reveal_strlit("chrome_123");
    reveal_strlit("chrome_124");
    reveal_strlit("chrome_126");
    reveal_strlit("chrome_127");
    reveal_strlit("chrome_128");
    reveal_strlit("chrome_129");
    reveal_strlit("chrome_130");
    reveal_strlit("chrome_131");
    reveal_strlit("safari_ios_17.2");
    reveal_strlit("safari_ios_17.4.1");
    reveal_strlit("safari_ios_16.5");
    reveal_strlit("safari_15.3");
    reveal_strlit("safari_15.5");
    reveal_strlit("safari_15.6.1");
    reveal_strlit("safari_16");
    reveal_strlit("safari_16.5");
    reveal_strlit("safari_17.0");
    reveal_strlit("safari_17.2.1");
    reveal_strlit("safari_17.4.1");
    reveal_strlit("safari_17.5");
    reveal_strlit("safari_18");
    reveal_strlit("safari_ipad_18");
    reveal_strlit("okhttp_3.9");
    reveal_strlit("okhttp_3.11");
    reveal_strlit("okhttp_3.13");
    reveal_strlit("okhttp_3.14");
    reveal_strlit("okhttp_4.9");
    reveal_strlit("okhttp_4.10");
    reveal_strlit("okhttp_5");
    reveal_strlit("edge_101");
    reveal_strlit("edge_122");
    reveal_strlit("edge_127");
    broadcast use vstd::string::group_string_axioms;
    if name_of(u) == name_of(v) && u != v {
        let a = name_of(u);
        let b = name_of(v);
        assert(a.len() == b.len());
        assert(0 < a.len() ==> a[0] == b[0]);
        assert(1 < a.len() ==> a[1] == b[1]);
        assert(2 < a.len() ==> a[2] == b[2]);
        assert(3 < a.len() ==> a[3] == b[3]);
        assert(4 < a.len() ==> a[4] == b[4]);
        assert(5 < a.len() ==> a[5] == b[5]);
        assert(6 < a.len() ==> a[6] == b[6]);
        assert(7 < a.len() ==> a[7] == b[7]);
        assert(8 < a.len() ==> a[8] == b[8]);
        assert(9 < a.len() ==> a[9] == b[9]);
        assert(10 < a.len() ==> a[10] == b[10]);
        assert(11 < a.len() ==> a[11] == b[11]);
        assert(12 < a.len() ==> a[12] == b[12]);
        assert(13 < a.len() ==> a[13] == b[13]);
        assert(14 < a.len() ==> a[14] == b[14]);
        assert(15 < a.len() ==> a[15] == b[15]);
        assert(16 < a.len() ==> a[16] == b[16]);
    }
}

} // verus!
