use vstd::prelude::*;
use crate::text::{is_text, owned};

verus! {

/// What `str::to_lowercase` makes of a string.
pub uninterp spec fn lower_of(s: Seq<char>) -> Seq<char>;

/// A character that lowercasing leaves as it is: ASCII, and not an upper-case letter.
pub open spec fn is_plain_lower_ascii(c: char) -> bool {
    (c as u32) < 128 && !(65 <= (c as u32) && (c as u32) <= 90)
}

/// Text that lowercasing leaves as it is.
pub open spec fn is_plain_lower(s: Seq<char>) -> bool {
    forall|i: int| 0 <= i < s.len() ==> is_plain_lower_ascii(#[trigger] s[i])
}

/// Relies on `str::to_lowercase`: the result depends on the characters alone, and ASCII
/// text without upper-case letters comes back unchanged.
#[verifier::external_body]
fn lowercase(s: &str) -> (r: String)
    ensures
        r@ == lower_of(s@),
        is_plain_lower(s@) ==> r@ == s@,
{
    s.to_lowercase()
}

/// Security scheme of a wireless network.
#[derive(Debug, Clone, PartialEq, Eq)]
pub enum WifiSecurity {
    Open,
    Wep,
    Psk,
    Other(String),
}

/// Operating mode of a wireless device.
#[derive(Debug, Clone, PartialEq, Eq)]
pub enum WifiMode {
    AdHoc,
    Station,
    AccessPoint,
    Unset,
    Other(String),
}

/// Link state of a wireless station.
#[derive(Debug, Clone, Copy, PartialEq, Eq, Structural)]
pub enum WifiState {
    Disconnected,
    Connected,
}

/// How to join a network: by name alone, or with a pre-shared key.
#[derive(Debug, Clone, PartialEq, Eq)]
pub enum ConnectionParameters {
    Ssid { ssid: String },
    PresharedKey { ssid: String, psk: String },
}

/// A network as seen in a scan.
#[derive(Debug, Clone)]
pub struct WifiNetwork {
    pub ssid: String,
    pub security: WifiSecurity,
    pub signal: i16,
    pub known: bool,
    pub interface: Option<String>,
}

/// A wireless device with its adapter and, when connected, its network.
#[derive(Debug, Clone)]
pub struct WifiDevice {
    pub name: String,
    pub phy: String,
    pub state: WifiState,
    pub address: String,
    pub powered: bool,
    pub scanning: bool,
    pub mode: WifiMode,
    pub supported_modes: Vec<WifiMode>,
    pub model: String,
    pub vendor: String,
    pub connected_network: Option<WifiNetwork>,
}

/// The security scheme that a lowercased name stands for; `given` is kept for any other name.
pub open spec fn security_named(r: WifiSecurity, lowered: Seq<char>, given: Seq<char>) -> bool {
    if lowered == "psk"@ {
        r == WifiSecurity::Psk
    } else if lowered == "wep"@ {
        r == WifiSecurity::Wep
    } else if lowered == "open"@ {
        r == WifiSecurity::Open
    } else {
        r matches WifiSecurity::Other(s) && s@ == given
    }
}

/// The name of a security scheme, as `security_named` reads it.
pub open spec fn security_name(s: WifiSecurity) -> Seq<char> {
    match s {
        WifiSecurity::Psk => "psk"@,
        WifiSecurity::Wep => "wep"@,
        WifiSecurity::Open => "open"@,
        WifiSecurity::Other(o) => o@,
    }
}

impl WifiSecurity {
    /// Reads a scheme name, ignoring case; any other name is kept as it was given.
    pub fn from(sec: String) -> (r: WifiSecurity)
        ensures
            security_named(r, lower_of(sec@), sec@),
            is_plain_lower(sec@) ==> security_named(r, sec@, sec@),
    {
        let lowered = lowercase(sec.as_str());
        WifiSecurity::from_lowered(&lowered, sec)
    }

    /// The scheme that an already lowercased name stands for; `given`, the name as it was
    /// given, is kept for any other name.
    pub fn from_lowered(lowered: &String, given: String) -> (r: WifiSecurity)
        ensures
            security_named(r, lowered@, given@),
    {
        if is_text(lowered, "psk") {
            WifiSecurity::Psk
        } else if is_text(lowered, "wep") {
            WifiSecurity::Wep
        } else if is_text(lowered, "open") {
            WifiSecurity::Open
        } else {
            WifiSecurity::Other(given)
        }
    }

    /// The name of the scheme.
    pub fn name(&self) -> (r: String)
        ensures
            r@ == security_name(*self),
    {
        match self {
            WifiSecurity::Psk => owned("psk"),
            WifiSecurity::Wep => owned("wep"),
            WifiSecurity::Open => owned("open"),
            WifiSecurity::Other(o) => o.clone(),
        }
    }
}

/// The mode that a lowercased mode name stands for.
pub open spec fn mode_named(r: WifiMode, lowered: Seq<char>) -> bool {
    if lowered == "station"@ {
        r == WifiMode::Station
    } else if lowered == "ad-hoc"@ || lowered == "adhoc"@ {
        r == WifiMode::AdHoc
    } else if lowered == "ap"@ || lowered == "accesspoint"@ || lowered == "access point"@
        || lowered == "access-point"@ {
        r == WifiMode::AccessPoint
    } else if lowered.len() == 0 {
        r == WifiMode::Unset
    } else {
        r matches WifiMode::Other(s) && s@ == lowered
    }
}

impl WifiMode {
    /// Reads a mode name, ignoring case; an unknown name is kept in lower case.
    pub fn from(mode: &str) -> (r: WifiMode)
        ensures
            mode_named(r, lower_of(mode@)),
    {
        let lowered = lowercase(mode);
        WifiMode::from_lowered(lowered)
    }

    /// The mode that an already lowercased mode name stands for.
    pub fn from_lowered(lowered: String) -> (r: WifiMode)
        ensures
            mode_named(r, lowered@),
    {
        if is_text(&lowered, "station") {
            WifiMode::Station
        } else if is_text(&lowered, "ad-hoc") || is_text(&lowered, "adhoc") {
            WifiMode::AdHoc
        } else if is_text(&lowered, "ap") || is_text(&lowered, "accesspoint") || is_text(
            &lowered,
            "access point",
        ) || is_text(&lowered, "access-point") {
            WifiMode::AccessPoint
        } else if lowered.as_str().is_empty() {
            WifiMode::Unset
        } else {
            WifiMode::Other(lowered)
        }
    }
}

impl WifiState {
    /// Reads a station state, ignoring case: only "connected" means connected.
    pub fn from(state: &str) -> (r: WifiState)
        ensures
            r == (if lower_of(state@) == "connected"@ {
                WifiState::Connected
            } else {
                WifiState::Disconnected
            }),
    {
        let lowered = lowercase(state);
        WifiState::from_lowered(&lowered)
    }

    /// The state that an already lowercased state name stands for.
    pub fn from_lowered(lowered: &String) -> (r: WifiState)
        ensures
            r == (if lowered@ == "connected"@ {
                WifiState::Connected
            } else {
                WifiState::Disconnected
            }),
    {
        if is_text(lowered, "connected") {
            WifiState::Connected
        } else {
            WifiState::Disconnected
        }
    }
}

/// Reading a security scheme ignores case: two names that lowercase alike and name a known
/// scheme give the same scheme.
pub proof fn lemma_security_ignores_case(a: String, b: String, ra: WifiSecurity, rb: WifiSecurity)
    requires
        lower_of(a@) == lower_of(b@),
        lower_of(a@) == "psk"@ || lower_of(a@) == "wep"@ || lower_of(a@) == "open"@,
        security_named(ra, lower_of(a@), a@),
        security_named(rb, lower_of(b@), b@),
    ensures
        ra == rb,
{
}

/// The three known schemes survive a trip through their name: each name is already in
/// lower case, so reading it back gives the same scheme.
pub proof fn lemma_security_round_trip(s: WifiSecurity)
    requires
        !(s is Other),
    ensures
        is_plain_lower(security_name(s)),
        security_named(s, security_name(s), security_name(s)),
{
    reveal_strlit("psk");
    reveal_strlit("wep");
    reveal_strlit("open");
    assert("psk"@ != "wep"@ && "psk"@ != "open"@ && "wep"@ != "open"@) by {
        assert("psk"@[0] != "wep"@[0]);
        assert("psk"@[0] != "open"@[0]);
        assert("wep"@[0] != "open"@[0]);
    }
}

} // verus!
