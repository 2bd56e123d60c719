use vstd::prelude::*;
use crate::state::Status;
use crate::text::{is_text, joined, owned};
use crate::wifi::{
    is_plain_lower, lower_of, mode_named, security_named, ConnectionParameters, WifiDevice, WifiMode,
    WifiNetwork, WifiSecurity, WifiState,
};

verus! {

/// Well-known bus name of the wireless daemon.
pub const IWD_SERVICE: &'static str = "net.connman.iwd";

/// Bus name that this daemon requests for its own objects.
pub const DBUS_NAME: &'static str = "com.vagabond.manager";

/// Object path of the signal-level agent.
pub const SIGNAL_AGENT_PATH: &'static str = "/iwd/agent";

/// Interface implemented by the signal-level agent.
pub const SIGNAL_AGENT: &'static str = "net.connman.iwd.SignalLevelAgent";

/// Interface names of the objects this daemon reads.
pub const NETWORK_INTERFACE: &'static str = "net.connman.iwd.Network";
pub const STATION_INTERFACE: &'static str = "net.connman.iwd.Station";
pub const DEVICE_INTERFACE: &'static str = "net.connman.iwd.Device";
pub const ADAPTER_INTERFACE: &'static str = "net.connman.iwd.Adapter";

/// Seconds between losing the bus connection and connecting again.
pub const RECONNECT_DELAY_SECS: u64 = 5;

/// Milliseconds that one bus call may take.
pub const CALL_TIMEOUT_MS: u64 = 5000;

/// What went wrong while talking to the wireless daemon.
#[derive(Debug, Clone, PartialEq, Eq)]
pub enum IwdError {
    /// No bus connection has been made yet.
    NotConnected,
    /// The bus connection broke, for the reason given.
    ConnectionFailed(String),
    /// No object implements the station interface.
    NoStation,
    /// No object implements the device interface.
    NoDevice,
    /// The device has no name to address it by.
    UnnamedDevice,
}

impl IwdError {
    /// The text shown to a user.
    pub fn message(&self) -> (r: String)
        ensures
            r@ == iwd_error_text(*self),
    {
        match self {
            IwdError::NotConnected => owned("dbus connection not available!"),
            IwdError::ConnectionFailed(e) => joined("dbus in failed state ", e.as_str()),
            IwdError::NoStation => owned("No wifi stations available!"),
            IwdError::NoDevice => owned("No wireless devices found!"),
            IwdError::UnnamedDevice => owned("Wireless device has no name!"),
        }
    }
}

/// The text of each error.
pub open spec fn iwd_error_text(e: IwdError) -> Seq<char> {
    match e {
        IwdError::NotConnected => "dbus connection not available!"@,
        IwdError::ConnectionFailed(r) => "dbus in failed state "@ + r@,
        IwdError::NoStation => "No wifi stations available!"@,
        IwdError::NoDevice => "No wireless devices found!"@,
        IwdError::UnnamedDevice => "Wireless device has no name!"@,
    }
}

/// State of the message-bus connection; `C` is the connection handle.
#[derive(Debug)]
pub enum DbusState<C> {
    Stopped,
    Connected(C),
    Failed(String),
}

impl<C> DbusState<C> {
    /// The live connection, or why there is none.
    pub fn get_connection(&self) -> (r: Result<&C, IwdError>)
        ensures
            match *self {
                DbusState::Stopped => r == Err::<&C, IwdError>(IwdError::NotConnected),
                DbusState::Connected(c) => r == Ok::<&C, IwdError>(&c),
                DbusState::Failed(e) => r matches Err(IwdError::ConnectionFailed(m)) && m@ == e@,
            },
    {
        match self {
            DbusState::Stopped => Err(IwdError::NotConnected),
            DbusState::Connected(c) => Ok(c),
            DbusState::Failed(e) => Err(IwdError::ConnectionFailed(e.clone())),
        }
    }

    /// Whether a connection is live.
    pub fn is_connected(&self) -> (r: bool)
        ensures
            r == (*self is Connected),
    {
        match self {
            DbusState::Connected(_) => true,
            _ => false,
        }
    }
}

/// What to do once the bus connection has ended.
#[derive(Debug, Clone, Copy, PartialEq, Eq, Structural)]
pub enum ReconnectAction {
    /// Wait this many seconds, then connect again.
    RetryAfter(u64),
    /// The daemon is shutting down: stay disconnected.
    Stop,
}

/// What follows the end of the bus connection.
pub open spec fn reconnect_step(status: Status) -> ReconnectAction {
    if status == Status::ShuttingDown {
        ReconnectAction::Stop
    } else {
        ReconnectAction::RetryAfter(RECONNECT_DELAY_SECS)
    }
}

/// The decision taken when the bus connection ends: connect again after a fixed pause,
/// unless the daemon is shutting down.
pub fn after_connection_lost(status: Status) -> (r: ReconnectAction)
    ensures
        r == reconnect_step(status),
{
    if status == Status::ShuttingDown {
        ReconnectAction::Stop
    } else {
        ReconnectAction::RetryAfter(RECONNECT_DELAY_SECS)
    }
}

/// Unless the daemon is shutting down, a lost bus connection is tried again within six
/// seconds.
pub proof fn lemma_reconnect_within_six_seconds(status: Status)
    requires
        status != Status::ShuttingDown,
    ensures
        reconnect_step(status) matches ReconnectAction::RetryAfter(d) && d <= 6,
{
}

/// Signal-strength thresholds, in dBm, handed to the signal-level agent registration.
pub fn signal_levels() -> (r: Vec<i16>)
    ensures
        r@ == seq![-50i16, -55i16, -60i16, -65i16, -70i16, -75i16, -80i16, -85i16, -90i16],
{
    vec![-50, -55, -60, -65, -70, -75, -80, -85, -90]
}

/// An object of the remote tree: its path and the interfaces it implements.
#[derive(Debug, Clone)]
pub struct ManagedObject {
    pub path: String,
    pub interfaces: Vec<String>,
}

/// Whether an object implements an interface.
pub open spec fn implements(o: ManagedObject, iface: Seq<char>) -> bool {
    exists|j: int| 0 <= j < o.interfaces@.len() && #[trigger] o.interfaces@[j]@ == iface
}

/// The paths of the objects that implement `iface`, in the order given.
pub open spec fn paths_implementing(objects: Seq<ManagedObject>, iface: Seq<char>) -> Seq<Seq<char>>
    decreases objects.len(),
{
    if objects.len() == 0 {
        Seq::empty()
    } else {
        let rest = paths_implementing(objects.drop_last(), iface);
        if implements(objects.last(), iface) {
            rest.push(objects.last().path@)
        } else {
            rest
        }
    }
}

fn implements_exec(o: &ManagedObject, iface: &str) -> (r: bool)
    ensures
        r == implements(*o, iface@),
{
    let mut j: usize = 0;
    while j < o.interfaces.len()
        invariant
            j <= o.interfaces.len(),
            forall|k: int| 0 <= k < j ==> o.interfaces@[k]@ != iface@,
        decreases o.interfaces.len() - j,
    {
        if is_text(&o.interfaces[j], iface) {
            return true;
        }
        j = j + 1;
    }
    false
}

/// The paths of all objects that implement `iface`.
pub fn get_all(objects: &Vec<ManagedObject>, iface: &str) -> (r: Vec<String>)
    ensures
        crate::text::views(r@) == paths_implementing(objects@, iface@),
{
    let mut r: Vec<String> = Vec::new();
    let mut i: usize = 0;
    while i < objects.len()
        invariant
            i <= objects.len(),
            crate::text::views(r@) == paths_implementing(objects@.subrange(0, i as int), iface@),
        decreases objects.len() - i,
    {
        assert(objects@.subrange(0, i + 1).drop_last() =~= objects@.subrange(0, i as int));
        if implements_exec(&objects[i], iface) {
            r.push(objects[i].path.clone());
            assert(crate::text::views(r@) =~= paths_implementing(
                objects@.subrange(0, i as int),
                iface@,
            ).push(objects@[i as int].path@));
        }
        i = i + 1;
    }
    assert(objects@.subrange(0, objects.len() as int) =~= objects@);
    r
}

/// The path of the first object that implements `iface`, if any.
pub fn get_first(objects: &Vec<ManagedObject>, iface: &str) -> (r: Option<String>)
    ensures
        match r {
            Some(p) => paths_implementing(objects@, iface@).len() > 0 && p@ == paths_implementing(
                objects@,
                iface@,
            )[0],
            None => paths_implementing(objects@, iface@).len() == 0,
        },
{
    let all = get_all(objects, iface);
    if all.len() > 0 {
        Some(all[0].clone())
    } else {
        None
    }
}

/// Cached properties of a network object.
#[derive(Debug, Clone)]
pub struct NetworkProperties {
    pub name: Option<String>,
    pub connected: Option<bool>,
    pub type_: Option<String>,
    pub device: Option<String>,
    pub known_network: Option<String>,
}

/// Cached properties of a station object.
#[derive(Debug, Clone)]
pub struct StationProperties {
    pub state: Option<String>,
    pub scanning: Option<bool>,
    pub connected_network: Option<String>,
}

/// Cached properties of a device object.
#[derive(Debug, Clone)]
pub struct DeviceProperties {
    pub name: Option<String>,
    pub address: Option<String>,
    pub powered: Option<bool>,
    pub mode: Option<String>,
    pub adapter: Option<String>,
}

/// Cached properties of an adapter object.
#[derive(Debug, Clone)]
pub struct AdapterProperties {
    pub name: Option<String>,
    pub model: Option<String>,
    pub vendor: Option<String>,
    pub powered: Option<bool>,
    pub supported_modes: Option<Vec<String>>,
}

/// What `str::trim` makes of a string.
pub uninterp spec fn trimmed_of(s: Seq<char>) -> Seq<char>;

/// A printable ASCII character other than the space: never whitespace.
pub open spec fn is_graphic_ascii(c: char) -> bool {
    33 <= (c as u32) && (c as u32) <= 126
}

/// Text that neither starts nor ends with whitespace, or is empty.
pub open spec fn has_graphic_ends(s: Seq<char>) -> bool {
    s.len() == 0 || (is_graphic_ascii(s[0]) && is_graphic_ascii(s[s.len() - 1]))
}

/// A known-network path without surrounding whitespace is known exactly when it is not
/// the root path.
pub open spec fn known_of_plain_path(kn: Option<String>, known: bool) -> bool {
    match kn {
        Some(q) => has_graphic_ends(q@) ==> known == (q@ != "/"@),
        None => true,
    }
}

/// Relies on `str::trim`: the result depends on the characters alone, and text that
/// neither starts nor ends with whitespace comes back unchanged.
#[verifier::external_body]
fn trimmed(s: &str) -> (r: String)
    ensures
        r@ == trimmed_of(s@),
        has_graphic_ends(s@) ==> r@ == s@,
{
    s.trim().to_string()
}

/// A text property, or the empty text when it is missing.
pub open spec fn text_or_empty(o: Option<String>) -> Seq<char> {
    match o {
        Some(s) => s@,
        None => Seq::empty(),
    }
}

/// A text property, or "unknown" when it is missing or blank.
pub open spec fn text_or_unknown(o: Option<String>) -> Seq<char> {
    match o {
        Some(s) => if s@.len() > 0 { s@ } else { "unknown"@ },
        None => "unknown"@,
    }
}

/// A hardware address, or the all-zero address when it is missing or blank.
pub open spec fn address_or_zero(o: Option<String>) -> Seq<char> {
    match o {
        Some(s) => if s@.len() > 0 { s@ } else { "00:00:00:00:00:00"@ },
        None => "00:00:00:00:00:00"@,
    }
}

/// Signal strength in dBm from the bus's hundredths of dBm, rounded toward zero.
pub open spec fn dbm_of(rssi: i16) -> int {
    if rssi < 0 {
        -((-rssi) / 100)
    } else {
        rssi / 100
    }
}

/// Whether a known-network property points at a known network: "/" is the empty path.
pub open spec fn is_known_path(kn: Option<String>) -> bool {
    match kn {
        Some(p) => trimmed_of(p@) != "/"@,
        None => false,
    }
}

fn text_or_empty_exec(o: &Option<String>) -> (r: String)
    ensures
        r@ == text_or_empty(*o),
{
    match o {
        Some(s) => s.clone(),
        None => String::new(),
    }
}

fn text_or_unknown_exec(o: &Option<String>) -> (r: String)
    ensures
        r@ == text_or_unknown(*o),
{
    match o {
        Some(s) => if s.as_str().is_empty() {
            owned("unknown")
        } else {
            s.clone()
        },
        None => owned("unknown"),
    }
}

/// Hundredths of dBm to dBm, rounded toward zero.
pub fn signal_dbm(rssi: i16) -> (r: i16)
    ensures
        r as int == dbm_of(rssi),
{
    if rssi < 0 {
        let m: i32 = -(rssi as i32);
        let q: i32 = m / 100;
        (-q) as i16
    } else {
        rssi / 100
    }
}

/// The scan record of a network reported at signal `rssi` (hundredths of dBm).
pub fn network_record(props: &NetworkProperties, rssi: i16) -> (r: WifiNetwork)
    ensures
        r.ssid@ == text_or_empty(props.name),
        security_named(r.security, lower_of(text_or_empty(props.type_)), text_or_empty(props.type_)),
        is_plain_lower(text_or_empty(props.type_)) ==> security_named(r.security, text_or_empty(props.type_), text_or_empty(props.type_)),
        r.signal as int == dbm_of(rssi),
        r.known == is_known_path(props.known_network),
        known_of_plain_path(props.known_network, r.known),
        r.interface.is_none(),
{
    let known = match &props.known_network {
        Some(p) => {
            let t = trimmed(p.as_str());
            !is_text(&t, "/")
        },
        None => false,
    };
    WifiNetwork {
        ssid: text_or_empty_exec(&props.name),
        security: WifiSecurity::from(text_or_empty_exec(&props.type_)),
        signal: signal_dbm(rssi),
        known,
        interface: None,
    }
}

/// The scan records of networks listed with their signal, in the order the station gave.
pub fn network_records(networks: &Vec<(NetworkProperties, i16)>) -> (r: Vec<WifiNetwork>)
    ensures
        r@.len() == networks@.len(),
        forall|i: int|
            0 <= i < r@.len() ==> {
                let (p, rssi) = #[trigger] networks@[i];
                &&& r@[i].ssid@ == text_or_empty(p.name)
                &&& security_named(r@[i].security, lower_of(text_or_empty(p.type_)), text_or_empty(p.type_))
                &&& is_plain_lower(text_or_empty(p.type_)) ==> security_named(r@[i].security, text_or_empty(p.type_), text_or_empty(p.type_))
                &&& r@[i].signal as int == dbm_of(rssi)
                &&& r@[i].known == is_known_path(p.known_network)
                &&& known_of_plain_path(p.known_network, r@[i].known)
                &&& r@[i].interface.is_none()
            },
{
    let mut r: Vec<WifiNetwork> = Vec::new();
    let mut i: usize = 0;
    while i < networks.len()
        invariant
            i <= networks.len(),
            r@.len() == i,
            forall|k: int|
                0 <= k < i ==> {
                    let (p, rssi) = #[trigger] networks@[k];
                    &&& r@[k].ssid@ == text_or_empty(p.name)
                    &&& security_named(r@[k].security, lower_of(text_or_empty(p.type_)), text_or_empty(p.type_))
                    &&& is_plain_lower(text_or_empty(p.type_)) ==> security_named(r@[k].security, text_or_empty(p.type_), text_or_empty(p.type_))
                    &&& r@[k].signal as int == dbm_of(rssi)
                    &&& r@[k].known == is_known_path(p.known_network)
                    &&& known_of_plain_path(p.known_network, r@[k].known)
                    &&& r@[k].interface.is_none()
                },
        decreases networks.len() - i,
    {
        let rec = network_record(&networks[i].0, networks[i].1);
        r.push(rec);
        i = i + 1;
    }
    r
}

/// The station's state, read from its property ("" when missing).
pub open spec fn station_state(station: StationProperties) -> WifiState {
    if lower_of(text_or_empty(station.state)) == "connected"@ {
        WifiState::Connected
    } else {
        WifiState::Disconnected
    }
}

/// Reads the station's state property.
pub fn station_state_exec(station: &StationProperties) -> (r: WifiState)
    ensures
        r == station_state(*station),
{
    let s = text_or_empty_exec(&station.state);
    WifiState::from(s.as_str())
}

/// The record of the network a connected station is on.
pub open spec fn is_connected_record(r: WifiNetwork, net: NetworkProperties, device: DeviceProperties) -> bool {
    &&& r.ssid@ == text_or_empty(net.name)
    &&& security_named(r.security, lower_of(text_or_empty(net.type_)), text_or_empty(net.type_))
    &&& r.signal == -50
    &&& r.known
    &&& r.interface == device.name
}

/// The view of the wireless device made from its station, device and adapter objects,
/// and from the network that the station is connected to when it is.
pub fn wifi_device(
    station: &StationProperties,
    device: &DeviceProperties,
    adapter: &AdapterProperties,
    network: &Option<NetworkProperties>,
) -> (r: WifiDevice)
    ensures
        r.name@ == text_or_unknown(device.name),
        r.phy@ == text_or_unknown(adapter.name),
        r.state == station_state(*station),
        r.address@ == address_or_zero(device.address),
        r.powered == match device.powered { Some(p) => p, None => true },
        r.scanning == match station.scanning { Some(s) => s, None => false },
        mode_named(r.mode, lower_of(text_or_empty(device.mode))),
        r.model@ == text_or_unknown(adapter.model),
        r.vendor@ == text_or_unknown(adapter.vendor),
        match adapter.supported_modes {
            Some(m) => r.supported_modes@.len() == m@.len() && forall|i: int|
                0 <= i < m@.len() ==> mode_named(#[trigger] r.supported_modes@[i], lower_of(m@[i]@)),
            None => r.supported_modes@.len() == 0,
        },
        match (station_state(*station), *network) {
            (WifiState::Connected, Some(net)) => r.connected_network matches Some(c)
                && is_connected_record(c, net, *device),
            _ => r.connected_network.is_none(),
        },
{
    let state = station_state_exec(station);
    let mut supported_modes: Vec<WifiMode> = Vec::new();
    match &adapter.supported_modes {
        Some(m) => {
            let mut i: usize = 0;
            while i < m.len()
                invariant
                    i <= m.len(),
                    supported_modes@.len() == i,
                    forall|k: int|
                        0 <= k < i ==> mode_named(#[trigger] supported_modes@[k], lower_of(m@[k]@)),
                decreases m.len() - i,
            {
                supported_modes.push(WifiMode::from(m[i].as_str()));
                i = i + 1;
            }
        },
        None => {},
    }
    let connected_network = match (state, network) {
        (WifiState::Connected, Some(net)) => Some(
            WifiNetwork {
                ssid: text_or_empty_exec(&net.name),
                security: WifiSecurity::from(text_or_empty_exec(&net.type_)),
                signal: -50,
                known: true,
                interface: device.name.clone(),
            },
        ),
        _ => None,
    };
    let address = match &device.address {
        Some(a) => if a.as_str().is_empty() {
            owned("00:00:00:00:00:00")
        } else {
            a.clone()
        },
        None => owned("00:00:00:00:00:00"),
    };
    let mode_text = text_or_empty_exec(&device.mode);
    WifiDevice {
        name: text_or_unknown_exec(&device.name),
        phy: text_or_unknown_exec(&adapter.name),
        state,
        address,
        powered: match device.powered {
            Some(p) => p,
            None => true,
        },
        scanning: match station.scanning {
            Some(s) => s,
            None => false,
        },
        mode: WifiMode::from(mode_text.as_str()),
        supported_modes,
        model: text_or_unknown_exec(&adapter.model),
        vendor: text_or_unknown_exec(&adapter.vendor),
        connected_network,
    }
}

/// The command-line arguments of `iwctl` that join a network on the named device.
pub open spec fn iwctl_connect_spec(device: Seq<char>, params: ConnectionParameters) -> Seq<Seq<char>> {
    match params {
        ConnectionParameters::Ssid { ssid } => seq![
            "station"@,
            device,
            "connect"@,
            ssid@,
            "--dont-ask"@,
        ],
        ConnectionParameters::PresharedKey { ssid, psk } => seq![
            "station"@,
            device,
            "connect"@,
            ssid@,
            "--passphrase"@,
            psk@,
            "--dont-ask"@,
        ],
    }
}

/// Arguments of `iwctl` that join a network with the first device; `iwctl` registers the
/// credential agent that this process cannot.
pub fn iwctl_connect_args(device: &DeviceProperties, params: &ConnectionParameters) -> (r: Result<Vec<String>, IwdError>)
    ensures
        match device.name {
            Some(n) => r matches Ok(v) && crate::text::views(v@) == iwctl_connect_spec(n@, *params),
            None => r == Err::<Vec<String>, IwdError>(IwdError::UnnamedDevice),
        },
{
    let name = match &device.name {
        Some(n) => n,
        None => return Err(IwdError::UnnamedDevice),
    };
    let mut v: Vec<String> = Vec::new();
    v.push(owned("station"));
    v.push(name.clone());
    v.push(owned("connect"));
    match params {
        ConnectionParameters::Ssid { ssid } => {
            v.push(ssid.clone());
        },
        ConnectionParameters::PresharedKey { ssid, psk } => {
            v.push(ssid.clone());
            v.push(owned("--passphrase"));
            v.push(psk.clone());
        },
    }
    v.push(owned("--dont-ask"));
    assert(crate::text::views(v@) =~= iwctl_connect_spec(name@, *params));
    Ok(v)
}

} // verus!
