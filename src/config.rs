use vstd::prelude::*;
use crate::net::{IpAddress, Subnet};
use crate::text::{owned, views};

verus! {

/// DNS resolver settings.
#[derive(Debug, Clone)]
pub struct DNSConfig {
    pub enabled: bool,
    pub block_malicious: bool,
    pub port: u16,
    pub servers: Vec<IpAddress>,
    pub extra_options: String,
}

/// A range of addresses handed out by the DHCP server.
#[derive(Debug, Clone, Copy, PartialEq, Eq, Structural)]
pub struct DHCPRange {
    pub start: IpAddress,
    pub end: IpAddress,
}

/// DHCP settings of one network.
#[derive(Debug, Clone, Copy, PartialEq, Eq, Structural)]
pub struct DHCPNetwork {
    pub range: DHCPRange,
}

/// DHCP server settings.
#[derive(Debug, Clone)]
pub struct DHCPConfig {
    pub enabled: bool,
    pub extra_config: String,
    pub lan: DHCPNetwork,
    pub wlan: DHCPNetwork,
}

/// The wired local network.
#[derive(Debug, Clone)]
pub struct NetworkLan {
    pub enabled: bool,
    pub interface: String,
    pub subnet: Subnet,
    pub address: IpAddress,
}

/// The wireless local network served by the access point.
#[derive(Debug, Clone)]
pub struct NetworkWlan {
    pub enabled: bool,
    pub interface: String,
    pub subnet: Subnet,
    pub address: IpAddress,
    pub channel: u16,
    pub hostapd_config: String,
    pub ssid: String,
}

/// An uplink, by how its address is obtained.
#[derive(Debug, Clone)]
pub enum NetworkWan {
    /// Addressed by a DHCP client.
    DHCP { interface: String },
    /// A wireless uplink joined through the wireless daemon.
    Wifi { interface: String },
    /// Addressed by something else.
    Unmanaged { interface: String },
}

/// Network settings.
#[derive(Debug, Clone)]
pub struct NetworkConfig {
    pub domain: String,
    pub manage_routes: bool,
    pub lan: NetworkLan,
    pub wlan: NetworkWlan,
    pub wans: Vec<NetworkWan>,
    /// Whether a wireless uplink also gets a DHCP client.
    pub wifi_wan_dhcp: bool,
}

/// A WireGuard peer.
#[derive(Debug, Clone)]
pub struct WireguardPeer {
    pub public_key: String,
    pub endpoint: IpAddress,
    pub endpoint_port: u16,
    pub allowed_ips: String,
}

/// WireGuard tunnel settings.
#[derive(Debug, Clone)]
pub struct WireguardConfig {
    pub enabled: bool,
    pub interface: String,
    pub address: IpAddress,
    pub private_key: String,
    pub peers: Vec<WireguardPeer>,
}

/// The whole configuration.
#[derive(Debug, Clone)]
pub struct Config {
    pub dns: DNSConfig,
    pub dhcp: DHCPConfig,
    pub wireguard: WireguardConfig,
    pub network: NetworkConfig,
}

/// The configuration as loaded, shared read-only by every component.
#[derive(Debug, Clone)]
pub struct VagabondConfig(pub Config);

/// 192.168.1.100, first address handed out by default.
pub const DEFAULT_RANGE_START: u32 = 0xC0A8_0164;

/// 192.168.1.199, last address handed out by default.
pub const DEFAULT_RANGE_END: u32 = 0xC0A8_01C7;

impl Default for DNSConfig {
    fn default() -> (r: Self)
        ensures
            r.enabled,
            r.block_malicious,
            r.port == 53,
            r.servers@ == seq![IpAddress::V4(0x0101_0101), IpAddress::V4(0x0100_0001)],
            r.extra_options@.len() == 0,
    {
        DNSConfig {
            enabled: true,
            block_malicious: true,
            port: 53,
            servers: vec![IpAddress::V4(0x0101_0101), IpAddress::V4(0x0100_0001)],
            extra_options: String::new(),
        }
    }
}

impl Default for DHCPRange {
    fn default() -> (r: Self)
        ensures
            r.start == IpAddress::V4(DEFAULT_RANGE_START),
            r.end == IpAddress::V4(DEFAULT_RANGE_END),
    {
        DHCPRange { start: IpAddress::V4(DEFAULT_RANGE_START), end: IpAddress::V4(DEFAULT_RANGE_END) }
    }
}

impl Default for DHCPNetwork {
    fn default() -> (r: Self)
        ensures
            r.range.start == IpAddress::V4(DEFAULT_RANGE_START),
            r.range.end == IpAddress::V4(DEFAULT_RANGE_END),
    {
        DHCPNetwork { range: DHCPRange::default() }
    }
}

impl Default for DHCPConfig {
    fn default() -> (r: Self)
        ensures
            r.enabled,
            r.extra_config@.len() == 0,
            r.lan.range == (DHCPRange { start: IpAddress::V4(DEFAULT_RANGE_START), end: IpAddress::V4(DEFAULT_RANGE_END) }),
            r.wlan.range == (DHCPRange { start: IpAddress::V4(DEFAULT_RANGE_START), end: IpAddress::V4(DEFAULT_RANGE_END) }),
    {
        DHCPConfig {
            enabled: true,
            extra_config: String::new(),
            lan: DHCPNetwork::default(),
            wlan: DHCPNetwork::default(),
        }
    }
}

impl Default for NetworkLan {
    fn default() -> (r: Self)
        ensures
            r.enabled,
            r.interface@ == "eth1"@,
            r.subnet == (Subnet { address: IpAddress::V4(0xC0A8_0100), prefix_len: 24 }),
            r.address == IpAddress::V4(0xC0A8_0101),
    {
        NetworkLan {
            enabled: true,
            interface: owned("eth1"),
            subnet: Subnet { address: IpAddress::V4(0xC0A8_0100), prefix_len: 24 },
            address: IpAddress::V4(0xC0A8_0101),
        }
    }
}

impl Default for NetworkWlan {
    fn default() -> (r: Self)
        ensures
            !r.enabled,
            r.interface@ == "wlan0"@,
            r.subnet == (Subnet { address: IpAddress::V4(0xC0A8_0200), prefix_len: 24 }),
            r.address == IpAddress::V4(0xC0A8_0201),
            r.channel == 1,
            r.hostapd_config@.len() == 0,
            r.ssid@ == "vagabond"@,
    {
        NetworkWlan {
            enabled: false,
            interface: owned("wlan0"),
            subnet: Subnet { address: IpAddress::V4(0xC0A8_0200), prefix_len: 24 },
            address: IpAddress::V4(0xC0A8_0201),
            channel: 1,
            hostapd_config: String::new(),
            ssid: owned("vagabond"),
        }
    }
}

impl Default for NetworkConfig {
    fn default() -> (r: Self)
        ensures
            r.domain@ == "vagabond.lan"@,
            r.manage_routes,
            r.lan.enabled && r.lan.interface@ == "eth1"@,
            r.lan.subnet == (Subnet { address: IpAddress::V4(0xC0A8_0100), prefix_len: 24 }),
            r.lan.address == IpAddress::V4(0xC0A8_0101),
            !r.wlan.enabled && r.wlan.interface@ == "wlan0"@,
            r.wlan.subnet == (Subnet { address: IpAddress::V4(0xC0A8_0200), prefix_len: 24 }),
            r.wlan.address == IpAddress::V4(0xC0A8_0201),
            r.wlan.channel == 1 && r.wlan.ssid@ == "vagabond"@ && r.wlan.hostapd_config@.len() == 0,
            r.wans@.len() == 1,
            r.wans@[0] matches NetworkWan::DHCP { interface } && interface@ == "eth0"@,
            r.wifi_wan_dhcp,
    {
        NetworkConfig {
            domain: owned("vagabond.lan"),
            manage_routes: true,
            lan: NetworkLan::default(),
            wlan: NetworkWlan::default(),
            wans: vec![NetworkWan::DHCP { interface: owned("eth0") }],
            wifi_wan_dhcp: true,
        }
    }
}

impl Default for WireguardConfig {
    fn default() -> (r: Self)
        ensures
            !r.enabled,
            r.interface@ == "wg0"@,
            r.address == IpAddress::V4(0),
            r.private_key@.len() == 0,
            r.peers@.len() == 0,
    {
        WireguardConfig {
            enabled: false,
            interface: owned("wg0"),
            address: IpAddress::V4(0),
            private_key: String::new(),
            peers: Vec::new(),
        }
    }
}

impl Default for Config {
    fn default() -> (r: Self)
        ensures
            r.dns.enabled && r.dns.block_malicious && r.dns.port == 53,
            r.dns.servers@ == seq![IpAddress::V4(0x0101_0101), IpAddress::V4(0x0100_0001)],
            r.dns.extra_options@.len() == 0,
            r.dhcp.enabled && r.dhcp.extra_config@.len() == 0,
            r.dhcp.lan.range == (DHCPRange { start: IpAddress::V4(DEFAULT_RANGE_START), end: IpAddress::V4(DEFAULT_RANGE_END) }),
            r.dhcp.wlan.range == (DHCPRange { start: IpAddress::V4(DEFAULT_RANGE_START), end: IpAddress::V4(DEFAULT_RANGE_END) }),
            !r.wireguard.enabled && r.wireguard.interface@ == "wg0"@,
            r.wireguard.address == IpAddress::V4(0) && r.wireguard.private_key@.len() == 0 && r.wireguard.peers@.len() == 0,
            r.network.domain@ == "vagabond.lan"@,
            r.network.manage_routes,
            r.network.lan.enabled && r.network.lan.interface@ == "eth1"@,
            r.network.lan.subnet == (Subnet { address: IpAddress::V4(0xC0A8_0100), prefix_len: 24 }),
            r.network.lan.address == IpAddress::V4(0xC0A8_0101),
            !r.network.wlan.enabled && r.network.wlan.interface@ == "wlan0"@,
            r.network.wlan.subnet == (Subnet { address: IpAddress::V4(0xC0A8_0200), prefix_len: 24 }),
            r.network.wlan.address == IpAddress::V4(0xC0A8_0201),
            r.network.wlan.channel == 1 && r.network.wlan.ssid@ == "vagabond"@,
            r.network.wans@.len() == 1,
            r.network.wans@[0] matches NetworkWan::DHCP { interface } && interface@ == "eth0"@,
            r.network.wifi_wan_dhcp,
    {
        Config {
            dns: DNSConfig::default(),
            dhcp: DHCPConfig::default(),
            wireguard: WireguardConfig::default(),
            network: NetworkConfig::default(),
        }
    }
}

impl NetworkWan {
    /// The interface name of an uplink.
    pub open spec fn name_spec(self) -> Seq<char> {
        match self {
            NetworkWan::DHCP { interface } => interface@,
            NetworkWan::Wifi { interface } => interface@,
            NetworkWan::Unmanaged { interface } => interface@,
        }
    }

    /// The interface name of the uplink.
    pub fn interface_name(&self) -> (r: String)
        ensures
            r@ == self.name_spec(),
    {
        match self {
            NetworkWan::DHCP { interface } | NetworkWan::Wifi { interface }
            | NetworkWan::Unmanaged { interface } => interface.clone(),
        }
    }

    /// Whether the uplink is addressed by a DHCP client.
    pub fn is_dhcp(&self) -> (r: bool)
        ensures
            r == (*self is DHCP),
    {
        match self {
            NetworkWan::DHCP { .. } => true,
            _ => false,
        }
    }

    /// Whether the uplink is wireless.
    pub fn is_wifi(&self) -> (r: bool)
        ensures
            r == (*self is Wifi),
    {
        match self {
            NetworkWan::Wifi { .. } => true,
            _ => false,
        }
    }
}

/// The interface names of a list of uplinks, in order.
pub open spec fn wan_names(wans: Seq<NetworkWan>) -> Seq<Seq<char>>
    decreases wans.len(),
{
    if wans.len() == 0 {
        Seq::empty()
    } else {
        wan_names(wans.drop_last()).push(wans.last().name_spec())
    }
}

/// The interface names of the uplinks that pass `keep`, in order.
pub open spec fn wan_names_where(wans: Seq<NetworkWan>, keep: spec_fn(NetworkWan) -> bool) -> Seq<Seq<char>>
    decreases wans.len(),
{
    if wans.len() == 0 {
        Seq::empty()
    } else if keep(wans.last()) {
        wan_names_where(wans.drop_last(), keep).push(wans.last().name_spec())
    } else {
        wan_names_where(wans.drop_last(), keep)
    }
}

/// Uplinks that run a DHCP client: the DHCP ones, and the wireless ones when so configured.
pub open spec fn runs_dhcp_client(wifi_wan_dhcp: bool) -> spec_fn(NetworkWan) -> bool {
    |w: NetworkWan| w is DHCP || (wifi_wan_dhcp && w is Wifi)
}

/// Wireless uplinks.
pub open spec fn is_wifi_wan() -> spec_fn(NetworkWan) -> bool {
    |w: NetworkWan| w is Wifi
}

/// All names of a list of uplinks.
pub fn wan_interface_names(wans: &Vec<NetworkWan>) -> (r: Vec<String>)
    ensures
        views(r@) == wan_names(wans@),
{
    let mut r: Vec<String> = Vec::new();
    let mut i: usize = 0;
    while i < wans.len()
        invariant
            i <= wans.len(),
            views(r@) == wan_names(wans@.subrange(0, i as int)),
        decreases wans.len() - i,
    {
        assert(wans@.subrange(0, i + 1).drop_last() =~= wans@.subrange(0, i as int));
        r.push(wans[i].interface_name());
        assert(views(r@) =~= wan_names(wans@.subrange(0, i + 1)));
        i = i + 1;
    }
    assert(wans@.subrange(0, wans.len() as int) =~= wans@);
    r
}

/// Names of the uplinks that run a DHCP client, or (with `wifi_only`) of the wireless ones.
fn wan_names_selected(wans: &Vec<NetworkWan>, wifi_only: bool, wifi_wan_dhcp: bool) -> (r: Vec<String>)
    ensures
        wifi_only ==> views(r@) == wan_names_where(wans@, is_wifi_wan()),
        !wifi_only ==> views(r@) == wan_names_where(wans@, runs_dhcp_client(wifi_wan_dhcp)),
{
    let ghost keep = if wifi_only { is_wifi_wan() } else { runs_dhcp_client(wifi_wan_dhcp) };
    let mut r: Vec<String> = Vec::new();
    let mut i: usize = 0;
    while i < wans.len()
        invariant
            i <= wans.len(),
            keep == (if wifi_only { is_wifi_wan() } else { runs_dhcp_client(wifi_wan_dhcp) }),
            views(r@) == wan_names_where(wans@.subrange(0, i as int), keep),
        decreases wans.len() - i,
    {
        assert(wans@.subrange(0, i + 1).drop_last() =~= wans@.subrange(0, i as int));
        let w = &wans[i];
        let take = if wifi_only {
            w.is_wifi()
        } else {
            w.is_dhcp() || (wifi_wan_dhcp && w.is_wifi())
        };
        if take {
            r.push(w.interface_name());
            assert(views(r@) =~= wan_names_where(wans@.subrange(0, i as int), keep).push(w.name_spec()));
        }
        i = i + 1;
    }
    assert(wans@.subrange(0, wans.len() as int) =~= wans@);
    r
}

impl NetworkConfig {
    /// Names of the local networks that are enabled: LAN first, then WLAN.
    pub open spec fn local_spec(self) -> Seq<Seq<char>> {
        (if self.lan.enabled { seq![self.lan.interface@] } else { Seq::empty() }) + (if self.wlan.enabled {
            seq![self.wlan.interface@]
        } else {
            Seq::empty()
        })
    }

    /// Names of every interface this daemon manages: the uplinks, then the local networks.
    pub open spec fn interfaces_spec(self) -> Seq<Seq<char>> {
        wan_names(self.wans@) + self.local_spec()
    }

    /// Names of the wireless uplinks.
    pub fn wifi_wan_interfaces(&self) -> (r: Vec<String>)
        ensures
            views(r@) == wan_names_where(self.wans@, is_wifi_wan()),
    {
        wan_names_selected(&self.wans, true, self.wifi_wan_dhcp)
    }

    /// Names of the uplinks that get a DHCP client.
    pub fn dhcp_client_interfaces(&self) -> (r: Vec<String>)
        ensures
            views(r@) == wan_names_where(self.wans@, runs_dhcp_client(self.wifi_wan_dhcp)),
    {
        wan_names_selected(&self.wans, false, self.wifi_wan_dhcp)
    }

    /// Names of all uplinks.
    pub fn wan_interfaces(&self) -> (r: Vec<String>)
        ensures
            views(r@) == wan_names(self.wans@),
    {
        wan_interface_names(&self.wans)
    }

    /// Names of the enabled local networks.
    pub fn local_interfaces(&self) -> (r: Vec<String>)
        ensures
            views(r@) == self.local_spec(),
    {
        let mut r: Vec<String> = Vec::new();
        if self.lan.enabled {
            r.push(self.lan.interface.clone());
        }
        if self.wlan.enabled {
            r.push(self.wlan.interface.clone());
        }
        assert(views(r@) =~= self.local_spec());
        r
    }

    /// Names of every managed interface: uplinks, then enabled local networks.
    pub fn interfaces(&self) -> (r: Vec<String>)
        ensures
            views(r@) == self.interfaces_spec(),
    {
        let mut r = self.wan_interfaces();
        let mut l = self.local_interfaces();
        r.append(&mut l);
        assert(views(r@) =~= self.interfaces_spec());
        r
    }
}

impl Config {
    /// Names of the interfaces that may be listed to a user: the managed ones, and the
    /// tunnel when it is enabled.
    pub open spec fn visible_spec(self) -> Seq<Seq<char>> {
        self.network.interfaces_spec() + (if self.wireguard.enabled {
            seq![self.wireguard.interface@]
        } else {
            Seq::empty()
        })
    }

    /// Names of the interfaces that may be listed to a user.
    pub fn visible_interfaces(&self) -> (r: Vec<String>)
        ensures
            views(r@) == self.visible_spec(),
    {
        let mut r = self.network.interfaces();
        if self.wireguard.enabled {
            r.push(self.wireguard.interface.clone());
        }
        assert(views(r@) =~= self.visible_spec());
        r
    }
}

impl VagabondConfig {
    /// Names of the uplinks, in order: the interfaces that traffic leaves by.
    pub fn external_interfaces(&self) -> (r: Vec<String>)
        ensures
            views(r@) == wan_names(self.0.network.wans@),
    {
        wan_interface_names(&self.0.network.wans)
    }
}

} // verus!
