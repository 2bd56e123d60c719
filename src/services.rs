use vstd::prelude::*;
use crate::config::Config;
use crate::process::{ProcessService, ServiceState};
use crate::text::{join, join_spec, owned, views};

verus! {

/// Where the resolver's configuration is written.
pub const UNBOUND_CONFIG_PATH: &'static str = "/etc/unbound/unbound.conf";
/// Where the DHCP server's configuration is written.
pub const DHCPD_CONFIG_PATH: &'static str = "/etc/dhcp/dhcpd.conf";
/// The DHCP server's lease database, created empty when absent.
pub const DHCPD_LEASE_DB: &'static str = "/var/lib/dhcp/dhcpd.leases";
/// Where the small DHCP server's configuration for the LAN is written.
pub const UDHCPD_LAN_CONFIG_PATH: &'static str = "/etc/udhcpd.lan.conf";
/// Where the small DHCP server's configuration for the WLAN is written.
pub const UDHCPD_WLAN_CONFIG_PATH: &'static str = "/etc/udhcpd.wlan.conf";
/// Where the access point's configuration is written.
pub const HOSTAPD_CONFIG_PATH: &'static str = "/data/hostapd/hostapd.conf";
/// Where the wireless daemon's configuration is written.
pub const IWD_CONFIG_PATH: &'static str = "/data/iwd/etc/main.conf";
/// The first line of every generated file.
pub const CONFIG_NOTICE: &'static str = "This file is generated by Vagabond. Any changes may be overwritten!";

/// The DNS resolver.
#[derive(Debug, Clone, Copy)]
pub struct DnsMeta;

/// The DHCP server.
#[derive(Debug, Clone, Copy)]
pub struct DhcpMeta;

/// The access point.
#[derive(Debug, Clone, Copy)]
pub struct HostapdMeta;

/// The small DHCP server on the LAN.
#[derive(Debug, Clone, Copy)]
pub struct DhcpLanServerProcess;

/// The small DHCP server on the WLAN.
#[derive(Debug, Clone, Copy)]
pub struct DhcpWlanServerProcess;

/// The DHCP client of one uplink, by interface name.
#[derive(Debug, Clone)]
pub struct DhcpClientIface(pub String);

/// The system message bus.
#[derive(Debug, Clone, Copy)]
pub struct DbusMeta;

/// The wireless daemon, with the interfaces it is to leave alone.
#[derive(Debug, Clone)]
pub struct IwdMeta(pub Vec<String>);

impl ProcessService for DnsMeta {
    open spec fn command_spec(&self) -> Seq<char> {
        "unbound"@
    }

    open spec fn args_spec(&self) -> Seq<Seq<char>> {
        seq!["-d"@, "-p"@, "-c"@, UNBOUND_CONFIG_PATH@]
    }

    open spec fn restart_spec(&self) -> u64 {
        8
    }

    fn service_name(&self) -> &'static str {
        "DNS Server"
    }

    fn command(&self) -> (r: &'static str) {
        "unbound"
    }

    fn restart_time(&self) -> (r: u64) {
        8
    }

    fn get_args(&self) -> (r: Vec<String>) {
        let r = vec![owned("-d"), owned("-p"), owned("-c"), owned(UNBOUND_CONFIG_PATH)];
        assert(views(r@) =~= self.args_spec());
        r
    }
}

impl ProcessService for DhcpMeta {
    open spec fn command_spec(&self) -> Seq<char> {
        "dhcpd"@
    }

    open spec fn args_spec(&self) -> Seq<Seq<char>> {
        seq!["-cf"@, DHCPD_CONFIG_PATH@, "-lf"@, DHCPD_LEASE_DB@, "-f"@, "--no-pid"@]
    }

    open spec fn restart_spec(&self) -> u64 {
        8
    }

    fn service_name(&self) -> &'static str {
        "DHCP"
    }

    fn command(&self) -> (r: &'static str) {
        "dhcpd"
    }

    fn restart_time(&self) -> (r: u64) {
        8
    }

    fn get_args(&self) -> (r: Vec<String>) {
        let r = vec![
            owned("-cf"),
            owned(DHCPD_CONFIG_PATH),
            owned("-lf"),
            owned(DHCPD_LEASE_DB),
            owned("-f"),
            owned("--no-pid"),
        ];
        assert(views(r@) =~= self.args_spec());
        r
    }
}

impl ProcessService for HostapdMeta {
    open spec fn command_spec(&self) -> Seq<char> {
        "hostapd"@
    }

    open spec fn args_spec(&self) -> Seq<Seq<char>> {
        seq![HOSTAPD_CONFIG_PATH@]
    }

    open spec fn restart_spec(&self) -> u64 {
        8
    }

    fn service_name(&self) -> &'static str {
        "Wlan Access Point"
    }

    fn command(&self) -> (r: &'static str) {
        "hostapd"
    }

    fn restart_time(&self) -> (r: u64) {
        8
    }

    fn get_args(&self) -> (r: Vec<String>) {
        let r = vec![owned(HOSTAPD_CONFIG_PATH)];
        assert(views(r@) =~= self.args_spec());
        r
    }
}

impl ProcessService for DhcpLanServerProcess {
    open spec fn command_spec(&self) -> Seq<char> {
        "udhcpd"@
    }

    open spec fn args_spec(&self) -> Seq<Seq<char>> {
        seq!["-f"@, UDHCPD_LAN_CONFIG_PATH@]
    }

    open spec fn restart_spec(&self) -> u64 {
        8
    }

    fn service_name(&self) -> &'static str {
        "DHCP LAN Server"
    }

    fn command(&self) -> (r: &'static str) {
        "udhcpd"
    }

    fn restart_time(&self) -> (r: u64) {
        8
    }

    fn get_args(&self) -> (r: Vec<String>) {
        let r = vec![owned("-f"), owned(UDHCPD_LAN_CONFIG_PATH)];
        assert(views(r@) =~= self.args_spec());
        r
    }
}

impl ProcessService for DhcpWlanServerProcess {
    open spec fn command_spec(&self) -> Seq<char> {
        "udhcpd"@
    }

    open spec fn args_spec(&self) -> Seq<Seq<char>> {
        seq!["-f"@, UDHCPD_WLAN_CONFIG_PATH@]
    }

    open spec fn restart_spec(&self) -> u64 {
        8
    }

    fn service_name(&self) -> &'static str {
        "DHCP WLAN Server"
    }

    fn command(&self) -> (r: &'static str) {
        "udhcpd"
    }

    fn restart_time(&self) -> (r: u64) {
        8
    }

    fn get_args(&self) -> (r: Vec<String>) {
        let r = vec![owned("-f"), owned(UDHCPD_WLAN_CONFIG_PATH)];
        assert(views(r@) =~= self.args_spec());
        r
    }
}

impl ProcessService for DhcpClientIface {
    open spec fn command_spec(&self) -> Seq<char> {
        "udhcpc"@
    }

    open spec fn args_spec(&self) -> Seq<Seq<char>> {
        seq!["-i"@, self.0@, "-f"@]
    }

    open spec fn restart_spec(&self) -> u64 {
        30
    }

    fn service_name(&self) -> &'static str {
        "DHCP Client"
    }

    fn command(&self) -> (r: &'static str) {
        "udhcpc"
    }

    fn restart_time(&self) -> (r: u64) {
        30
    }

    fn get_args(&self) -> (r: Vec<String>) {
        let r = vec![owned("-i"), self.0.clone(), owned("-f")];
        assert(views(r@) =~= self.args_spec());
        r
    }
}

impl ProcessService for DbusMeta {
    open spec fn command_spec(&self) -> Seq<char> {
        "dbus-daemon"@
    }

    open spec fn args_spec(&self) -> Seq<Seq<char>> {
        seq!["--system"@, "--nofork"@, "--nopidfile"@, "--nosyslog"@, "--print-address"@]
    }

    open spec fn restart_spec(&self) -> u64 {
        30
    }

    fn service_name(&self) -> &'static str {
        "Dbus Daemon"
    }

    fn command(&self) -> (r: &'static str) {
        "dbus-daemon"
    }

    fn restart_time(&self) -> (r: u64) {
        30
    }

    fn get_args(&self) -> (r: Vec<String>) {
        let r = vec![
            owned("--system"),
            owned("--nofork"),
            owned("--nopidfile"),
            owned("--nosyslog"),
            owned("--print-address"),
        ];
        assert(views(r@) =~= self.args_spec());
        r
    }
}

impl ProcessService for IwdMeta {
    open spec fn command_spec(&self) -> Seq<char> {
        "/usr/libexec/iwd"@
    }

    open spec fn args_spec(&self) -> Seq<Seq<char>> {
        seq!["-I"@, join_spec(views(self.0@), ","@)]
    }

    open spec fn restart_spec(&self) -> u64 {
        8
    }

    fn service_name(&self) -> &'static str {
        "Wireless Daemon"
    }

    fn command(&self) -> (r: &'static str) {
        "/usr/libexec/iwd"
    }

    fn restart_time(&self) -> (r: u64) {
        8
    }

    fn get_args(&self) -> (r: Vec<String>) {
        let r = vec![owned("-I"), join(&self.0, ",")];
        assert(views(r@) =~= self.args_spec());
        r
    }
}

/// A daemon that this process starts at boot.
#[derive(Debug, Clone, PartialEq, Eq)]
pub enum Daemon {
    /// The DNS resolver.
    Dns,
    /// The DHCP server.
    Dhcp,
    /// The access point.
    Hostapd,
    /// The DHCP client of the named uplink.
    DhcpClient(String),
}

/// Health of one service, as reported to users.
#[derive(Debug, Clone)]
pub struct ServiceStatus {
    pub enabled: bool,
    pub state: ServiceState,
    pub detail: Vec<(String, String)>,
}

/// The health of the access point, the resolver and the DHCP server.
#[derive(Debug, Clone)]
pub struct StatusReport {
    pub hostapd: ServiceStatus,
    pub unbound: ServiceStatus,
    pub dhcpd: ServiceStatus,
}

/// A service's health: whether it is enabled, and its child's state.
pub fn service_status(enabled: bool, state: ServiceState) -> (r: ServiceStatus)
    ensures
        r.enabled == enabled,
        r.state == state,
        r.detail@.len() == 0,
{
    ServiceStatus { enabled, state, detail: Vec::new() }
}

/// The status reply: each record enabled as the configuration says, in the state its
/// supervisor reports.
pub fn status_report(cfg: &Config, hostapd: ServiceState, unbound: ServiceState, dhcpd: ServiceState) -> (r: StatusReport)
    ensures
        r.hostapd.enabled == cfg.network.wlan.enabled && r.hostapd.state == hostapd,
        r.unbound.enabled == cfg.dns.enabled && r.unbound.state == unbound,
        r.dhcpd.enabled == cfg.dhcp.enabled && r.dhcpd.state == dhcpd,
        r.hostapd.detail@.len() == 0 && r.unbound.detail@.len() == 0 && r.dhcpd.detail@.len() == 0,
{
    StatusReport {
        hostapd: service_status(cfg.network.wlan.enabled, hostapd),
        unbound: service_status(cfg.dns.enabled, unbound),
        dhcpd: service_status(cfg.dhcp.enabled, dhcpd),
    }
}

/// The daemons started first at boot, in order: the resolver, the DHCP server and the
/// access point, each when enabled.
pub open spec fn fixed_daemons(cfg: Config) -> Seq<Daemon> {
    (if cfg.dns.enabled { seq![Daemon::Dns] } else { Seq::empty() })
        + (if cfg.dhcp.enabled { seq![Daemon::Dhcp] } else { Seq::empty() })
        + (if cfg.network.wlan.enabled { seq![Daemon::Hostapd] } else { Seq::empty() })
}

/// The boot list of a configuration: the fixed daemons, then a DHCP client per uplink that
/// gets one, in order.
pub open spec fn is_boot_list(cfg: Config, r: Seq<Daemon>) -> bool {
    let fixed = fixed_daemons(cfg);
    let clients = crate::config::wan_names_where(
        cfg.network.wans@,
        crate::config::runs_dhcp_client(cfg.network.wifi_wan_dhcp),
    );
    &&& r.len() == fixed.len() + clients.len()
    &&& r.subrange(0, fixed.len() as int) == fixed
    &&& forall|i: int| 0 <= i < clients.len() ==> (#[trigger] r[fixed.len() + i] matches Daemon::DhcpClient(n) && n@ == clients[i])
}

/// The daemons started at boot.
pub fn boot_daemons(cfg: &Config) -> (r: Vec<Daemon>)
    ensures
        is_boot_list(*cfg, r@),
{
    let mut r: Vec<Daemon> = Vec::new();
    if cfg.dns.enabled {
        r.push(Daemon::Dns);
    }
    if cfg.dhcp.enabled {
        r.push(Daemon::Dhcp);
    }
    if cfg.network.wlan.enabled {
        r.push(Daemon::Hostapd);
    }
    let ghost fixed = r@;
    let clients = cfg.network.dhcp_client_interfaces();
    let ghost cv = views(clients@);
    let mut i: usize = 0;
    while i < clients.len()
        invariant
            i <= clients.len(),
            cv == views(clients@),
            r@.len() == fixed.len() + i,
            r@.subrange(0, fixed.len() as int) == fixed,
            forall|k: int| 0 <= k < i ==> (#[trigger] r@[fixed.len() + k] matches Daemon::DhcpClient(n) && n@ == cv[k]),
        decreases clients.len() - i,
    {
        r.push(Daemon::DhcpClient(clients[i].clone()));
        assert(r@.subrange(0, fixed.len() as int) =~= fixed);
        i = i + 1;
    }
    assert(fixed =~= fixed_daemons(*cfg));
    r
}

/// A minimal boot, with the resolver and the DHCP server enabled, the access point
/// disabled and one DHCP uplink: the resolver, the DHCP server and that uplink's DHCP
/// client start, and no access point.
pub proof fn lemma_minimal_boot(cfg: Config, r: Seq<Daemon>)
    requires
        is_boot_list(cfg, r),
        cfg.dns.enabled,
        cfg.dhcp.enabled,
        !cfg.network.wlan.enabled,
        cfg.network.wans@.len() == 1,
        cfg.network.wans@[0] is DHCP,
    ensures
        r.len() == 3,
        r[0] == Daemon::Dns,
        r[1] == Daemon::Dhcp,
        r[2] matches Daemon::DhcpClient(n) && n@ == cfg.network.wans@[0].name_spec(),
        !r.contains(Daemon::Hostapd),
{
    let w = cfg.network.wans@;
    let keep = crate::config::runs_dhcp_client(cfg.network.wifi_wan_dhcp);
    assert(w.drop_last() =~= Seq::<crate::config::NetworkWan>::empty());
    assert(w.last() == w[0]);
    assert(keep(w[0]));
    assert(crate::config::wan_names_where(w.drop_last(), keep) == Seq::<Seq<char>>::empty());
    assert(crate::config::wan_names_where(w, keep) =~= seq![w[0].name_spec()]);
    let fixed = fixed_daemons(cfg);
    assert(fixed =~= seq![Daemon::Dns, Daemon::Dhcp]);
    assert(r[0] == r.subrange(0, 2)[0]);
    assert(r[1] == r.subrange(0, 2)[1]);
    assert(r[2] matches Daemon::DhcpClient(_));
    if r.contains(Daemon::Hostapd) {
        let j = choose|j: int| 0 <= j < r.len() && r[j] == Daemon::Hostapd;
        assert(j == 0 || j == 1 || j == 2);
    }
}

} // verus!
