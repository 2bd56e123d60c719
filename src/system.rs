use vstd::prelude::*;
use crate::config::{Config, VagabondConfig};
use crate::interfaces::{filter_interfaces, filter_listed, interfaces_view, Interface};
use crate::net::{cidr, cidr_text};
use crate::netfilter::{firewall_plan, plan_of, FirewallPlan};
use crate::process::{deliver, kill_target, ProcessManager, ProcessSignal, ServiceState};
use crate::services::DhcpClientIface;
use crate::text::{is_text, joined, joined3, owned, views};

verus! {

/// A kernel setting: its key under /proc/sys and the value written to it.
#[derive(Debug, Clone)]
pub struct SysctlSetting {
    pub key: String,
    pub value: String,
}

/// The kernel settings a router needs: forwarding on, broadcast and bogus ICMP ignored,
/// echo answered, martians not logged.
pub open spec fn sysctl_table() -> Seq<(Seq<char>, Seq<char>)> {
    seq![
        ("net/ipv4/ip_forward"@, "1"@),
        ("net/ipv6/conf/default/forwarding"@, "1"@),
        ("net/ipv6/conf/all/forwarding"@, "1"@),
        ("net/ipv4/icmp_echo_ignore_broadcasts"@, "1"@),
        ("net/ipv4/icmp_ignore_bogus_error_responses"@, "1"@),
        ("net/ipv4/icmp_echo_ignore_all"@, "0"@),
        ("net/ipv4/conf/all/log_martians"@, "0"@),
        ("net/ipv4/conf/default/log_martians"@, "0"@),
    ]
}

/// What the logic reads of a list of settings.
pub open spec fn settings_view(v: Seq<SysctlSetting>) -> Seq<(Seq<char>, Seq<char>)> {
    v.map_values(|s: SysctlSetting| (s.key@, s.value@))
}

fn setting(key: &str, value: &str) -> (r: SysctlSetting)
    ensures
        r.key@ == key@,
        r.value@ == value@,
{
    SysctlSetting { key: owned(key), value: owned(value) }
}

/// The kernel settings, in the order they are applied.
pub fn sysctl_settings() -> (r: Vec<SysctlSetting>)
    ensures
        settings_view(r@) == sysctl_table(),
{
    let r = vec![
        setting("net/ipv4/ip_forward", "1"),
        setting("net/ipv6/conf/default/forwarding", "1"),
        setting("net/ipv6/conf/all/forwarding", "1"),
        setting("net/ipv4/icmp_echo_ignore_broadcasts", "1"),
        setting("net/ipv4/icmp_ignore_bogus_error_responses", "1"),
        setting("net/ipv4/icmp_echo_ignore_all", "0"),
        setting("net/ipv4/conf/all/log_martians", "0"),
        setting("net/ipv4/conf/default/log_martians", "0"),
    ];
    assert(settings_view(r@) =~= sysctl_table());
    r
}

/// A program with its arguments.
#[derive(Debug, Clone)]
pub struct CommandLine {
    pub program: String,
    pub args: Vec<String>,
}

/// Bringing the tunnel up: write its configuration file, take it down (a failure there is
/// expected and ignored), then bring it up (a failure there is logged, not fatal).
#[derive(Debug)]
pub struct WireguardSetup {
    pub config_path: String,
    pub down: CommandLine,
    pub up: CommandLine,
}

/// What the interface setup runs, after the DHCP clients are registered.
#[derive(Debug)]
pub struct InterfacePlan {
    /// Address commands for the local networks, in order.
    pub commands: Vec<CommandLine>,
    /// The tunnel's setup, when it is enabled.
    pub wireguard: Option<WireguardSetup>,
}

/// What went wrong in system setup or control.
#[derive(Debug, Clone, PartialEq, Eq)]
pub enum SystemError {
    /// No DHCP client runs on the named interface.
    InterfaceNotFound(String),
    /// The DHCP client could not be signalled.
    Signal(String),
}

impl SystemError {
    /// The text shown to a user.
    pub fn message(&self) -> (r: String)
        ensures
            self matches SystemError::InterfaceNotFound(n) ==> r@ == "Interface "@ + n@ + " not found!"@,
            self matches SystemError::Signal(m) ==> r@ == m@,
    {
        match self {
            SystemError::InterfaceNotFound(n) => joined3("Interface ", n.as_str(), " not found!"),
            SystemError::Signal(m) => m.clone(),
        }
    }
}

/// The `ip` commands that bring a local network up and give it its address.
pub open spec fn address_commands(iface: Seq<char>, cidr_text: Seq<char>) -> Seq<(Seq<char>, Seq<Seq<char>>)> {
    seq![
        ("ip"@, seq!["link"@, "set"@, iface, "up"@]),
        ("ip"@, seq!["addr"@, "change"@, cidr_text, "dev"@, iface]),
    ]
}

/// What the logic reads of a list of commands.
pub open spec fn commands_view(v: Seq<CommandLine>) -> Seq<(Seq<char>, Seq<Seq<char>>)> {
    v.map_values(|c: CommandLine| (c.program@, views(c.args@)))
}

/// The commands of the local networks: the LAN's, then the WLAN's, each when enabled.
pub open spec fn local_commands(cfg: Config) -> Seq<(Seq<char>, Seq<Seq<char>>)> {
    (if cfg.network.lan.enabled {
        address_commands(cfg.network.lan.interface@, cidr_text(cfg.network.lan.address, cfg.network.lan.subnet.prefix_len))
    } else {
        Seq::empty()
    }) + (if cfg.network.wlan.enabled {
        address_commands(cfg.network.wlan.interface@, cidr_text(cfg.network.wlan.address, cfg.network.wlan.subnet.prefix_len))
    } else {
        Seq::empty()
    })
}

fn command(program: &str, args: Vec<String>) -> (r: CommandLine)
    ensures
        r.program@ == program@,
        r.args@ == args@,
{
    CommandLine { program: owned(program), args }
}

fn push_address_commands(v: &mut Vec<CommandLine>, iface: &String, address: String)
    ensures
        commands_view(final(v)@) == commands_view(old(v)@) + address_commands(iface@, address@),
{
    let ghost a = address@;
    let link = vec![owned("link"), owned("set"), iface.clone(), owned("up")];
    let addr = vec![owned("addr"), owned("change"), address, owned("dev"), iface.clone()];
    let ghost before = commands_view(v@);
    let c1 = command("ip", link);
    let c2 = command("ip", addr);
    v.push(c1);
    v.push(c2);
    assert(views(link@) =~= seq!["link"@, "set"@, iface@, "up"@]);
    assert(views(addr@) =~= seq!["addr"@, "change"@, a, "dev"@, iface@]);
    assert(commands_view(v@) =~= before + address_commands(iface@, a));
}

/// The files and commands that bring the tunnel up.
pub fn wireguard_setup(iface: &String) -> (r: WireguardSetup)
    ensures
        r.config_path@ == "/etc/wireguard/"@ + iface@ + ".conf"@,
        r.down.program@ == "wg-quick"@ && views(r.down.args@) == seq!["down"@, iface@],
        r.up.program@ == "wg-quick"@ && views(r.up.args@) == seq!["up"@, iface@],
{
    let down = command("wg-quick", vec![owned("down"), iface.clone()]);
    let up = command("wg-quick", vec![owned("up"), iface.clone()]);
    assert(views(down.args@) =~= seq!["down"@, iface@]);
    assert(views(up.args@) =~= seq!["up"@, iface@]);
    WireguardSetup { config_path: joined3("/etc/wireguard/", iface.as_str(), ".conf"), down, up }
}

/// The names of the registered DHCP clients.
pub open spec fn client_names(c: Seq<ProcessManager<DhcpClientIface>>) -> Seq<Seq<char>> {
    c.map_values(|p: ProcessManager<DhcpClientIface>| p.meta().0@)
}

/// Whether some registered client runs on the named interface.
pub open spec fn has_client(c: Seq<ProcessManager<DhcpClientIface>>, name: Seq<char>) -> bool {
    exists|k: int| 0 <= k < c.len() && #[trigger] c[k].meta().0@ == name
}

/// Whether `k` indexes the first registered client on the named interface.
pub open spec fn is_first_client(c: Seq<ProcessManager<DhcpClientIface>>, name: Seq<char>, k: int) -> bool {
    &&& 0 <= k < c.len()
    &&& c[k].meta().0@ == name
    &&& forall|j: int| 0 <= j < k ==> #[trigger] c[j].meta().0@ != name
}

/// What signalling the client on the named interface hands to `kill`: the first such
/// client's target, or the interface is not found.
pub open spec fn client_kill_target(
    c: Seq<ProcessManager<DhcpClientIface>>,
    name: Seq<char>,
    sig: ProcessSignal,
    r: Result<Option<(i32, ProcessSignal)>, SystemError>,
) -> bool {
    if has_client(c, name) {
        exists|k: int| #[trigger] is_first_client(c, name, k) && r == Ok::<Option<(i32, ProcessSignal)>, SystemError>(kill_target(c[k]@, sig))
    } else {
        r matches Err(SystemError::InterfaceNotFound(n)) && n@ == name
    }
}

/// The system side of the daemon: privileges, firewall and kernel plans, interface setup,
/// and the DHCP clients of the uplinks, by interface.
#[derive(Debug)]
pub struct SystemManager {
    pub config: VagabondConfig,
    pub is_root: bool,
    pub dhcp_clients: Vec<ProcessManager<DhcpClientIface>>,
}

impl SystemManager {
    /// A manager with no DHCP client yet; `is_root` says whether the process may change the
    /// kernel's and the firewall's settings.
    pub fn new(config: VagabondConfig, is_root: bool) -> (r: Self)
        ensures
            r.config == config,
            r.is_root == is_root,
            r.dhcp_clients@.len() == 0,
    {
        SystemManager { config, is_root, dhcp_clients: Vec::new() }
    }

    /// The kernel settings to apply, or none without root: then they are skipped with a
    /// warning, never an error.
    pub fn setup_sysctl(&self) -> (r: Option<Vec<SysctlSetting>>)
        ensures
            r is Some <==> self.is_root,
            r matches Some(v) ==> settings_view(v@) == sysctl_table(),
    {
        if self.is_root {
            Some(sysctl_settings())
        } else {
            None
        }
    }

    /// The firewall plan to apply, or none without root: then it is skipped with a warning,
    /// never an error.
    pub fn setup_iptables(&self) -> (r: Option<FirewallPlan>)
        ensures
            r is Some <==> self.is_root,
            r matches Some(p) ==> p@ == plan_of(self.config.0),
    {
        if self.is_root {
            Some(firewall_plan(&self.config.0))
        } else {
            None
        }
    }

    /// Index of the DHCP client on the named interface, if one is registered.
    pub fn find_dhcp_client(&self, name: &str) -> (r: Option<usize>)
        ensures
            r matches Some(i) ==> is_first_client(self.dhcp_clients@, name@, i as int),
            r is None <==> !has_client(self.dhcp_clients@, name@),
    {
        let mut i: usize = 0;
        while i < self.dhcp_clients.len()
            invariant
                i <= self.dhcp_clients.len(),
                forall|k: int| 0 <= k < i ==> #[trigger] self.dhcp_clients@[k].meta().0@ != name@,
            decreases self.dhcp_clients.len() - i,
        {
            if is_text(&self.dhcp_clients[i].meta_ref().0, name) {
                return Some(i);
            }
            i = i + 1;
        }
        None
    }

    /// Registers a DHCP client for the named uplink unless one is there; returns its index.
    pub fn register_dhcp_client(&mut self, iface: &String) -> (r: usize)
        ensures
            r < final(self).dhcp_clients@.len(),
            final(self).dhcp_clients@[r as int].meta().0@ == iface@,
            has_client(old(self).dhcp_clients@, iface@) ==> final(self).dhcp_clients@ == old(self).dhcp_clients@,
            !has_client(old(self).dhcp_clients@, iface@) ==> r == old(self).dhcp_clients@.len() && final(self).dhcp_clients@.len() == old(self).dhcp_clients@.len() + 1
                && final(self).dhcp_clients@.subrange(0, old(self).dhcp_clients@.len() as int) == old(self).dhcp_clients@
                && final(self).dhcp_clients@[r as int]@.state == ServiceState::Stopped
                && final(self).dhcp_clients@[r as int]@.pid == 0,
            final(self).config == old(self).config,
            final(self).is_root == old(self).is_root,
    {
        match self.find_dhcp_client(iface.as_str()) {
            Some(i) => i,
            None => {
                self.dhcp_clients.push(ProcessManager::new(DhcpClientIface(iface.clone())));
                assert(self.dhcp_clients@.subrange(0, self.dhcp_clients@.len() - 1) =~= old(self).dhcp_clients@);
                self.dhcp_clients.len() - 1
            },
        }
    }

    /// The supervisor of a registered DHCP client.
    pub fn dhcp_client_mut(&mut self, i: usize) -> (r: &mut ProcessManager<DhcpClientIface>)
        requires
            i < old(self).dhcp_clients@.len(),
        ensures
            *r == old(self).dhcp_clients@[i as int],
            final(self).dhcp_clients@ == old(self).dhcp_clients@.update(i as int, *final(r)),
            final(self).config == old(self).config,
            final(self).is_root == old(self).is_root,
    {
        &mut self.dhcp_clients[i]
    }

    /// Registers a DHCP client per uplink that gets one, and returns the address commands of
    /// the local networks and the tunnel's setup.
    pub fn setup_interfaces(&mut self) -> (r: InterfacePlan)
        ensures
            forall|k: int| 0 <= k < crate::config::wan_names_where(old(self).config.0.network.wans@, crate::config::runs_dhcp_client(old(self).config.0.network.wifi_wan_dhcp)).len()
                ==> has_client(final(self).dhcp_clients@, #[trigger] crate::config::wan_names_where(old(self).config.0.network.wans@, crate::config::runs_dhcp_client(old(self).config.0.network.wifi_wan_dhcp))[k]),
            final(self).dhcp_clients@.len() >= old(self).dhcp_clients@.len(),
            final(self).dhcp_clients@.subrange(0, old(self).dhcp_clients@.len() as int) == old(self).dhcp_clients@,
            forall|k: int| old(self).dhcp_clients@.len() <= k < final(self).dhcp_clients@.len() ==> crate::config::wan_names_where(
                old(self).config.0.network.wans@,
                crate::config::runs_dhcp_client(old(self).config.0.network.wifi_wan_dhcp),
            ).contains(#[trigger] final(self).dhcp_clients@[k].meta().0@),
            commands_view(r.commands@) == local_commands(old(self).config.0),
            r.wireguard is Some <==> old(self).config.0.wireguard.enabled,
            r.wireguard matches Some(w) ==> w.config_path@ == "/etc/wireguard/"@ + old(self).config.0.wireguard.interface@ + ".conf"@,
            final(self).config == old(self).config,
            final(self).is_root == old(self).is_root,
    {
        let names = self.config.0.network.dhcp_client_interfaces();
        let ghost nv = views(names@);
        let ghost start = self.dhcp_clients@;
        let mut i: usize = 0;
        while i < names.len()
            invariant
                i <= names.len(),
                nv == views(names@),
                self.config == old(self).config,
                self.is_root == old(self).is_root,
                start == old(self).dhcp_clients@,
                self.dhcp_clients@.len() >= start.len(),
                self.dhcp_clients@.subrange(0, start.len() as int) == start,
                forall|k: int| 0 <= k < i ==> has_client(self.dhcp_clients@, #[trigger] nv[k]),
                forall|k: int| start.len() <= k < self.dhcp_clients@.len() ==> nv.contains(#[trigger] self.dhcp_clients@[k].meta().0@),
            decreases names.len() - i,
        {
            let ghost before = self.dhcp_clients@;
            let idx = self.register_dhcp_client(&names[i]);
            assert forall|k: int| 0 <= k < i + 1 implies has_client(self.dhcp_clients@, #[trigger] nv[k]) by {
                if k < i {
                    let w = choose|w: int| 0 <= w < before.len() && #[trigger] before[w].meta().0@ == nv[k];
                    assert(self.dhcp_clients@[w] == before[w]);
                } else {
                    assert(self.dhcp_clients@[idx as int].meta().0@ == nv[k]);
                }
            }
            assert(self.dhcp_clients@.subrange(0, start.len() as int) =~= start);
            assert forall|k: int| start.len() <= k < self.dhcp_clients@.len() implies nv.contains(#[trigger] self.dhcp_clients@[k].meta().0@) by {
                if k < before.len() {
                    assert(self.dhcp_clients@[k] == before[k]);
                } else {
                    assert(k == idx);
                    assert(nv[i as int] == names@[i as int]@);
                    assert(self.dhcp_clients@[k].meta().0@ == nv[i as int]);
                }
            }
            i = i + 1;
        }
        let mut commands: Vec<CommandLine> = Vec::new();
        assert(commands_view(commands@) =~= Seq::<(Seq<char>, Seq<Seq<char>>)>::empty());
        let lan = &self.config.0.network.lan;
        if lan.enabled {
            push_address_commands(&mut commands, &lan.interface, cidr(&lan.address, lan.subnet.prefix_len));
        }
        let wlan = &self.config.0.network.wlan;
        if wlan.enabled {
            push_address_commands(&mut commands, &wlan.interface, cidr(&wlan.address, wlan.subnet.prefix_len));
        }
        assert(commands_view(commands@) =~= local_commands(self.config.0));
        let wireguard = if self.config.0.wireguard.enabled {
            Some(wireguard_setup(&self.config.0.wireguard.interface))
        } else {
            None
        };
        InterfacePlan { commands, wireguard }
    }

    /// The process id and signal that signalling the client on the named interface hands to
    /// `kill`, or the interface is not found.
    pub fn dhcp_kill_args(&self, name: &str, sig: ProcessSignal) -> (r: Result<Option<(i32, ProcessSignal)>, SystemError>)
        ensures
            client_kill_target(self.dhcp_clients@, name@, sig, r),
    {
        match self.find_dhcp_client(name) {
            Some(i) => {
                let t = self.dhcp_clients[i].kill_args(sig);
                assert(is_first_client(self.dhcp_clients@, name@, i as int));
                Ok(t)
            },
            None => Err(SystemError::InterfaceNotFound(owned(name))),
        }
    }

    fn signal_client(&self, name: &str, sig: ProcessSignal) -> (r: Result<(), SystemError>)
        ensures
            !has_client(self.dhcp_clients@, name@) <==> (r matches Err(SystemError::InterfaceNotFound(n)) && n@ == name@),
            has_client(self.dhcp_clients@, name@) ==> (r is Ok || r matches Err(SystemError::Signal(_))),
            (forall|t: Result<Option<(i32, ProcessSignal)>, SystemError>| client_kill_target(self.dhcp_clients@, name@, sig, t) ==> t != Ok::<Option<(i32, ProcessSignal)>, SystemError>(None) || r is Ok),
    {
        let target = self.dhcp_kill_args(name, sig);
        proof {
            if has_client(self.dhcp_clients@, name@) {
                let k = choose|k: int| #[trigger] is_first_client(self.dhcp_clients@, name@, k) && target == Ok::<Option<(i32, ProcessSignal)>, SystemError>(kill_target(self.dhcp_clients@[k]@, sig));
                assert forall|t: Result<Option<(i32, ProcessSignal)>, SystemError>| client_kill_target(self.dhcp_clients@, name@, sig, t) implies t == target by {
                    let k2 = choose|k2: int| #[trigger] is_first_client(self.dhcp_clients@, name@, k2) && t == Ok::<Option<(i32, ProcessSignal)>, SystemError>(kill_target(self.dhcp_clients@[k2]@, sig));
                    if k2 < k {
                        assert(self.dhcp_clients@[k2].meta().0@ != name@);
                    } else if k < k2 {
                        assert(self.dhcp_clients@[k].meta().0@ != name@);
                    }
                }
            }
        }
        match target {
            Ok(Some((pid, s))) => match deliver(pid, s) {
                Ok(()) => Ok(()),
                Err(e) => Err(SystemError::Signal(e.message(""))),
            },
            Ok(None) => Ok(()),
            Err(e) => Err(e),
        }
    }

    /// Asks the DHCP client of the named uplink to renew its lease: the user signal that
    /// `dhcp_kill_args(name, Usr1)` gives is handed to `kill`.
    pub fn dhcp_renew(&self, name: &str) -> (r: Result<(), SystemError>)
        ensures
            !has_client(self.dhcp_clients@, name@) <==> (r matches Err(SystemError::InterfaceNotFound(n)) && n@ == name@),
            has_client(self.dhcp_clients@, name@) ==> (r is Ok || r matches Err(SystemError::Signal(_))),
            client_kill_target(self.dhcp_clients@, name@, ProcessSignal::Usr1, Ok(None)) ==> r is Ok,
    {
        self.signal_client(name, ProcessSignal::Usr1)
    }

    /// Asks the DHCP client of the named uplink to release its lease: the user signal that
    /// `dhcp_kill_args(name, Usr2)` gives is handed to `kill`.
    pub fn dhcp_release(&self, name: &str) -> (r: Result<(), SystemError>)
        ensures
            !has_client(self.dhcp_clients@, name@) <==> (r matches Err(SystemError::InterfaceNotFound(n)) && n@ == name@),
            has_client(self.dhcp_clients@, name@) ==> (r is Ok || r matches Err(SystemError::Signal(_))),
            client_kill_target(self.dhcp_clients@, name@, ProcessSignal::Usr2, Ok(None)) ==> r is Ok,
    {
        self.signal_client(name, ProcessSignal::Usr2)
    }

    /// The interfaces a user may see: the managed ones and the tunnel when enabled.
    pub fn get_interfaces(&self, all: Vec<Interface>) -> (r: Vec<Interface>)
        ensures
            interfaces_view(r@) == filter_listed(interfaces_view(all@), self.config.0.visible_spec()),
    {
        let names = self.config.0.visible_interfaces();
        filter_interfaces(all, &names)
    }
}

} // verus!
