use vagabond::config::{Config, NetworkWan, VagabondConfig};
use vagabond::interfaces::{get_interfaces, interface_names, InterfaceAddress, RawAddress, RawEntry};
use vagabond::net::{cidr, IpAddress, Subnet};
use vagabond::netfilter::{firewall_plan, Table};
use vagabond::process::{ProcessSignal, ServiceState};
use vagabond::system::{sysctl_settings, SystemError, SystemManager};

fn minimal_config() -> Config {
    let mut cfg = Config::default();
    cfg.dhcp.enabled = true;
    cfg.dns.enabled = true;
    cfg.network.wlan.enabled = false;
    cfg.network.wans = vec![NetworkWan::DHCP { interface: "eth0".into() }];
    cfg
}

fn count(rules: &[String], rule: &str) -> usize {
    rules.iter().filter(|r| r.as_str() == rule).count()
}

#[test]
fn defaults_match_documentation() {
    let cfg = Config::default();
    assert_eq!(cfg.dns.port, 53);
    assert_eq!(cfg.dns.servers, vec![IpAddress::V4(0x0101_0101), IpAddress::V4(0x0100_0001)]);
    assert_eq!(cfg.network.domain, "vagabond.lan");
    assert_eq!(cfg.network.lan.interface, "eth1");
    assert_eq!(cfg.network.wlan.ssid, "vagabond");
    assert_eq!(cfg.wireguard.interface, "wg0");
    assert!(!cfg.wireguard.enabled);
    assert_eq!(cfg.network.interfaces(), vec!["eth0".to_string(), "eth1".to_string()]);
}

#[test]
fn interface_lists() {
    let mut cfg = Config::default();
    cfg.network.wlan.enabled = true;
    cfg.network.wans = vec![
        NetworkWan::DHCP { interface: "eth0".into() },
        NetworkWan::Wifi { interface: "wlan1".into() },
        NetworkWan::Unmanaged { interface: "ppp0".into() },
    ];
    assert_eq!(cfg.network.wan_interfaces(), vec!["eth0", "wlan1", "ppp0"]);
    assert_eq!(cfg.network.wifi_wan_interfaces(), vec!["wlan1"]);
    assert_eq!(cfg.network.dhcp_client_interfaces(), vec!["eth0", "wlan1"]);
    cfg.network.wifi_wan_dhcp = false;
    assert_eq!(cfg.network.dhcp_client_interfaces(), vec!["eth0"]);
    assert_eq!(cfg.network.local_interfaces(), vec!["eth1", "wlan0"]);
    cfg.wireguard.enabled = true;
    assert_eq!(cfg.visible_interfaces(), vec!["eth0", "wlan1", "ppp0", "eth1", "wlan0", "wg0"]);
    assert_eq!(VagabondConfig(cfg).external_interfaces(), vec!["eth0", "wlan1", "ppp0"]);
}

#[test]
fn lan_accepted_once_in_input_chain() {
    let mut cfg = Config::default();
    cfg.network.wlan.enabled = true;
    cfg.wireguard.enabled = true;
    let plan = firewall_plan(&cfg);
    let input = &plan.chains[0];
    assert_eq!(input.table, Table::Filter);
    assert_eq!(input.chain, "vagabond-input");
    assert_eq!(count(&input.rules, "-i eth1 -j ACCEPT"), 1);
    assert_eq!(&input.rules[..3], &["-i lo -j ACCEPT", "-d 127.0.0.0/8 -j REJECT", "-m state --state ESTABLISHED,RELATED -j ACCEPT"]);
    let forward = &plan.chains[1];
    assert_eq!(forward.rules, vec!["-i eth1 -j ACCEPT", "-o eth1 -j ACCEPT", "-i wlan0 -j ACCEPT", "-o wlan0 -j ACCEPT", "-i wg0 -j ACCEPT", "-o wg0 -j ACCEPT"]);
}

#[test]
fn one_masquerade_per_uplink() {
    let mut cfg = Config::default();
    cfg.network.wans = vec![NetworkWan::DHCP { interface: "eth0".into() }, NetworkWan::Unmanaged { interface: "ppp0".into() }];
    let plan = firewall_plan(&cfg);
    let post = &plan.chains[6];
    assert_eq!(post.table, Table::Nat);
    assert_eq!(post.system_chain, "POSTROUTING");
    assert_eq!(post.rules, vec!["-o eth0 -j MASQUERADE", "-o ppp0 -j MASQUERADE"]);
    cfg.wireguard.enabled = true;
    let plan = firewall_plan(&cfg);
    assert_eq!(plan.chains[6].rules.len(), 3);
    assert_eq!(plan.chains[6].rules[2], "-o wg0 -j MASQUERADE");
}

#[test]
fn firewall_plan_is_the_same_each_time() {
    let cfg = minimal_config();
    let a = firewall_plan(&cfg);
    let b = firewall_plan(&cfg);
    assert_eq!(a.chains.len(), 7);
    for (x, y) in a.chains.iter().zip(b.chains.iter()) {
        assert_eq!(x.chain, y.chain);
        assert_eq!(x.system_chain, y.system_chain);
        assert_eq!(x.rules, y.rules);
    }
    let policies: Vec<(String, String)> = a.policies.iter().map(|p| (p.chain.clone(), p.policy.clone())).collect();
    assert_eq!(policies, vec![("INPUT".to_string(), "DROP".to_string()), ("OUTPUT".to_string(), "ACCEPT".to_string()), ("FORWARD".to_string(), "ACCEPT".to_string())]);
}

#[test]
fn non_root_skips_privileged_steps() {
    let sys = SystemManager::new(VagabondConfig(minimal_config()), false);
    assert!(sys.setup_sysctl().is_none());
    assert!(sys.setup_iptables().is_none());
    let root = SystemManager::new(VagabondConfig(minimal_config()), true);
    assert_eq!(root.setup_sysctl().unwrap().len(), 8);
    assert!(root.setup_iptables().is_some());
}

#[test]
fn sysctl_table() {
    let s: Vec<(String, String)> = sysctl_settings().into_iter().map(|s| (s.key, s.value)).collect();
    assert_eq!(s[0], ("net/ipv4/ip_forward".to_string(), "1".to_string()));
    assert_eq!(s[5], ("net/ipv4/icmp_echo_ignore_all".to_string(), "0".to_string()));
    assert_eq!(s[7], ("net/ipv4/conf/default/log_martians".to_string(), "0".to_string()));
}

#[test]
fn dhcp_renew_targets_registered_client() {
    let mut sys = SystemManager::new(VagabondConfig(minimal_config()), false);
    let plan = sys.setup_interfaces();
    assert_eq!(sys.dhcp_clients.len(), 1);
    assert_eq!(sys.dhcp_clients[0].current_state(), ServiceState::Stopped);
    // No child runs yet: the signal is a no-op.
    assert_eq!(sys.dhcp_renew("eth0"), Ok(()));
    assert_eq!(sys.dhcp_release("eth0"), Ok(()));
    let err = sys.dhcp_renew("eth1").unwrap_err();
    assert_eq!(err, SystemError::InterfaceNotFound("eth1".into()));
    assert_eq!(format!("error: {}", err.message()), "error: Interface eth1 not found!");
    let cmds: Vec<Vec<String>> = plan.commands.iter().map(|c| c.args.clone()).collect();
    assert_eq!(cmds, vec![vec!["link", "set", "eth1", "up"], vec!["addr", "change", "192.168.1.1/24", "dev", "eth1"]]);
    assert!(plan.wireguard.is_none());
}

#[test]
fn dhcp_signal_reports_delivery_failure() {
    let mut sys = SystemManager::new(VagabondConfig(minimal_config()), false);
    sys.setup_interfaces();
    let client = sys.dhcp_client_mut(0);
    client.begin_start().unwrap();
    // Above the kernel's largest process id: no such process can exist.
    client.set_pid(0x7fff_fffe);
    match sys.dhcp_renew("eth0") {
        Err(SystemError::Signal(m)) => assert_eq!(m, "No such process"),
        other => panic!("unexpected {:?}", other),
    }
    let client = sys.dhcp_client_mut(0);
    client.child_exited();
    assert_eq!(sys.dhcp_clients[0].get_pid(), 0);
    assert_eq!(sys.dhcp_clients[0].current_state(), ServiceState::Failed);
    assert_eq!(sys.dhcp_release("eth0"), Ok(()));
}

#[test]
fn wireguard_steps() {
    let mut cfg = minimal_config();
    cfg.wireguard.enabled = true;
    let mut sys = SystemManager::new(VagabondConfig(cfg), true);
    let plan = sys.setup_interfaces();
    let wg = plan.wireguard.unwrap();
    assert_eq!(wg.config_path, "/etc/wireguard/wg0.conf");
    assert_eq!(wg.down.program, "wg-quick");
    assert_eq!(wg.down.args, vec!["down", "wg0"]);
    assert_eq!(wg.up.args, vec!["up", "wg0"]);
}

#[test]
fn address_text() {
    assert_eq!(cidr(&IpAddress::V4(0xC0A8_0101), 24), "192.168.1.1/24");
    assert_eq!(cidr(&IpAddress::V4(0), 0), "0.0.0.0/0");
    assert_eq!(cidr(&IpAddress::V4(0x0A00_00FF), 8), "10.0.0.255/8");
    assert_eq!(cidr(&IpAddress::V6(1), 128), "::1/128");
    assert_eq!(cidr(&IpAddress::V6(0xfd00_0000_0000_0000_0000_0000_0000_0001), 64), "fd00::1/64");
}

#[test]
fn interface_table_merges_entries() {
    let entries = vec![
        RawEntry { name: "eth0".into(), up: true, address: RawAddress::Link { address: [1, 2, 3, 4, 5, 6] } },
        RawEntry { name: "lo".into(), up: true, address: RawAddress::V4 { address: 0x7F00_0001, netmask: 0xFF00_0000 } },
        RawEntry { name: "eth0".into(), up: false, address: RawAddress::V4 { address: 0xC0A8_014D, netmask: 0xFFFF_FF00 } },
        RawEntry { name: "eth0".into(), up: true, address: RawAddress::Other },
        RawEntry { name: "eth0".into(), up: true, address: RawAddress::V6 { address: 0xfe80_0000_0000_0000_0000_0000_0000_0abc, netmask: 0xffff_ffff_ffff_ffff_0000_0000_0000_0000 } },
    ];
    let t = get_interfaces(entries);
    assert_eq!(interface_names(&t), vec!["eth0", "lo"]);
    assert!(t[0].up);
    assert_eq!(t[0].addresses.len(), 3);
    assert_eq!(t[0].addresses[0], InterfaceAddress::Mac { address: [1, 2, 3, 4, 5, 6] });
    assert_eq!(
        t[0].addresses[1],
        InterfaceAddress::Ipv4 { address: 0xC0A8_014D, subnet: Subnet { address: IpAddress::V4(0xC0A8_0100), prefix_len: 24 } }
    );
    assert_eq!(
        t[0].addresses[2],
        InterfaceAddress::Ipv6 { address: 0xfe80_0000_0000_0000_0000_0000_0000_0abc, subnet: Subnet { address: IpAddress::V6(0xfe80_0000_0000_0000_0000_0000_0000_0000), prefix_len: 64 } }
    );
    assert_eq!(
        t[1].addresses[0],
        InterfaceAddress::Ipv4 { address: 0x7F00_0001, subnet: Subnet { address: IpAddress::V4(0x7F00_0000), prefix_len: 8 } }
    );
}

#[test]
fn listing_keeps_visible_interfaces() {
    let entries = vec![
        RawEntry { name: "lo".into(), up: true, address: RawAddress::Other },
        RawEntry { name: "eth0".into(), up: true, address: RawAddress::Other },
        RawEntry { name: "eth1".into(), up: true, address: RawAddress::Other },
        RawEntry { name: "docker0".into(), up: true, address: RawAddress::Other },
    ];
    let sys = SystemManager::new(VagabondConfig(minimal_config()), false);
    let shown = sys.get_interfaces(get_interfaces(entries));
    assert_eq!(interface_names(&shown), vec!["eth0", "eth1"]);
}

/// Carries out a plan on an in-memory rule table, as the filter tool would.
fn apply_plan(
    plan: &vagabond::netfilter::FirewallPlan,
    chains: &mut std::collections::BTreeMap<(String, String), Vec<String>>,
    policies: &mut std::collections::BTreeMap<(String, String), String>,
) {
    for p in &plan.policies {
        policies.insert((p.table.name().to_string(), p.chain.clone()), p.policy.clone());
    }
    for c in &plan.chains {
        let t = c.table.name().to_string();
        chains.insert((t.clone(), c.chain.clone()), c.rules.clone());
        let jump = vagabond::netfilter::jump_rule(&c.chain);
        let sys = chains.get_mut(&(t, c.system_chain.clone())).expect("built-in chain");
        if !sys.contains(&jump) {
            sys.push(jump);
        }
    }
}

#[test]
fn netfilter_setup_twice_is_setup_once() {
    let mut cfg = minimal_config();
    cfg.wireguard.enabled = true;
    let plan = firewall_plan(&cfg);
    let mut chains = std::collections::BTreeMap::new();
    for (t, c) in [("filter", "INPUT"), ("filter", "FORWARD"), ("filter", "OUTPUT"), ("nat", "PREROUTING"), ("nat", "INPUT"), ("nat", "OUTPUT"), ("nat", "POSTROUTING")] {
        chains.insert((t.to_string(), c.to_string()), vec!["-j DOCKER".to_string()]);
    }
    chains.insert(("filter".to_string(), "vagabond-input".to_string()), vec!["-i stale -j ACCEPT".to_string()]);
    let mut policies = std::collections::BTreeMap::new();
    apply_plan(&plan, &mut chains, &mut policies);
    let (once_chains, once_policies) = (chains.clone(), policies.clone());
    apply_plan(&plan, &mut chains, &mut policies);
    assert_eq!(chains, once_chains);
    assert_eq!(policies, once_policies);
    let input = &chains[&("filter".to_string(), "INPUT".to_string())];
    assert_eq!(input, &vec!["-j DOCKER".to_string(), "-j vagabond-input".to_string()]);
    let vin = &chains[&("filter".to_string(), "vagabond-input".to_string())];
    assert_eq!(count(vin, "-i eth1 -j ACCEPT"), 1);
    assert_eq!(count(vin, "-i stale -j ACCEPT"), 0);
    let post = &chains[&("nat".to_string(), "vagabond-postrouting".to_string())];
    assert_eq!(post, &vec!["-o eth0 -j MASQUERADE".to_string(), "-o wg0 -j MASQUERADE".to_string()]);
    assert_eq!(policies[&("filter".to_string(), "INPUT".to_string())], "DROP");
}

#[test]
fn route_rule_defaults() {
    let r = vagabond::netfilter::IPRule::default();
    assert_eq!(r.priority, 0);
    assert_eq!(r.src, vagabond::netfilter::RouteType::All);
    assert!(r.table.is_empty());
}

#[test]
fn dhcp_kill_targets() {
    let mut sys = SystemManager::new(VagabondConfig(minimal_config()), false);
    sys.setup_interfaces();
    assert_eq!(sys.dhcp_kill_args("eth0", ProcessSignal::Usr1), Ok(None));
    assert_eq!(sys.dhcp_kill_args("eth1", ProcessSignal::Usr1), Err(SystemError::InterfaceNotFound("eth1".into())));
    let client = sys.dhcp_client_mut(0);
    client.begin_start().unwrap();
    client.set_pid(4321);
    assert_eq!(sys.dhcp_kill_args("eth0", ProcessSignal::Usr1), Ok(Some((4321, ProcessSignal::Usr1))));
    assert_eq!(sys.dhcp_kill_args("eth0", ProcessSignal::Usr2), Ok(Some((4321, ProcessSignal::Usr2))));
}

#[test]
fn registry_holds_only_needed_uplinks() {
    let mut cfg = minimal_config();
    cfg.network.wans = vec![
        NetworkWan::DHCP { interface: "eth0".into() },
        NetworkWan::Unmanaged { interface: "ppp0".into() },
        NetworkWan::DHCP { interface: "eth0".into() },
    ];
    let mut sys = SystemManager::new(VagabondConfig(cfg), true);
    sys.setup_interfaces();
    let names: Vec<String> = sys.dhcp_clients.iter().map(|c| c.meta_ref().0.clone()).collect();
    assert_eq!(names, vec!["eth0"]);
}
