use vagabond::iwd::{
    after_connection_lost, get_all, get_first, iwctl_connect_args, network_record, signal_dbm,
    signal_levels, wifi_device, AdapterProperties, DbusState, DeviceProperties, IwdError,
    ManagedObject, NetworkProperties, ReconnectAction, StationProperties, RECONNECT_DELAY_SECS,
};
use vagabond::state::Status;
use vagabond::wifi::{ConnectionParameters, WifiMode, WifiSecurity, WifiState};

fn network(name: &str, kind: &str, known: Option<&str>) -> NetworkProperties {
    NetworkProperties {
        name: Some(name.to_string()),
        connected: Some(false),
        type_: Some(kind.to_string()),
        device: None,
        known_network: known.map(|k| k.to_string()),
    }
}

#[test]
fn security_ignores_case() {
    assert_eq!(WifiSecurity::from("PSK".to_string()), WifiSecurity::Psk);
    assert_eq!(WifiSecurity::from("Wep".to_string()), WifiSecurity::Wep);
    assert_eq!(WifiSecurity::from("oPeN".to_string()), WifiSecurity::Open);
}

#[test]
fn security_keeps_other_names() {
    assert_eq!(
        WifiSecurity::from("8021X".to_string()),
        WifiSecurity::Other("8021X".to_string())
    );
}

#[test]
fn security_round_trips_through_name() {
    for s in [WifiSecurity::Psk, WifiSecurity::Wep, WifiSecurity::Open] {
        assert_eq!(WifiSecurity::from(s.name()), s);
    }
}

#[test]
fn modes_and_states_read_loosely() {
    assert_eq!(WifiMode::from("Access Point"), WifiMode::AccessPoint);
    assert_eq!(WifiMode::from("ad-hoc"), WifiMode::AdHoc);
    assert_eq!(WifiMode::from("STATION"), WifiMode::Station);
    assert_eq!(WifiMode::from(""), WifiMode::Unset);
    assert_eq!(WifiMode::from("Mesh"), WifiMode::Other("mesh".to_string()));
    assert_eq!(WifiState::from("Connected"), WifiState::Connected);
    assert_eq!(WifiState::from("connecting"), WifiState::Disconnected);
}

#[test]
fn scan_reply_record() {
    let rec = network_record(&network("Home", "psk", Some("/net/connman/iwd/known/0")), -5200);
    assert_eq!(rec.ssid, "Home");
    assert_eq!(rec.security, WifiSecurity::Psk);
    assert_eq!(rec.signal, -52);
    assert!(rec.known);
    assert!(rec.interface.is_none());
}

#[test]
fn unknown_network_has_root_path() {
    assert!(!network_record(&network("Cafe", "open", Some(" / ")), -7000).known);
    assert!(!network_record(&network("Cafe", "open", None), -7000).known);
}

#[test]
fn signal_rounds_toward_zero() {
    assert_eq!(signal_dbm(-5250), -52);
    assert_eq!(signal_dbm(-99), 0);
    assert_eq!(signal_dbm(1234), 12);
}

#[test]
fn device_view_uses_safe_defaults() {
    let station = StationProperties {
        state: Some("connected".to_string()),
        scanning: None,
        connected_network: None,
    };
    let device = DeviceProperties {
        name: Some("wlan0".to_string()),
        address: Some(String::new()),
        powered: None,
        mode: Some("station".to_string()),
        adapter: None,
    };
    let adapter = AdapterProperties {
        name: Some("phy0".to_string()),
        model: Some(String::new()),
        vendor: None,
        powered: Some(true),
        supported_modes: Some(vec!["ap".to_string(), "station".to_string()]),
    };
    let d = wifi_device(&station, &device, &adapter, &Some(network("Home", "psk", None)));
    assert_eq!(d.name, "wlan0");
    assert_eq!(d.phy, "phy0");
    assert_eq!(d.address, "00:00:00:00:00:00");
    assert_eq!(d.model, "unknown");
    assert_eq!(d.vendor, "unknown");
    assert!(d.powered);
    assert!(!d.scanning);
    assert_eq!(d.state, WifiState::Connected);
    assert_eq!(d.mode, WifiMode::Station);
    assert_eq!(d.supported_modes, vec![WifiMode::AccessPoint, WifiMode::Station]);
    let c = d.connected_network.unwrap();
    assert_eq!(c.ssid, "Home");
    assert_eq!(c.signal, -50);
    assert!(c.known);
    assert_eq!(c.interface, Some("wlan0".to_string()));
}

#[test]
fn disconnected_device_has_no_network() {
    let station = StationProperties { state: None, scanning: Some(true), connected_network: None };
    let device = DeviceProperties { name: None, address: None, powered: Some(false), mode: None, adapter: None };
    let adapter = AdapterProperties { name: None, model: None, vendor: None, powered: None, supported_modes: None };
    let d = wifi_device(&station, &device, &adapter, &Some(network("Home", "psk", None)));
    assert_eq!(d.state, WifiState::Disconnected);
    assert!(d.connected_network.is_none());
    assert_eq!(d.name, "unknown");
    assert!(!d.powered);
    assert!(d.scanning);
    assert!(d.supported_modes.is_empty());
}

#[test]
fn objects_filtered_by_interface() {
    let objects = vec![
        ManagedObject { path: "/".into(), interfaces: vec!["org.freedesktop.DBus.ObjectManager".into()] },
        ManagedObject { path: "/net/connman/iwd/0/4".into(), interfaces: vec!["net.connman.iwd.Device".into(), "net.connman.iwd.Station".into()] },
        ManagedObject { path: "/net/connman/iwd/0/5".into(), interfaces: vec!["net.connman.iwd.Station".into()] },
    ];
    assert_eq!(get_all(&objects, "net.connman.iwd.Station"), vec!["/net/connman/iwd/0/4".to_string(), "/net/connman/iwd/0/5".to_string()]);
    assert_eq!(get_first(&objects, "net.connman.iwd.Device"), Some("/net/connman/iwd/0/4".to_string()));
    assert_eq!(get_first(&objects, "net.connman.iwd.Adapter"), None);
}

#[test]
fn iwctl_arguments() {
    let device = DeviceProperties { name: Some("wlan0".into()), address: None, powered: None, mode: None, adapter: None };
    let open = ConnectionParameters::Ssid { ssid: "Cafe".into() };
    assert_eq!(iwctl_connect_args(&device, &open).unwrap(), vec!["station", "wlan0", "connect", "Cafe", "--dont-ask"]);
    let psk = ConnectionParameters::PresharedKey { ssid: "Home".into(), psk: "secret".into() };
    assert_eq!(
        iwctl_connect_args(&device, &psk).unwrap(),
        vec!["station", "wlan0", "connect", "Home", "--passphrase", "secret", "--dont-ask"]
    );
    let unnamed = DeviceProperties { name: None, address: None, powered: None, mode: None, adapter: None };
    assert_eq!(iwctl_connect_args(&unnamed, &open), Err(IwdError::UnnamedDevice));
}

#[test]
fn bus_loss_is_reported_and_retried() {
    let failed: DbusState<u32> = DbusState::Failed("peer gone".into());
    let e = failed.get_connection().unwrap_err();
    assert_eq!(e.message(), "dbus in failed state peer gone");
    let stopped: DbusState<u32> = DbusState::Stopped;
    assert_eq!(stopped.get_connection().unwrap_err().message(), "dbus connection not available!");
    let up: DbusState<u32> = DbusState::Connected(7);
    assert_eq!(*up.get_connection().unwrap(), 7);
    assert_eq!(after_connection_lost(Status::Running), ReconnectAction::RetryAfter(RECONNECT_DELAY_SECS));
    assert!(RECONNECT_DELAY_SECS <= 6);
    assert_eq!(after_connection_lost(Status::ShuttingDown), ReconnectAction::Stop);
}

#[test]
fn agent_thresholds() {
    assert_eq!(signal_levels(), vec![-50, -55, -60, -65, -70, -75, -80, -85, -90]);
}

#[test]
fn readers_of_lowered_text() {
    assert_eq!(WifiSecurity::from_lowered(&"psk".to_string(), "PSK".to_string()), WifiSecurity::Psk);
    assert_eq!(WifiSecurity::from_lowered(&"sae".to_string(), "SAE".to_string()), WifiSecurity::Other("SAE".to_string()));
    assert_eq!(WifiMode::from_lowered("access-point".to_string()), WifiMode::AccessPoint);
    assert_eq!(WifiMode::from_lowered(String::new()), WifiMode::Unset);
    assert_eq!(WifiState::from_lowered(&"connected".to_string()), WifiState::Connected);
    assert_eq!(WifiState::from_lowered(&"Connected".to_string()), WifiState::Disconnected);
}
