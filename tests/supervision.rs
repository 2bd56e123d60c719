use vagabond::bus::{broadcast, new_bus, receiver_count, subscribe, BusError, Event};
use vagabond::config::{Config, NetworkWan, VagabondConfig};
use vagabond::process::{after_run, ProcessManager, ProcessService, ProcessSignal, RunStep, ServiceState, SupervisorError};
use vagabond::services::{boot_daemons, status_report, Daemon, DhcpClientIface, DhcpMeta, DnsMeta, HostapdMeta, IwdMeta};
use vagabond::state::{drain_step, DrainStep, StateError, StateManager, Status};
use vagabond::websocket::{on_frame, InboundFrame, Outcome, SessionAction, WebsocketRxMessage, WebsocketTxMessage};

fn minimal_config() -> Config {
    let mut cfg = Config::default();
    cfg.dhcp.enabled = true;
    cfg.dns.enabled = true;
    cfg.network.wlan.enabled = false;
    cfg.network.wans = vec![NetworkWan::DHCP { interface: "eth0".into() }];
    cfg
}

#[test]
fn status_moves_forward_only() {
    let mut s: StateManager<u8> = StateManager::new(VagabondConfig(Config::default()));
    assert_eq!(s.current_status(), Status::Starting);
    s.finish_startup();
    assert_eq!(s.current_status(), Status::Running);
    assert!(!s.transition(Status::Starting));
    assert_eq!(s.current_status(), Status::Running);
    assert!(s.transition(Status::ShuttingDown));
    assert!(!s.transition(Status::Running));
    s.finish_startup();
    assert_eq!(s.current_status(), Status::ShuttingDown);
}

#[test]
fn app_installed_once() {
    let mut s: StateManager<u8> = StateManager::new(VagabondConfig(Config::default()));
    assert_eq!(s.vagabond().unwrap_err(), StateError::AppNotAvailable);
    assert_eq!(s.vagabond().unwrap_err().message(), "Vagabond instance not yet available!");
    assert_eq!(s.set_app_instance(1), Ok(()));
    assert_eq!(s.set_app_instance(2), Err(StateError::AppAlreadySet));
    assert_eq!(*s.vagabond().unwrap(), 1);
}

#[test]
fn shutdown_drains_subscribers() {
    let bus = new_bus();
    let mut s: StateManager<u8> = StateManager::new(VagabondConfig(Config::default()));
    assert_eq!(broadcast(&bus, Event::Shutdown), Err(BusError::NoReceivers));
    let workers: Vec<_> = (0..5).map(|_| subscribe(&bus)).collect();
    assert_eq!(receiver_count(&bus), 5);
    assert_eq!(s.shutdown(&bus), Ok(5));
    assert_eq!(s.current_status(), Status::ShuttingDown);
    assert_eq!(drain_step(receiver_count(&bus)), DrainStep::PollAfter(100));
    for mut w in workers {
        assert_eq!(w.try_recv().unwrap(), Event::Shutdown);
    }
    assert_eq!(receiver_count(&bus), 0);
    assert_eq!(drain_step(receiver_count(&bus)), DrainStep::Done);
}

#[test]
fn crash_then_restart() {
    let mut p = ProcessManager::new(DnsMeta);
    assert_eq!(p.current_state(), ServiceState::Stopped);
    p.begin_start().unwrap();
    p.set_pid(4242);
    assert_eq!(p.begin_start(), Err(SupervisorError::AlreadyRunning));
    assert_eq!(SupervisorError::AlreadyRunning.message("DNS Server"), "DNS Server service is already running!");
    p.child_exited();
    assert_eq!(p.current_state(), ServiceState::Failed);
    assert_eq!(p.get_pid(), 0);
    assert_eq!(after_run(Status::Running, p.meta_ref().restart_time()), RunStep::RestartAfter(8));
    assert_eq!(p.begin_start(), Ok(()));
    assert_eq!(p.current_state(), ServiceState::Running);
    assert_eq!(after_run(Status::ShuttingDown, 8), RunStep::Exit);
}

#[test]
fn shutdown_stops_without_failure() {
    let mut p = ProcessManager::new(HostapdMeta);
    p.begin_start().unwrap();
    assert_eq!(p.on_shutdown(), Ok(()));
    p.child_exited();
    assert_eq!(p.current_state(), ServiceState::Stopped);
}

#[test]
fn adapter_commands() {
    assert_eq!(DnsMeta.command(), "unbound");
    assert_eq!(DnsMeta.get_args(), vec!["-d", "-p", "-c", "/etc/unbound/unbound.conf"]);
    assert_eq!(DhcpMeta.get_args(), vec!["-cf", "/etc/dhcp/dhcpd.conf", "-lf", "/var/lib/dhcp/dhcpd.leases", "-f", "--no-pid"]);
    let c = DhcpClientIface("eth0".into());
    assert_eq!(c.command(), "udhcpc");
    assert_eq!(c.get_args(), vec!["-i", "eth0", "-f"]);
    assert_eq!(c.restart_time(), 30);
    assert_eq!(IwdMeta(vec!["wlan1".into(), "wlan2".into()]).get_args(), vec!["-I", "wlan1,wlan2"]);
    assert_eq!(IwdMeta(vec![]).get_args(), vec!["-I", ""]);
}

#[test]
fn minimal_boot_daemons() {
    let d = boot_daemons(&minimal_config());
    assert_eq!(d, vec![Daemon::Dns, Daemon::Dhcp, Daemon::DhcpClient("eth0".into())]);
}

#[test]
fn status_query_follows_config() {
    let mut cfg = minimal_config();
    cfg.network.wlan.enabled = true;
    cfg.dns.enabled = false;
    let r = status_report(&cfg, ServiceState::Running, ServiceState::Stopped, ServiceState::Failed);
    assert!(r.hostapd.enabled);
    assert!(!r.unbound.enabled);
    assert!(r.dhcpd.enabled);
    assert_eq!(r.hostapd.state, ServiceState::Running);
    assert_eq!(r.dhcpd.state, ServiceState::Failed);
    assert!(r.unbound.detail.is_empty());
}

#[test]
fn dispatch_error_becomes_error_frame() {
    let m = WebsocketRxMessage::WifiScan;
    match m.reply(Err("dbus in failed state gone".into())) {
        Some(WebsocketTxMessage::Error(e)) => assert_eq!(e, "dbus in failed state gone"),
        other => panic!("unexpected {:?}", other),
    }
    match m.reply(Ok(Outcome::Networks(vec![]))) {
        Some(WebsocketTxMessage::WifiScan(v)) => assert!(v.is_empty()),
        other => panic!("unexpected {:?}", other),
    }
    assert!(WebsocketRxMessage::DhcpRenew("eth0".into()).reply(Ok(Outcome::Done)).is_none());
    assert!(matches!(WebsocketRxMessage::GetStatus.reply(Ok(Outcome::Done)), Some(WebsocketTxMessage::Error(_))));
}

#[test]
fn session_frames() {
    assert!(matches!(on_frame(InboundFrame::Unparseable), SessionAction::Ignore));
    assert!(matches!(on_frame(InboundFrame::NotText), SessionAction::Ignore));
    assert!(matches!(on_frame(InboundFrame::Closed), SessionAction::Close));
    assert!(matches!(on_frame(InboundFrame::ReceiveError), SessionAction::Close));
    assert!(matches!(on_frame(InboundFrame::Request(WebsocketRxMessage::WifiDisconnect)), SessionAction::Dispatch(WebsocketRxMessage::WifiDisconnect)));
}

#[test]
fn kill_arguments_follow_the_child() {
    let mut p = ProcessManager::new(DnsMeta);
    assert_eq!(p.kill_args(ProcessSignal::Term), None);
    p.begin_start().unwrap();
    p.set_pid(77);
    assert_eq!(p.kill_args(ProcessSignal::Term), Some((77, ProcessSignal::Term)));
    p.set_pid(0x8000_0000);
    assert_eq!(p.kill_args(ProcessSignal::Term), None);
    assert_eq!(p.signal(ProcessSignal::Term), Ok(()));
}

#[test]
fn second_install_keeps_first_app() {
    let mut s: StateManager<String> = StateManager::new(VagabondConfig(Config::default()));
    s.set_app_instance("first".to_string()).unwrap();
    assert_eq!(s.set_app_instance("second".to_string()).unwrap_err().message(), "App instance already initialized!");
    assert_eq!(s.vagabond().unwrap(), "first");
}
