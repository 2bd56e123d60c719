use vstd::prelude::*;
use crate::interfaces::Interface;
use crate::services::{ServiceStatus, StatusReport};
use crate::wifi::{ConnectionParameters, WifiDevice, WifiNetwork};

verus! {

/// A request from a control-channel client.
#[derive(Debug)]
pub enum WebsocketRxMessage {
    /// List the networks in range.
    WifiScan,
    /// Describe the wireless device.
    WifiStatus,
    /// Join a network.
    WifiConnect(ConnectionParameters),
    /// Leave the current network.
    WifiDisconnect,
    /// Report the health of the services.
    GetStatus,
    /// List the visible interfaces.
    ListInterfaces,
    /// Renew the DHCP lease of the named uplink.
    DhcpRenew(String),
    /// Release the DHCP lease of the named uplink.
    DhcpRelease(String),
}

/// A message to a control-channel client.
#[derive(Debug)]
pub enum WebsocketTxMessage {
    Status { hostapd: ServiceStatus, unbound: ServiceStatus, dhcpd: ServiceStatus },
    Interfaces(Vec<Interface>),
    WifiStatus(WifiDevice),
    WifiScan(Vec<WifiNetwork>),
    Error(String),
}

/// What carrying out a request produced.
#[derive(Debug)]
pub enum Outcome {
    Networks(Vec<WifiNetwork>),
    Device(WifiDevice),
    Interfaces(Vec<Interface>),
    Status(StatusReport),
    /// A command that produces nothing to send back succeeded.
    Done,
}

/// The kind of result that a request calls for.
pub open spec fn outcome_fits(rx: WebsocketRxMessage, o: Outcome) -> bool {
    match rx {
        WebsocketRxMessage::WifiScan => o is Networks,
        WebsocketRxMessage::WifiStatus => o is Device,
        WebsocketRxMessage::ListInterfaces => o is Interfaces,
        WebsocketRxMessage::GetStatus => o is Status,
        _ => o is Done,
    }
}

/// The text of the error sent when a request's result is not of the kind it calls for.
pub const MISMATCHED_OUTCOME: &'static str = "internal error: unexpected result for request";

impl WebsocketRxMessage {
    /// What to send back once the request was carried out: its failure, the answer to a
    /// query, or nothing after a command.
    pub fn reply(&self, result: Result<Outcome, String>) -> (r: Option<WebsocketTxMessage>)
        ensures
            result matches Err(m) ==> (r matches Some(WebsocketTxMessage::Error(e)) && e@ == m@),
            result matches Ok(o) ==> {
                if !outcome_fits(*self, o) {
                    r matches Some(WebsocketTxMessage::Error(e)) && e@ == MISMATCHED_OUTCOME@
                } else {
                    match o {
                        Outcome::Networks(n) => r == Some(WebsocketTxMessage::WifiScan(n)),
                        Outcome::Device(d) => r == Some(WebsocketTxMessage::WifiStatus(d)),
                        Outcome::Interfaces(i) => r == Some(WebsocketTxMessage::Interfaces(i)),
                        Outcome::Status(s) => r == Some(
                            WebsocketTxMessage::Status { hostapd: s.hostapd, unbound: s.unbound, dhcpd: s.dhcpd },
                        ),
                        Outcome::Done => r is None,
                    }
                }
            },
    {
        match result {
            Err(m) => Some(WebsocketTxMessage::Error(m)),
            Ok(o) => {
                let fits = match (self, &o) {
                    (WebsocketRxMessage::WifiScan, Outcome::Networks(_)) => true,
                    (WebsocketRxMessage::WifiStatus, Outcome::Device(_)) => true,
                    (WebsocketRxMessage::ListInterfaces, Outcome::Interfaces(_)) => true,
                    (WebsocketRxMessage::GetStatus, Outcome::Status(_)) => true,
                    (WebsocketRxMessage::WifiScan, _) => false,
                    (WebsocketRxMessage::WifiStatus, _) => false,
                    (WebsocketRxMessage::ListInterfaces, _) => false,
                    (WebsocketRxMessage::GetStatus, _) => false,
                    (_, Outcome::Done) => true,
                    (_, _) => false,
                };
                if !fits {
                    Some(WebsocketTxMessage::Error(crate::text::owned(MISMATCHED_OUTCOME)))
                } else {
                    match o {
                        Outcome::Networks(n) => Some(WebsocketTxMessage::WifiScan(n)),
                        Outcome::Device(d) => Some(WebsocketTxMessage::WifiStatus(d)),
                        Outcome::Interfaces(i) => Some(WebsocketTxMessage::Interfaces(i)),
                        Outcome::Status(s) => Some(
                            WebsocketTxMessage::Status { hostapd: s.hostapd, unbound: s.unbound, dhcpd: s.dhcpd },
                        ),
                        Outcome::Done => None,
                    }
                }
            },
        }
    }
}

/// One event on a control-channel session.
#[derive(Debug)]
pub enum InboundFrame {
    /// A text frame that reads as a request.
    Request(WebsocketRxMessage),
    /// A text frame that does not read as a request.
    Unparseable,
    /// A frame that is not text (binary, ping, pong).
    NotText,
    /// Receiving failed.
    ReceiveError,
    /// The peer closed the session.
    Closed,
}

/// What a session does with an event.
#[derive(Debug)]
pub enum SessionAction {
    /// Carry out the request and send back its reply, if any.
    Dispatch(WebsocketRxMessage),
    /// Log it and wait for the next frame.
    Ignore,
    /// End the session.
    Close,
}

/// The session's decision per event: requests are carried out, unreadable frames ignored,
/// and a receive error or the peer's close ends the session.
pub fn on_frame(frame: InboundFrame) -> (r: SessionAction)
    ensures
        frame matches InboundFrame::Request(m) ==> r == SessionAction::Dispatch(m),
        (frame is Unparseable || frame is NotText) ==> r is Ignore,
        (frame is ReceiveError || frame is Closed) ==> r is Close,
{
    match frame {
        InboundFrame::Request(m) => SessionAction::Dispatch(m),
        InboundFrame::Unparseable | InboundFrame::NotText => SessionAction::Ignore,
        InboundFrame::ReceiveError | InboundFrame::Closed => SessionAction::Close,
    }
}

} // verus!
