//! The commands of the command line and of the interactive mode: what a
//! client tells the user after asking the daemon.
use vstd::prelude::*;

use crate::daemon::serve;
use crate::network::Packet;
use crate::network::PacketView;

verus! {

/// Talks to a running daemon.
pub struct DaemonControl {}

/// Reads values of the machine.
pub struct Get {}

/// Sets values of the machine.
pub struct SetValue {}

/// The three groups of commands.
pub struct Interface {
    pub get: Get,
    pub set: SetValue,
    pub dec: DaemonControl,
}

pub open spec fn unexpected() -> Seq<char> {
    "Failed: Unexpected response packet"@
}

/// What a client says about the daemon's answer to a disable request.
pub open spec fn disable_text(reply: PacketView) -> Seq<char> {
    match reply {
        PacketView::DaemonDisableResponse(true) => "The running daemon has been disabled"@,
        PacketView::DaemonDisableResponse(false) => "The running daemon is already disabled"@,
        _ => unexpected(),
    }
}

/// What a client says about the daemon's answer to an enable request.
pub open spec fn enable_text(reply: PacketView) -> Seq<char> {
    match reply {
        PacketView::DaemonEnableResponse(true) => "The running daemon has been enabled"@,
        PacketView::DaemonEnableResponse(false) => "The running daemon is already enabled"@,
        _ => unexpected(),
    }
}

/// What a client says about the daemon's answer to a status request.
pub open spec fn status_text(reply: PacketView) -> Seq<char> {
    match reply {
        PacketView::DaemonStatusResponse(true) => "The daemon is currently enabled"@,
        PacketView::DaemonStatusResponse(false) => "The daemon is currently disabled"@,
        _ => unexpected(),
    }
}

/// The second request of a toggle, from the answer to the status request.
pub open spec fn toggle_request_of(status: PacketView) -> Option<PacketView> {
    match status {
        PacketView::DaemonStatusResponse(true) => Some(PacketView::DaemonDisableRequest),
        PacketView::DaemonStatusResponse(false) => Some(PacketView::DaemonEnableRequest),
        _ => None,
    }
}

/// What a client says after the second request of a toggle.
pub open spec fn toggle_text(reply: PacketView) -> Seq<char> {
    match reply {
        PacketView::DaemonDisableResponse(_) => "The running daemon has been disabled"@,
        PacketView::DaemonEnableResponse(_) => "The running daemon has been enabled"@,
        _ => unexpected(),
    }
}

impl DaemonControl {
    /// The request that disables the daemon.
    pub fn disable_request(&self) -> (p: Packet)
        ensures
            p@ == PacketView::DaemonDisableRequest,
    {
        Packet::DaemonDisableRequest()
    }

    /// The request that enables the daemon.
    pub fn enable_request(&self) -> (p: Packet)
        ensures
            p@ == PacketView::DaemonEnableRequest,
    {
        Packet::DaemonEnableRequest()
    }

    /// The request for the daemon's status.
    pub fn status_request(&self) -> (p: Packet)
        ensures
            p@ == PacketView::DaemonStatusRequest,
    {
        Packet::DaemonStatusRequest()
    }

    /// What to tell the user about the answer to a disable request.
    pub fn disable_reply(&self, reply: &Packet) -> (s: &'static str)
        ensures
            s@ == disable_text(reply@),
    {
        match reply {
            Packet::DaemonDisableResponse(success) => if *success {
                "The running daemon has been disabled"
            } else {
                "The running daemon is already disabled"
            },
            _ => "Failed: Unexpected response packet",
        }
    }

    /// What to tell the user about the answer to an enable request.
    pub fn enable_reply(&self, reply: &Packet) -> (s: &'static str)
        ensures
            s@ == enable_text(reply@),
    {
        match reply {
            Packet::DaemonEnableResponse(success) => if *success {
                "The running daemon has been enabled"
            } else {
                "The running daemon is already enabled"
            },
            _ => "Failed: Unexpected response packet",
        }
    }

    /// What to tell the user about the answer to a status request.
    pub fn status_reply(&self, reply: &Packet) -> (s: &'static str)
        ensures
            s@ == status_text(reply@),
    {
        match reply {
            Packet::DaemonStatusResponse(status) => if *status {
                "The daemon is currently enabled"
            } else {
                "The daemon is currently disabled"
            },
            _ => "Failed: Unexpected response packet",
        }
    }

    /// The second request of a toggle, from the answer to the status
    /// request: disable a running daemon, enable a disabled one; `None`
    /// (the toggle fails) for any other answer.
    pub fn toggle_request(&self, status_reply: &Packet) -> (p: Option<Packet>)
        ensures
            match p {
                Some(q) => toggle_request_of(status_reply@) == Some(q@),
                None => toggle_request_of(status_reply@) is None,
            },
    {
        match status_reply {
            Packet::DaemonStatusResponse(status) => if *status {
                Some(Packet::DaemonDisableRequest())
            } else {
                Some(Packet::DaemonEnableRequest())
            },
            _ => None,
        }
    }

    /// What to tell the user after the second request of a toggle.
    pub fn toggle_reply(&self, reply: &Packet) -> (s: &'static str)
        ensures
            s@ == toggle_text(reply@),
    {
        match reply {
            Packet::DaemonDisableResponse(_) => "The running daemon has been disabled",
            Packet::DaemonEnableResponse(_) => "The running daemon has been enabled",
            _ => "Failed: Unexpected response packet",
        }
    }
}

/// A toggle flips a daemon: asked for its status and then sent the request
/// that the answer calls for, a running daemon ends paused and a paused one
/// ends running, and the client reports the change.
pub proof fn law_toggle_flips(paused: bool)
    ensures
        ({
            let status = serve(paused, PacketView::DaemonStatusRequest);
            let request = toggle_request_of(status.1->0);
            let answer = serve(status.0, request->0);
            &&& status.0 == paused
            &&& request is Some
            &&& answer.0 == !paused
            &&& toggle_text(answer.1->0) == if paused {
                "The running daemon has been enabled"@
            } else {
                "The running daemon has been disabled"@
            }
        }),
{
}

} // verus!
