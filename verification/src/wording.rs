//! The words in which a peer is told things.

use vstd::prelude::*;

use crate::message::{CloseReason, Details, ElevationOutcome, LoginError, Prompt};

verus! {

/// First `a`, then `b`.
fn joined(a: &str, b: &str) -> (text: String)
    ensures
        text@ == a@ + b@,
{
    let mut text = a.to_owned();
    text.append(b);
    text
}

/// The words for an address that cannot be reached.
pub open spec fn unreachable_words(addr: Seq<char>) -> Seq<char> {
    "Failed to access remote "@ + addr + ", please make sure if it is open"@
}

/// Says that an address cannot be reached.
fn unreachable_text(addr: &str) -> (text: String)
    ensures
        text@ == unreachable_words(addr@),
{
    let mut text = joined("Failed to access remote ", addr);
    text.append(", please make sure if it is open");
    text
}

impl LoginError {
    /// The words for an error. Absent for those whose words both sides share as constants, by which
    /// the peer tells them apart.
    pub open spec fn words(self) -> Option<Seq<char>> {
        match self {
            LoginError::PrivacyModeOn => Some("Someone turns on privacy mode, exit"@),
            LoginError::IpBlocked => Some("Your ip is blocked by the peer"@),
            LoginError::MainWindowNotOpen => Some("The main window is not open"@),
            LoginError::NoFileTransferPermission => Some("No permission of file transfer"@),
            LoginError::NoTunnelPermission => Some("No permission of IP tunneling"@),
            LoginError::ForwardUnreachable { addr } => Some(unreachable_words(addr@)),
            LoginError::RdpUnreachable => Some(unreachable_words("RDP"@)),
            LoginError::NotAllowed => Some("Connection not allowed"@),
            LoginError::TooManyWrongAttempts => Some("Too many wrong attempts"@),
            LoginError::TryOneMinuteLater => Some("Please try 1 minute later"@),
            LoginError::UnsupportedDisplayServer { kind } => Some(
                "Unsupported display server type \""@ + kind@ + "\", x11 or wayland expected"@,
            ),
            LoginError::Other(text) => Some(text@),
            _ => None,
        }
    }

    /// The words for an error, where they are not shared constants.
    pub fn text(&self) -> (text: Option<String>)
        ensures
            match text {
                Some(text) => self.words() == Some(text@),
                None => self.words() is None,
            },
    {
        match self {
            LoginError::PrivacyModeOn => Some("Someone turns on privacy mode, exit".to_owned()),
            LoginError::IpBlocked => Some("Your ip is blocked by the peer".to_owned()),
            LoginError::MainWindowNotOpen => Some("The main window is not open".to_owned()),
            LoginError::NoFileTransferPermission => Some(
                "No permission of file transfer".to_owned(),
            ),
            LoginError::NoTunnelPermission => Some("No permission of IP tunneling".to_owned()),
            LoginError::ForwardUnreachable { addr } => Some(unreachable_text(addr.as_str())),
            LoginError::RdpUnreachable => Some(unreachable_text("RDP")),
            LoginError::NotAllowed => Some("Connection not allowed".to_owned()),
            LoginError::TooManyWrongAttempts => Some("Too many wrong attempts".to_owned()),
            LoginError::TryOneMinuteLater => Some("Please try 1 minute later".to_owned()),
            LoginError::UnsupportedDisplayServer { kind } => {
                let mut text = joined("Unsupported display server type \"", kind.as_str());
                text.append("\", x11 or wayland expected");
                Some(text)
            },
            LoginError::Other(text) => Some(text.clone()),
            _ => None,
        }
    }
}

impl Details {
    /// The words for a detail.
    pub open spec fn words(self) -> Seq<char> {
        match self {
            Details::Empty => Seq::empty(),
            Details::NoPermission => "No permission"@,
            Details::NotSupported => "Not supported"@,
            Details::PrivacyUnsupported => {
                "Unsupported. 1 Multi-screen is not supported. 2 Please confirm the license is activated."@
            },
            Details::Other(text) => text@,
        }
    }

    /// The words for a detail.
    pub fn text(&self) -> (text: String)
        ensures
            text@ == self.words(),
    {
        match self {
            Details::Empty => String::new(),
            Details::NoPermission => "No permission".to_owned(),
            Details::NotSupported => "Not supported".to_owned(),
            Details::PrivacyUnsupported => {
                "Unsupported. 1 Multi-screen is not supported. 2 Please confirm the license is activated.".to_owned()
            },
            Details::Other(text) => text.clone(),
        }
    }
}

impl CloseReason {
    /// The words for the reason. A peer that gets one of them does not come back by itself.
    pub open spec fn words(self) -> Seq<char> {
        match self {
            CloseReason::ClosedByPeer => "Closed manually by the peer"@,
            CloseReason::ClosedByWebConsole => "Closed manually by web console"@,
            CloseReason::Inactivity => "Connection failed due to inactivity"@,
        }
    }

    /// The words for the reason.
    pub fn text(&self) -> (text: String)
        ensures
            text@ == self.words(),
    {
        match self {
            CloseReason::ClosedByPeer => "Closed manually by the peer".to_owned(),
            CloseReason::ClosedByWebConsole => "Closed manually by web console".to_owned(),
            CloseReason::Inactivity => "Connection failed due to inactivity".to_owned(),
        }
    }
}

impl ElevationOutcome {
    /// The words for what came of a wish for more rights; none where it was met.
    pub open spec fn words(self) -> Seq<char> {
        match self {
            ElevationOutcome::NoPermission => "No permission"@,
            ElevationOutcome::NoNeed => "No need to elevate"@,
            ElevationOutcome::Started => Seq::empty(),
            ElevationOutcome::Failed(error) => error@,
        }
    }

    /// The words for what came of a wish for more rights.
    pub fn text(&self) -> (text: String)
        ensures
            text@ == self.words(),
    {
        match self {
            ElevationOutcome::NoPermission => "No permission".to_owned(),
            ElevationOutcome::NoNeed => "No need to elevate".to_owned(),
            ElevationOutcome::Started => String::new(),
            ElevationOutcome::Failed(error) => error.clone(),
        }
    }
}

impl Prompt {
    /// The title of a prompt.
    pub fn title(&self) -> (title: String)
        ensures
            title@ == match self {
                Prompt::SwitchDisplayElevated => "Prompt"@,
                Prompt::CaptureDisplayElevated => "Prompt"@,
                _ => "Virtual display"@,
            },
    {
        match self {
            Prompt::SwitchDisplayElevated => "Prompt".to_owned(),
            Prompt::CaptureDisplayElevated => "Prompt".to_owned(),
            _ => "Virtual display".to_owned(),
        }
    }

    /// The words of a prompt; some are names of texts that the peer has in its own language.
    pub open spec fn words(self) -> Seq<char> {
        match self {
            Prompt::SwitchDisplayElevated => "switch_display_elevated_connections_tip"@,
            Prompt::CaptureDisplayElevated => "capture_display_elevated_connections_tip"@,
            Prompt::VirtualDisplayUnsupported => "idd_not_support_under_win10_2004_tip"@,
            Prompt::PlugInFailed { error } => "Failed to plug in virtual display: "@ + error@,
            Prompt::PlugOutFailed { error } => "Failed to plug out virtual displays: "@ + error@,
        }
    }

    /// The words of a prompt.
    pub fn text(&self) -> (text: String)
        ensures
            text@ == self.words(),
    {
        match self {
            Prompt::SwitchDisplayElevated => "switch_display_elevated_connections_tip".to_owned(),
            Prompt::CaptureDisplayElevated => {
                "capture_display_elevated_connections_tip".to_owned()
            },
            Prompt::VirtualDisplayUnsupported => {
                "idd_not_support_under_win10_2004_tip".to_owned()
            },
            Prompt::PlugInFailed { error } => joined(
                "Failed to plug in virtual display: ",
                error.as_str(),
            ),
            Prompt::PlugOutFailed { error } => joined(
                "Failed to plug out virtual displays: ",
                error.as_str(),
            ),
        }
    }
}

} // verus!
