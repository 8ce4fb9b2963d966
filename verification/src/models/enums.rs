//! Enumerations shared across the platform.

use vstd::prelude::*;

verus! {

/// The role a WebSocket client plays in a debugging group.
#[derive(PartialEq, Eq, Structural, Clone, Copy, Debug, Hash)]
pub enum ClientRole {
    /// The control-center desktop application.
    ControlCenter,
    /// The on-site mobile application.
    OnSiteMobile,
    /// A client whose role is not (yet) known.
    Unknown,
}

/// The name under which a role is displayed.
pub open spec fn role_name(role: ClientRole) -> Seq<char> {
    match role {
        ClientRole::ControlCenter => "ControlCenter"@,
        ClientRole::OnSiteMobile => "OnSiteMobile"@,
        ClientRole::Unknown => "Unknown"@,
    }
}

impl ClientRole {
    /// The role's display name: the variant's name.
    pub fn to_string(&self) -> (s: String)
        ensures
            s@ == role_name(*self),
    {
        match self {
            ClientRole::ControlCenter => "ControlCenter".to_owned(),
            ClientRole::OnSiteMobile => "OnSiteMobile".to_owned(),
            ClientRole::Unknown => "Unknown".to_owned(),
        }
    }

    /// The role that completes a group with this one: the control center pairs
    /// with the on-site mobile client and back; an unknown role has no partner.
    pub fn partner_role(&self) -> (p: Option<ClientRole>)
        ensures
            p == partner_of(*self),
    {
        match self {
            ClientRole::ControlCenter => Some(ClientRole::OnSiteMobile),
            ClientRole::OnSiteMobile => Some(ClientRole::ControlCenter),
            ClientRole::Unknown => None,
        }
    }
}

/// The partner role of a role within a group.
pub open spec fn partner_of(role: ClientRole) -> Option<ClientRole> {
    match role {
        ClientRole::ControlCenter => Some(ClientRole::OnSiteMobile),
        ClientRole::OnSiteMobile => Some(ClientRole::ControlCenter),
        ClientRole::Unknown => None,
    }
}

/// The status of a pre-check item.
#[derive(PartialEq, Eq, Structural, Clone, Copy, Debug)]
pub enum PreCheckStatus {
    /// Waiting to be checked.
    Pending,
    /// The check passed.
    Passed,
    /// The check failed.
    Failed,
    /// Skipped or not applicable.
    Skipped,
}

} // verus!
