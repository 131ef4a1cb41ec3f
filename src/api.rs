//! Request and response shapes of the off-chain query service that mirrors
//! agreements for browsing. The service itself stores and serves them; these
//! are the plain values it exchanges with its clients.
use vstd::prelude::*;

verus! {

/// Credentials for a login.
pub struct LoginPayload {
    pub email: String,
    pub password: String,
}

/// The session token issued on a successful login.
pub struct LoginResponse {
    pub token: String,
}

/// A new user account.
pub struct CreateUserPayload {
    pub email: String,
    pub password: String,
    pub wallet_public_key: String,
    pub full_name: Option<String>,
}

/// Changes to the caller's own account; `None` keeps the current value.
pub struct UpdateUserPayload {
    pub full_name: Option<String>,
    pub wallet_public_key: Option<String>,
}

/// A new startup profile.
pub struct CreateStartupPayload {
    pub name: String,
    pub slogan: Option<String>,
    pub description: Option<String>,
    pub problem: Option<String>,
    pub logo_url: Option<String>,
    pub video_pitch_url: Option<String>,
}

/// Changes to a startup profile; `None` keeps the current value.
pub struct UpdateStartupPayload {
    pub name: Option<String>,
    pub slogan: Option<String>,
    pub description: Option<String>,
    pub problem: Option<String>,
    pub logo_url: Option<String>,
    pub video_pitch_url: Option<String>,
}

/// Where a mirrored agreement stands in the service's listing.
#[derive(Debug, Clone, Copy, PartialEq, Eq, Structural)]
pub enum ContractStatus {
    Draft,
    Active,
    Completed,
    Cancelled,
}

/// A new milestone of an agreement.
pub struct CreateMilestonePayload {
    pub title: String,
    pub description: Option<String>,
}

/// Changes to a milestone; `None` keeps the current value.
pub struct UpdateMilestonePayload {
    pub title: Option<String>,
    pub description: Option<String>,
}

/// A file attached to a startup profile.
pub struct CreateFilePayload {
    pub file_url: String,
    pub description: Option<String>,
}

/// The visual state of an investment's proof token at a milestone.
pub struct CreateNftProgressPayload {
    pub visual_state: Option<String>,
}

/// A wallet linked to the caller's account.
pub struct CreateWalletConnectionPayload {
    pub wallet_public_key: String,
    pub network: Option<String>,
}

impl Default for UpdateUserPayload {
    /// Changes nothing.
    fn default() -> (r: Self)
        ensures
            r.full_name is None,
            r.wallet_public_key is None,
    {
        UpdateUserPayload { full_name: None, wallet_public_key: None }
    }
}

impl Default for UpdateStartupPayload {
    /// Changes nothing.
    fn default() -> (r: Self)
        ensures
            r.name is None,
            r.slogan is None,
            r.description is None,
            r.problem is None,
            r.logo_url is None,
            r.video_pitch_url is None,
    {
        UpdateStartupPayload {
            name: None,
            slogan: None,
            description: None,
            problem: None,
            logo_url: None,
            video_pitch_url: None,
        }
    }
}

impl Default for UpdateMilestonePayload {
    /// Changes nothing.
    fn default() -> (r: Self)
        ensures
            r.title is None,
            r.description is None,
    {
        UpdateMilestonePayload { title: None, description: None }
    }
}

} // verus!
