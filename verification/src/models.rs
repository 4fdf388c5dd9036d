//! The records of the `/cli/v1` JSON API.

use vstd::prelude::*;

verus! {

pub struct Viewer {
    pub id: i64,
    pub email_address: String,
    pub verified: bool,
}

pub struct ApiToken {
    pub id: i64,
    pub name: String,
    pub last_used_at: Option<String>,
    pub expires_at: Option<String>,
    pub created_at: String,
    /// Whether this is the token the request was made with.
    pub current: bool,
    /// Plaintext value, only present in the create response.
    pub plaintext: Option<String>,
}

pub struct Organization {
    pub id: i64,
    pub name: String,
}

pub struct Datacenter {
    pub id: i64,
    pub country: String,
    pub region: String,
    pub city: String,
    pub active: bool,
}

pub struct InfrastructureProject {
    pub id: i64,
    pub name: String,
    pub status: String,
    pub plan: Option<String>,
    pub datacenter_id: Option<i64>,
    pub organization_id: Option<i64>,
    pub checkout_status: Option<String>,
    pub created_at: Option<String>,
    pub checkout_url: Option<String>,
}

pub struct AppConfiguration {
    pub id: i64,
    pub infrastructure_project_id: i64,
    pub repository_name: Option<String>,
    pub repository_full_name: Option<String>,
    pub deployment_status: Option<String>,
    pub accessibility_status: Option<String>,
    pub deployment_flavor: Option<String>,
    pub fallback_domain_name: Option<String>,
    pub ip_address: Option<String>,
    pub status: Option<String>,
    pub created_at: Option<String>,
}

pub struct AppDeployment {
    pub id: i64,
    pub version_number: String,
    pub status: String,
    pub created_at: Option<String>,
    pub finished_at: Option<String>,
    pub commit_sha: Option<String>,
    pub app_configuration_id: Option<i64>,
    pub triggered_by: Option<String>,
    pub image: Option<String>,
    pub error_message: Option<String>,
}

pub struct DeploymentLogs {
    pub deployment_id: String,
    pub log_string: String,
    pub fetched_at: String,
    pub status: Option<String>,
}

/// One page of a paginated listing.
pub struct Page<T> {
    pub data: Vec<T>,
    pub page: u32,
    pub per_page: u32,
    pub total: u32,
}

/// Server response for `POST /cli/v1/device_authorizations`.
pub struct DeviceAuthorizationStart {
    pub device_code: String,
    pub user_code: String,
    pub verification_uri: String,
    pub verification_uri_complete: String,
    /// Seconds until the device code expires.
    pub expires_in: u64,
    /// Seconds to wait between polls.
    pub interval: u64,
}

/// Server response for `POST /cli/v1/device_authorizations/poll` on success.
pub struct DeviceAuthorizationPollOk {
    pub token: PollTokenPayload,
}

pub struct PollTokenPayload {
    pub id: i64,
    pub name: String,
    pub expires_at: Option<String>,
    pub created_at: String,
    pub plaintext: String,
}

/// Distinguishes the three normal poll outcomes the CLI loops over.
pub enum PollOutcome {
    Approved(PollTokenPayload),
    Pending,
    Expired,
}

pub struct DeploymentsPage {
    pub data: Vec<AppDeployment>,
    pub page: u32,
    pub per_page: u32,
    pub total: u32,
}

pub struct CommitSummary {
    pub sha: String,
    pub message: String,
}

pub struct DeploymentCommitsPage {
    pub data: Vec<CommitSummary>,
}

pub struct ProjectCreateResult {
    pub project: InfrastructureProject,
    pub checkout_url: Option<String>,
}

} // verus!
