//! Plain data model: the records the backend returns and the summaries the
//! console derives from them. The boundary that talks to the network builds
//! these values; everything in here is ordinary data.

use vstd::prelude::*;

verus! {

/// Endpoint configuration: management-API base URL and credentials, with the
/// optional search endpoint. Immutable after construction.
#[derive(Clone)]
pub struct Config {
    pub url: String,
    pub username: String,
    pub password: String,
    pub os_url: Option<String>,
    pub os_username: Option<String>,
    pub os_password: Option<String>,
}

/// The payload of a successful credential exchange.
pub struct AuthData {
    pub token: String,
}

/// The whole authentication response.
pub struct AuthResponse {
    pub data: AuthData,
}

/// Operating-system description of a host.
#[derive(Clone)]
pub struct WazuhOS {
    pub name: Option<String>,
    pub version: Option<String>,
    pub platform: Option<String>,
    pub arch: Option<String>,
}

/// One monitored host.
#[derive(Clone)]
pub struct WazuhAgent {
    pub id: String,
    pub name: String,
    pub ip: Option<String>,
    pub status: String,
    pub version: Option<String>,
    pub node_name: Option<String>,
    pub group: Option<Vec<String>>,
    pub date_add: Option<String>,
    pub last_keep_alive: Option<String>,
    pub os: Option<WazuhOS>,
    pub manager: Option<String>,
}

pub struct WazuhAgentsData {
    pub affected_items: Vec<WazuhAgent>,
    pub total_affected_items: u32,
}

pub struct WazuhAgentsResponse {
    pub data: WazuhAgentsData,
}

/// One host group.
#[derive(Clone)]
pub struct WazuhGroup {
    pub name: String,
    pub count: Option<u32>,
}

pub struct WazuhGroupsData {
    pub affected_items: Vec<WazuhGroup>,
    pub total_affected_items: u32,
}

pub struct WazuhGroupsResponse {
    pub data: WazuhGroupsData,
}

/// Processor description. The backend reports the clock as a fraction of a
/// megahertz; the boundary rounds it to whole megahertz before it reaches
/// this record.
pub struct WazuhHardwareCpu {
    pub cores: u32,
    pub mhz: u64,
    pub name: String,
}

pub struct WazuhHardwareRam {
    pub free: u64,
    pub total: u64,
    pub usage: u32,
}

pub struct WazuhHardwareScan {
    pub id: u32,
    pub time: String,
}

pub struct WazuhHardwareItem {
    pub cpu: WazuhHardwareCpu,
    pub ram: WazuhHardwareRam,
    pub scan: WazuhHardwareScan,
    pub board_serial: String,
    pub agent_id: String,
}

pub struct WazuhHardwareData {
    pub affected_items: Vec<WazuhHardwareItem>,
    pub total_affected_items: u32,
}

pub struct WazuhHardwareResponse {
    pub data: WazuhHardwareData,
}

pub struct WazuhProcessItem {
    pub name: Option<String>,
    pub cmd: Option<String>,
    pub pid: String,
    pub state: Option<String>,
    pub agent_id: String,
}

pub struct WazuhProcessesData {
    pub affected_items: Vec<WazuhProcessItem>,
    pub total_affected_items: u32,
}

pub struct WazuhProcessesResponse {
    pub data: WazuhProcessesData,
}

#[derive(Clone)]
pub struct WazuhProgramItem {
    pub name: String,
    pub version: String,
    pub vendor: Option<String>,
    pub description: Option<String>,
    pub agent_id: String,
}

#[derive(Clone)]
pub struct WazuhProgramsData {
    pub affected_items: Vec<WazuhProgramItem>,
    pub total_affected_items: u32,
}

#[derive(Clone)]
pub struct WazuhProgramsResponse {
    pub data: WazuhProgramsData,
}

/// Alerts counted by severity bucket.
#[derive(Debug, Clone)]
pub struct ThreatStats {
    pub critical: u32,
    pub high: u32,
    pub medium: u32,
    pub low: u32,
}

impl Default for ThreatStats {
    /// All buckets empty.
    fn default() -> (r: Self)
        ensures
            r.critical == 0 && r.high == 0 && r.medium == 0 && r.low == 0,
    {
        ThreatStats { critical: 0, high: 0, medium: 0, low: 0 }
    }
}

/// Hosts counted by status bucket.
#[derive(Clone)]
pub struct AgentSummary {
    pub total: u32,
    pub active: u32,
    pub disconnected: u32,
    pub never_connected: u32,
}

#[derive(Clone)]
pub struct WazuhVulnerabilityPackage {
    pub name: String,
    pub version: String,
    pub architecture: Option<String>,
}

/// One vulnerability in the console's flat shape. `package` carries the
/// nested object when the source had one; `name` and `version` carry the
/// flat fallback fields.
#[derive(Clone)]
pub struct WazuhVulnerabilityItem {
    pub cve: String,
    pub severity: String,
    pub status: Option<String>,
    pub title: Option<String>,
    pub package: Option<WazuhVulnerabilityPackage>,
    pub name: Option<String>,
    pub version: Option<String>,
}

#[derive(Clone)]
pub struct VulnerabilitySummary {
    pub critical: u32,
    pub high: u32,
    pub medium: u32,
    pub low: u32,
    pub untriaged: u32,
}

pub struct WazuhVulnerabilitiesData {
    pub affected_items: Vec<WazuhVulnerabilityItem>,
    pub total_affected_items: u32,
}

pub struct WazuhVulnerabilitiesResponse {
    pub data: WazuhVulnerabilitiesData,
}

/// Scanner metadata of a vulnerability record in the search index.
#[derive(Clone)]
pub struct OSVulnerabilityScanner {
    pub condition: Option<String>,
    pub reference: Option<String>,
    pub source: Option<String>,
    pub vendor: Option<String>,
}

/// Vulnerability details as the search index stores them. The numeric score
/// the index also carries is display-only and stays at the boundary.
#[derive(Clone)]
pub struct OSVulnerabilityDetails {
    pub category: Option<String>,
    pub classification: Option<String>,
    pub description: Option<String>,
    pub detected_at: Option<String>,
    pub enumeration: Option<String>,
    pub id: String,
    pub published_at: Option<String>,
    pub reference: Option<String>,
    pub scanner: Option<OSVulnerabilityScanner>,
    pub severity: Option<String>,
    pub under_evaluation: Option<bool>,
}

#[derive(Clone)]
pub struct OSPackage {
    pub name: Option<String>,
    pub version: Option<String>,
    pub pkg_type: Option<String>,
    pub path: Option<String>,
}

#[derive(Clone)]
pub struct OSAgent {
    pub id: Option<String>,
    pub name: Option<String>,
}

/// One hit of the vulnerability search: the `_source` object.
#[derive(Clone)]
pub struct OSVulnerabilityHit {
    pub vulnerability: OSVulnerabilityDetails,
    pub package: Option<OSPackage>,
    pub agent: Option<OSAgent>,
}

pub struct OSVulnerabilityHitWrapper {
    pub source: OSVulnerabilityHit,
}

pub struct OSVulnerabilityHitsTotal {
    pub value: u32,
}

pub struct OSVulnerabilityHits {
    pub total: OSVulnerabilityHitsTotal,
    pub hits: Vec<OSVulnerabilityHitWrapper>,
}

pub struct OSVulnerabilityResponse {
    pub hits: OSVulnerabilityHits,
}

} // verus!
