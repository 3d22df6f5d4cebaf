//! Plain data types carried between the desktop shell and the gateway's
//! HTTP API. The supervisor passes them through without business logic of
//! its own; they are held here as plain values (the runtime layer owns the
//! serialized forms). Free-form JSON payloads are carried as their text.

use vstd::prelude::*;

verus! {

/// `GET /health` response: gateway health as the gateway reports it.
pub struct GatewayHealth {
    pub status: String,
    pub started_at: Option<String>,
    pub instance_count: Option<u64>,
}

/// Assemble a health report from the fields found in the gateway's
/// response; a missing status degrades to "unknown" rather than an error.
pub fn make_gateway_health(
    status: Option<String>,
    started_at: Option<String>,
    instance_count: Option<u64>,
) -> (r: GatewayHealth)
    ensures
        match status {
            Some(s) => r.status == s,
            None => r.status@ == "unknown"@,
        },
        r.started_at == started_at,
        r.instance_count == instance_count,
{
    let status_text = match status {
        Some(s) => s,
        None => "unknown".to_owned(),
    };
    GatewayHealth { status: status_text, started_at, instance_count }
}

/// An audit-trail record; free-form metadata is carried as JSON text.
#[derive(Clone, Debug)]
pub struct AuditLogEntry {
    pub id: String,
    pub category: String,
    pub action: String,
    pub actor: String,
    pub metadata: String,
    pub created_at: String,
}

/// Per-agent usage counters.
pub struct AgentStats {
    pub agent_id: String,
    pub tokens_today: u64,
    pub tasks_completed: u64,
    pub last_updated: String,
}

/// Result of a quick action dispatched to an agent.
pub struct AgentActionResult {
    pub success: bool,
    pub message: String,
    pub action: String,
    pub agent_id: String,
}

/// Result of probing an agent's model-provider connection.
pub struct AgentConnectionTestResult {
    pub ok: bool,
    pub message: String,
    pub status: String,
}

/// A task as the gateway stores it.
pub struct TaskRecord {
    pub id: String,
    pub title: String,
    pub description: Option<String>,
    pub status: String,
    pub priority: String,
    pub assignee_agent_id: Option<String>,
    pub parent_task_id: Option<String>,
    pub created_at: String,
    pub updated_at: String,
}

/// Fields of a task-creation request.
pub struct TaskCreatePayload {
    pub title: String,
    pub description: Option<String>,
    pub status: Option<String>,
    pub priority: Option<String>,
    pub assignee_agent_id: Option<String>,
    pub parent_task_id: Option<String>,
}

/// Partial update of a task; the assignee field distinguishes "leave as is"
/// from "clear".
pub struct TaskPatch {
    pub title: Option<String>,
    pub description: Option<String>,
    pub status: Option<String>,
    pub priority: Option<String>,
    pub assignee_agent_id: Option<Option<String>>,
}

/// One available integration.
pub struct IntegrationEntry {
    pub slug: String,
    pub name: String,
    pub category: String,
    pub description: String,
    pub setup: Vec<String>,
    pub permissions: Vec<String>,
    pub status: String,
    pub assigned_agent_ids: Vec<String>,
}

/// Connection counts for one integration category.
pub struct IntegrationCategoryStat {
    pub name: String,
    pub connected_count: u64,
    pub total_count: u64,
}

/// Integrations listing with per-category statistics.
pub struct IntegrationsListResult {
    pub items: Vec<IntegrationEntry>,
    pub categories: Vec<IntegrationCategoryStat>,
}

/// A registered tool server.
pub struct McpServerEntry {
    pub id: String,
    pub url: String,
    pub name: String,
    pub capabilities: Vec<String>,
    pub connected: bool,
    pub approved_scopes: Vec<String>,
    pub created_at: String,
    pub last_connected_at: Option<String>,
}

/// One tool offered by a tool server.
pub struct McpToolEntry {
    pub id: String,
    pub server_id: String,
    pub name: String,
    pub description: String,
    pub scopes: Vec<String>,
}

/// Result of invoking a tool.
pub struct McpInvokeResult {
    pub output: String,
    pub latency_ms: u64,
}

/// One vault entry.
pub struct VaultEntry {
    pub id: String,
    pub entry_type: String,
    pub title: String,
    pub markdown_summary: String,
    pub importance_score: u64,
    pub tags: Vec<String>,
    pub agent_id: String,
    pub task_id: Option<String>,
    pub version: u64,
    pub blob_path: Option<String>,
    pub created_at: String,
    pub encrypted: bool,
}

/// One historical version of a vault entry.
pub struct VaultVersion {
    pub entry_id: String,
    pub version_num: u64,
    pub blob_path: Option<String>,
    pub diff: Option<String>,
    pub created_at: String,
}

/// A model provider with stored credentials.
pub struct ConnectedModelProvider {
    pub provider: String,
    pub label: String,
    pub model_hint: String,
}

/// A skill listing from the skill hub.
pub struct ClawHubSkill {
    pub slug: String,
    pub name: String,
    pub author: String,
    pub description: String,
    pub downloads: u64,
    pub stars: Option<u64>,
    pub version: String,
    pub categories: Vec<String>,
    pub permissions: Vec<String>,
    pub installed: bool,
}

/// A page of live skill listings.
pub struct ClawHubLiveSkillsResult {
    pub skills: Vec<ClawHubSkill>,
    pub next_cursor: Option<String>,
    pub source: String,
}

/// Result of installing a skill.
pub struct ClawHubInstallResult {
    pub slug: String,
    pub installed: bool,
    pub assigned_agent_id: Option<String>,
    pub message: String,
    pub requested_permission_ids: Option<Vec<String>>,
}

/// One capability grant for an agent.
pub struct PermissionGrant {
    pub id: String,
    pub agent_id: String,
    pub capability: String,
    pub granted: bool,
    pub created_at: String,
}

/// A chat thread.
pub struct SwarmChatThread {
    pub id: String,
    pub title: String,
    pub created_at: String,
    pub updated_at: String,
}

/// A saved execution checkpoint.
pub struct CheckpointRecord {
    pub id: String,
    pub swarm_id: String,
    pub step: u64,
    pub state_json: String,
    pub prompt_snapshot: Option<String>,
    pub created_at: String,
}

/// An exported telemetry payload.
pub struct TelemetryExportResult {
    pub format: String,
    pub generated_at: String,
    pub payload: String,
}

/// An exported analytics report.
pub struct AnalyticsExportResult {
    pub range: String,
    pub format: String,
    pub generated_at: String,
    pub payload: String,
}

} // verus!
