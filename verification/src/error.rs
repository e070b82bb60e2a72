//! The errors that the library's rules report.
use vstd::prelude::*;
use crate::text::owned;

verus! {

broadcast use vstd::string::group_string_axioms;

/// Why an operation was refused. Each variant carries the values that its
/// message names.
#[derive(Debug)]
pub enum Error {
    /// A required value was blank after trimming; carries the value's name.
    Required { name: String },
    /// A value that becomes a path segment was `.`, `..` or held a separator.
    NotPlainId { name: String },
    /// A target id broke the id rules.
    InvalidTargetId { target_id: String },
    /// A result field was missing, not a string, or blank.
    ResultFieldRequired { key: String },
    /// A result status outside the known list.
    UnsupportedResultStatus { status: String },
    /// A worker definition had no `worker` table.
    WorkerTableMissing,
    /// A worker definition's `worker` entry was not a table.
    WorkerTableNotObject,
    /// A required worker field was absent.
    WorkerFieldRequired { key: String },
    /// A worker field was not a non-empty string.
    WorkerFieldNotString { key: String },
    /// A worker field was not an array.
    WorkerFieldNotArray { key: String },
    /// A worker array held an item that was not a non-empty string.
    WorkerArrayItemInvalid { key: String },
    /// A worker array was empty.
    WorkerArrayEmpty { key: String },
    /// An optional worker field was present but not a string.
    WorkerOptionalNotString { key: String },
    /// `max_concurrency` was not a positive integer.
    WorkerMaxConcurrency,
    /// The `config` table was present but not a table.
    WorkerConfigNotObject,
    /// A workorder payload was not an object.
    WorkorderPayloadNotObject,
    /// An approval decision other than `approved` or `rejected`.
    ApprovalDecisionInvalid,
    /// A stored worker whose `allowed_workorder_kinds` is not an array.
    WorkerKindsMissing,
    /// A worker does not accept the workorder's kind.
    WorkerKindNotAllowed { worker_id: String, kind: String },
    /// No active worker accepts a kind.
    NoActiveWorker { kind: String },
    /// A skill other than the embedded setup skill.
    UnsupportedSkill { skill: String },
    /// An environment variable was set to the empty string.
    EnvEmpty { name: String },
    /// No variable names a home directory; carries the message's subject.
    HomeMissing { detail: String },
    /// A workspace config without a non-empty `workspace.id`; carries the
    /// config's path.
    WorkspaceIdMissing { path: String },
    /// A `custom_instructions` entry that is not a string; carries the section
    /// and the config's path.
    CustomInstructionsNotString { section: String, path: String },
    /// A URL whose last path component is empty.
    RepoNameUnderivable { url: String },
    /// `--yes` together with `--dry-run`.
    YesWithDryRun,
    /// `--yes` without any removal flag.
    NoRemovalRequested,
    /// Control-workspace removal without a workspace path.
    WorkspaceRequiredForRemoval,
    /// A deletion of the file system root, HOME or USERPROFILE.
    DangerousDelete { what: String, path: String },
    /// App-state removal of a directory that does not look owned.
    AppStateNotOwned { path: String },
    /// Removal of a directory that lacks its marker file.
    MarkerMissing { label: String, marker_path: String },
    /// `workspace init` over an existing config without overwrite.
    WorkspaceConfigExists { path: String },
    /// `init` over a file, a source checkout or another non-empty directory
    /// without overwrite; carries the path and the destination's status.
    WorkspaceCollision { path: String, reason: String },
    /// A target id that is not registered.
    TargetNotRegistered { target_id: String },
    /// A workorder id that is not registered for the target.
    WorkorderNotRegistered { workorder_id: String },
    /// A new workorder whose id the target already has.
    WorkorderExists { workorder_id: String },
    /// A worker id that is not registered for the target.
    WorkerNotRegistered { worker_id: String },
    /// An approval id that is not registered for the target.
    ApprovalNotRegistered { approval_id: String },
    /// A workspace without a readable, valid `codex-automation.toml`.
    NotAWorkspace { path: String },
    /// A workspace config that does not parse.
    WorkspaceConfigInvalid { path: String },
    /// The system clock reads before the Unix epoch or beyond the dates
    /// that can be written.
    ClockUnavailable,
    /// A target repository that is not a directory.
    TargetRepoMissing { path: String },
    /// A target path without a final name to derive an id from.
    TargetPathNoName,
    /// Runner execution asked for without the environment gate.
    RunnerExecutionGated,
}


/// The message that reports `e`.
pub open spec fn error_message(e: Error) -> Seq<char> {
    match e {
        Error::Required { name } => name@ + " is required"@,
        Error::NotPlainId { name } => name@ + " must be a plain id without path separators"@,
        Error::InvalidTargetId { target_id } => "invalid target id: "@ + target_id@,
        Error::ResultFieldRequired { key } => "result."@ + key@ + " is required"@,
        Error::UnsupportedResultStatus { status } => "unsupported result status: "@ + status@,
        Error::WorkerTableMissing => "worker TOML must contain a [worker] table"@,
        Error::WorkerTableNotObject => "worker TOML [worker] must be an object"@,
        Error::WorkerFieldRequired { key } => "worker."@ + key@ + " is required"@,
        Error::WorkerFieldNotString { key } => "worker."@ + key@ + " must be a non-empty string"@,
        Error::WorkerFieldNotArray { key } => "worker."@ + key@ + " must be an array"@,
        Error::WorkerArrayItemInvalid { key } => "worker."@ + key@ + " items must be non-empty strings"@,
        Error::WorkerArrayEmpty { key } => "worker."@ + key@ + " must contain at least one item"@,
        Error::WorkerOptionalNotString { key } => "worker."@ + key@ + " must be a string"@,
        Error::WorkerMaxConcurrency => "worker.max_concurrency must be a positive integer"@,
        Error::WorkerConfigNotObject => "worker config must be an object when present"@,
        Error::WorkorderPayloadNotObject => "workorder payload must be a JSON object"@,
        Error::ApprovalDecisionInvalid => "approval decision must be approved or rejected"@,
        Error::WorkerKindsMissing => "worker allowed_workorder_kinds missing"@,
        Error::WorkerKindNotAllowed { worker_id, kind } => "worker "@ + worker_id@ + " does not allow workorder kind "@ + kind@,
        Error::NoActiveWorker { kind } => "no active worker allows workorder kind "@ + kind@,
        Error::UnsupportedSkill { skill } => "unsupported embedded skill: "@ + skill@,
        Error::EnvEmpty { name } => name@ + " is set but empty"@,
        Error::HomeMissing { detail } => detail@,
        Error::WorkspaceIdMissing { path } => "workspace id is missing in "@ + path@,
        Error::CustomInstructionsNotString { section, path } => section@ + ".custom_instructions must be a string in "@ + path@,
        Error::RepoNameUnderivable { url } => "cannot derive repository name from URL: "@ + url@,
        Error::YesWithDryRun => "--yes and --dry-run cannot be used together"@,
        Error::NoRemovalRequested => "refusing to uninstall without explicit removal flags"@,
        Error::WorkspaceRequiredForRemoval => "--workspace is required with --remove-control-workspace"@,
        Error::DangerousDelete { what, path } => "refusing to remove "@ + what@ + ": "@ + path@,
        Error::AppStateNotOwned { path } => "refusing to remove app_state; path does not look owned by codex-automation: "@ + path@,
        Error::MarkerMissing { label, marker_path } => "refusing to remove "@ + label@ + "; marker is missing: "@ + marker_path@,
        Error::WorkspaceConfigExists { path } => "workspace config already exists: "@ + path@,
        Error::WorkspaceCollision { path, reason } => "refusing to initialize control workspace "@ + path@ + ": "@ + reason@ + "; pass --overwrite-workspace to write into it anyway"@,
        Error::TargetNotRegistered { target_id } => "target is not registered: "@ + target_id@,
        Error::WorkorderNotRegistered { workorder_id } => "workorder is not registered: "@ + workorder_id@,
        Error::WorkorderExists { workorder_id } => "workorder already exists: "@ + workorder_id@,
        Error::WorkerNotRegistered { worker_id } => "worker is not registered: "@ + worker_id@,
        Error::ApprovalNotRegistered { approval_id } => "approval is not registered: "@ + approval_id@,
        Error::NotAWorkspace { path } => "not a codex-automation workspace: "@ + path@,
        Error::WorkspaceConfigInvalid { path } => "workspace config is invalid: "@ + path@,
        Error::ClockUnavailable => "system time is before the Unix epoch or beyond the supported dates"@,
        Error::TargetRepoMissing { path } => "target repo does not exist: "@ + path@,
        Error::TargetPathNoName => "target path must have a directory name"@,
        Error::RunnerExecutionGated => "runner execution is gated; omit --execute to create a runner package, or set CODEX_AUTOMATION_ENABLE_RUNNER_EXECUTION=1 after reviewing the generated prompt"@,
    }
}

impl Error {
    /// The message that reports this error; see [`error_message`].
    pub fn message(&self) -> (r: String)
        ensures
            r@ == error_message(*self),
    {
        match self {
            Error::Required { name } => {
                let mut r = name.clone();
                r.append(" is required");
                r
            },
            Error::NotPlainId { name } => {
                let mut r = name.clone();
                r.append(" must be a plain id without path separators");
                r
            },
            Error::InvalidTargetId { target_id } => {
                let mut r = owned("invalid target id: ");
                r.append(target_id.as_str());
                r
            },
            Error::ResultFieldRequired { key } => {
                let mut r = owned("result.");
                r.append(key.as_str());
                r.append(" is required");
                r
            },
            Error::UnsupportedResultStatus { status } => {
                let mut r = owned("unsupported result status: ");
                r.append(status.as_str());
                r
            },
            Error::WorkerTableMissing => owned("worker TOML must contain a [worker] table"),
            Error::WorkerTableNotObject => owned("worker TOML [worker] must be an object"),
            Error::WorkerFieldRequired { key } => {
                let mut r = owned("worker.");
                r.append(key.as_str());
                r.append(" is required");
                r
            },
            Error::WorkerFieldNotString { key } => {
                let mut r = owned("worker.");
                r.append(key.as_str());
                r.append(" must be a non-empty string");
                r
            },
            Error::WorkerFieldNotArray { key } => {
                let mut r = owned("worker.");
                r.append(key.as_str());
                r.append(" must be an array");
                r
            },
            Error::WorkerArrayItemInvalid { key } => {
                let mut r = owned("worker.");
                r.append(key.as_str());
                r.append(" items must be non-empty strings");
                r
            },
            Error::WorkerArrayEmpty { key } => {
                let mut r = owned("worker.");
                r.append(key.as_str());
                r.append(" must contain at least one item");
                r
            },
            Error::WorkerOptionalNotString { key } => {
                let mut r = owned("worker.");
                r.append(key.as_str());
                r.append(" must be a string");
                r
            },
            Error::WorkerMaxConcurrency => owned("worker.max_concurrency must be a positive integer"),
            Error::WorkerConfigNotObject => owned("worker config must be an object when present"),
            Error::WorkorderPayloadNotObject => owned("workorder payload must be a JSON object"),
            Error::ApprovalDecisionInvalid => owned("approval decision must be approved or rejected"),
            Error::WorkerKindsMissing => owned("worker allowed_workorder_kinds missing"),
            Error::WorkerKindNotAllowed { worker_id, kind } => {
                let mut r = owned("worker ");
                r.append(worker_id.as_str());
                r.append(" does not allow workorder kind ");
                r.append(kind.as_str());
                r
            },
            Error::NoActiveWorker { kind } => {
                let mut r = owned("no active worker allows workorder kind ");
                r.append(kind.as_str());
                r
            },
            Error::UnsupportedSkill { skill } => {
                let mut r = owned("unsupported embedded skill: ");
                r.append(skill.as_str());
                r
            },
            Error::EnvEmpty { name } => {
                let mut r = name.clone();
                r.append(" is set but empty");
                r
            },
            Error::HomeMissing { detail } => detail.clone(),
            Error::WorkspaceIdMissing { path } => {
                let mut r = owned("workspace id is missing in ");
                r.append(path.as_str());
                r
            },
            Error::CustomInstructionsNotString { section, path } => {
                let mut r = section.clone();
                r.append(".custom_instructions must be a string in ");
                r.append(path.as_str());
                r
            },
            Error::RepoNameUnderivable { url } => {
                let mut r = owned("cannot derive repository name from URL: ");
                r.append(url.as_str());
                r
            },
            Error::YesWithDryRun => owned("--yes and --dry-run cannot be used together"),
            Error::NoRemovalRequested => owned("refusing to uninstall without explicit removal flags"),
            Error::WorkspaceRequiredForRemoval => owned("--workspace is required with --remove-control-workspace"),
            Error::DangerousDelete { what, path } => {
                let mut r = owned("refusing to remove ");
                r.append(what.as_str());
                r.append(": ");
                r.append(path.as_str());
                r
            },
            Error::AppStateNotOwned { path } => {
                let mut r = owned("refusing to remove app_state; path does not look owned by codex-automation: ");
                r.append(path.as_str());
                r
            },
            Error::MarkerMissing { label, marker_path } => {
                let mut r = owned("refusing to remove ");
                r.append(label.as_str());
                r.append("; marker is missing: ");
                r.append(marker_path.as_str());
                r
            },
            Error::WorkspaceConfigExists { path } => {
                let mut r = owned("workspace config already exists: ");
                r.append(path.as_str());
                r
            },
            Error::WorkspaceCollision { path, reason } => {
                let mut r = owned("refusing to initialize control workspace ");
                r.append(path.as_str());
                r.append(": ");
                r.append(reason.as_str());
                r.append("; pass --overwrite-workspace to write into it anyway");
                r
            },
            Error::TargetNotRegistered { target_id } => {
                let mut r = owned("target is not registered: ");
                r.append(target_id.as_str());
                r
            },
            Error::WorkorderNotRegistered { workorder_id } => {
                let mut r = owned("workorder is not registered: ");
                r.append(workorder_id.as_str());
                r
            },
            Error::WorkorderExists { workorder_id } => {
                let mut r = owned("workorder already exists: ");
                r.append(workorder_id.as_str());
                r
            },
            Error::WorkerNotRegistered { worker_id } => {
                let mut r = owned("worker is not registered: ");
                r.append(worker_id.as_str());
                r
            },
            Error::ApprovalNotRegistered { approval_id } => {
                let mut r = owned("approval is not registered: ");
                r.append(approval_id.as_str());
                r
            },
            Error::NotAWorkspace { path } => {
                let mut r = owned("not a codex-automation workspace: ");
                r.append(path.as_str());
                r
            },
            Error::WorkspaceConfigInvalid { path } => {
                let mut r = owned("workspace config is invalid: ");
                r.append(path.as_str());
                r
            },
            Error::ClockUnavailable => owned("system time is before the Unix epoch or beyond the supported dates"),
            Error::TargetRepoMissing { path } => {
                let mut r = owned("target repo does not exist: ");
                r.append(path.as_str());
                r
            },
            Error::TargetPathNoName => owned("target path must have a directory name"),
            Error::RunnerExecutionGated => owned("runner execution is gated; omit --execute to create a runner package, or set CODEX_AUTOMATION_ENABLE_RUNNER_EXECUTION=1 after reviewing the generated prompt"),
        }
    }
}


} // verus!
