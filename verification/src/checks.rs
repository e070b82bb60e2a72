//! The checks each storing command makes before it writes anything. Each
//! takes what the store holds (whether a target, workorder, worker or
//! approval is registered) together with the command's arguments, and
//! either refuses or hands back the validated values to write.
use vstd::prelude::*;
use crate::app_dirs::path_join;
use crate::control::{approval_decision, new_workorder, ApprovalDecision, NewWorkorder};
use crate::error::Error;
use crate::ids::valid_target_id;
use crate::json::{as_text, field, is_object, Json};
use crate::text::{owned, str_eq, trim};
use crate::worker::{
    allows_kind, definition_of, ensure_worker_allows, parse_worker_definition, reports,
    worker_fault, workspace_id_from_config, WorkerDefinition, WorkerRecord,
};
use crate::templates::{workspace_config_name, workspace_config_path};
use crate::workspace::{target_paths, TargetPaths};

verus! {

broadcast use vstd::string::group_string_axioms;

/// Refuses a target that is not registered.
pub fn check_target(target_id: &str, registered: bool) -> (r: Result<(), Error>)
    ensures
        r is Ok <==> registered,
        r matches Err(e) ==> e matches Error::TargetNotRegistered { target_id: t } && t@
            == target_id@,
{
    if !registered {
        return Err(Error::TargetNotRegistered { target_id: owned(target_id) });
    }
    Ok(())
}

/// Whether `id` is among `ids`.
pub open spec fn listed(ids: Seq<String>, id: Seq<char>) -> bool {
    exists|i: int| 0 <= i < ids.len() && ids[i]@ == id
}

fn is_listed(ids: &Vec<String>, id: &str) -> (r: bool)
    ensures
        r == listed(ids@, id@),
{
    let mut i: usize = 0;
    while i < ids.len()
        invariant
            i <= ids.len(),
            forall|k: int| 0 <= k < i ==> (#[trigger] ids@[k])@ != id@,
        decreases ids.len() - i,
    {
        if str_eq(ids[i].as_str(), id) {
            return true;
        }
        i = i + 1;
    }
    false
}

/// `workorder create`: the target must be registered, the fields must pass
/// [`new_workorder`], and no workorder of the target may already have the
/// trimmed id. `existing_ids` are the ids of the target's workorders.
pub fn check_create_workorder(
    target_id: &str,
    registered: bool,
    existing_ids: &Vec<String>,
    id: &str,
    kind: &str,
    title: &str,
    payload: &Json,
) -> (r: Result<NewWorkorder, Error>)
    ensures
        r is Ok <==> registered && trim(id@).len() > 0 && trim(kind@).len() > 0 && trim(
            title@,
        ).len() > 0 && is_object(*payload) && !listed(existing_ids@, trim(id@)),
        !registered ==> (r matches Err(Error::TargetNotRegistered { target_id: t }) && t@
            == target_id@),
        registered && trim(id@).len() == 0 ==> (r matches Err(Error::Required { name }) && name@
            == "workorder id"@),
        registered && trim(id@).len() > 0 && trim(kind@).len() == 0 ==> (r matches Err(
            Error::Required { name },
        ) && name@ == "workorder kind"@),
        registered && trim(id@).len() > 0 && trim(kind@).len() > 0 && trim(title@).len() == 0
            ==> (r matches Err(Error::Required { name }) && name@ == "workorder title"@),
        registered && trim(id@).len() > 0 && trim(kind@).len() > 0 && trim(title@).len() > 0
            && !is_object(*payload) ==> r matches Err(Error::WorkorderPayloadNotObject),
        registered && trim(id@).len() > 0 && trim(kind@).len() > 0 && trim(title@).len() > 0
            && is_object(*payload) && listed(existing_ids@, trim(id@)) ==> (r matches Err(
            Error::WorkorderExists { workorder_id: w },
        ) && w@ == trim(id@)),
        r matches Ok(w) ==> w.id@ == trim(id@) && w.kind@ == trim(kind@) && w.title@ == trim(
            title@,
        ) && w.status == crate::results::WorkorderStatus::Queued,
{
    check_target(target_id, registered)?;
    let w = new_workorder(id, kind, title, payload)?;
    if is_listed(existing_ids, w.id.as_str()) {
        return Err(Error::WorkorderExists { workorder_id: w.id });
    }
    Ok(w)
}

/// `worker add`: the target must be registered and the definition must
/// pass [`parse_worker_definition`].
pub fn check_add_worker(target_id: &str, registered: bool, payload: &Json) -> (r: Result<
    WorkerDefinition,
    Error,
>)
    ensures
        r is Ok <==> registered && worker_fault(*payload) is None,
        !registered ==> (r matches Err(Error::TargetNotRegistered { target_id: t }) && t@
            == target_id@),
        registered && worker_fault(*payload) is Some ==> (r matches Err(e) && reports(
            e,
            worker_fault(*payload)->0,
        )),
        r matches Ok(d) ==> definition_of(field(*payload, "worker"@)->0, d),
{
    check_target(target_id, registered)?;
    parse_worker_definition(payload)
}

/// `approval record`: the target must be registered, the decision must
/// pass [`approval_decision`], and the approval must be registered for the
/// target.
pub fn check_record_approval(
    target_id: &str,
    registered: bool,
    approval_id: &str,
    approval_exists: bool,
    decision: &str,
    decided_by: &str,
    message: &str,
) -> (r: Result<ApprovalDecision, Error>)
    ensures
        r is Ok <==> registered && (trim(decision@) == "approved"@ || trim(decision@)
            == "rejected"@) && trim(decided_by@).len() > 0 && trim(message@).len() > 0
            && approval_exists,
        !registered ==> (r matches Err(Error::TargetNotRegistered { target_id: t }) && t@
            == target_id@),
        registered && trim(decision@).len() == 0 ==> (r matches Err(Error::Required { name })
            && name@ == "approval decision"@),
        registered && trim(decision@).len() > 0 && !(trim(decision@) == "approved"@ || trim(
            decision@,
        ) == "rejected"@) ==> r matches Err(Error::ApprovalDecisionInvalid),
        registered && (trim(decision@) == "approved"@ || trim(decision@) == "rejected"@) && trim(
            decided_by@,
        ).len() == 0 ==> (r matches Err(Error::Required { name }) && name@ == "decided_by"@),
        registered && (trim(decision@) == "approved"@ || trim(decision@) == "rejected"@) && trim(
            decided_by@,
        ).len() > 0 && trim(message@).len() == 0 ==> (r matches Err(Error::Required { name })
            && name@ == "approval message"@),
        registered && (trim(decision@) == "approved"@ || trim(decision@) == "rejected"@) && trim(
            decided_by@,
        ).len() > 0 && trim(message@).len() > 0 && !approval_exists ==> (r matches Err(
            Error::ApprovalNotRegistered { approval_id: a },
        ) && a@ == approval_id@),
        r matches Ok(d) ==> d.approved == (trim(decision@) == "approved"@) && d.decided_by@ == trim(
            decided_by@,
        ) && d.message@ == trim(message@),
{
    proof {
        reveal_strlit("approved");
        reveal_strlit("rejected");
    }
    check_target(target_id, registered)?;
    let d = approval_decision(decision, decided_by, message)?;
    if !approval_exists {
        return Err(Error::ApprovalNotRegistered { approval_id: owned(approval_id) });
    }
    Ok(d)
}

/// Runner dispatch and prompt rendering: the target and the workorder must
/// be registered (`workorder_kind` is the stored workorder's kind, `None`
/// when it is not registered); a named worker must be registered (`worker`
/// is its stored record, `None` when it is not) and must pass
/// [`ensure_worker_allows`] for that kind.
pub fn check_handoff(
    target_id: &str,
    registered: bool,
    workorder_id: &str,
    workorder_kind: Option<&str>,
    worker_id: Option<&str>,
    worker: Option<&WorkerRecord>,
) -> (r: Result<(), Error>)
    ensures
        r is Ok <==> registered && workorder_kind is Some && (worker_id is None || (
        worker is Some && allows_kind(worker->0.allowed_workorder_kinds, workorder_kind->0@))),
        !registered ==> (r matches Err(Error::TargetNotRegistered { target_id: t }) && t@
            == target_id@),
        registered && workorder_kind is None ==> (r matches Err(
            Error::WorkorderNotRegistered { workorder_id: w },
        ) && w@ == workorder_id@),
        registered && workorder_kind is Some && worker_id is Some && worker is None ==> (r matches Err(
            Error::WorkerNotRegistered { worker_id: w },
        ) && w@ == worker_id->0@),
        registered && workorder_kind is Some && worker_id is Some && worker is Some && !(
        worker->0.allowed_workorder_kinds is Array) ==> r matches Err(Error::WorkerKindsMissing),
        registered && workorder_kind is Some && worker_id is Some && worker is Some
            && worker->0.allowed_workorder_kinds is Array && !allows_kind(
            worker->0.allowed_workorder_kinds,
            workorder_kind->0@,
        ) ==> (r matches Err(Error::WorkerKindNotAllowed { worker_id: w, kind: k }) && w@
            == worker->0.id@ && k@ == workorder_kind->0@),
{
    check_target(target_id, registered)?;
    let kind = match workorder_kind {
        Some(k) => k,
        None => {
            return Err(Error::WorkorderNotRegistered { workorder_id: owned(workorder_id) });
        },
    };
    match worker_id {
        None => Ok(()),
        Some(id) => match worker {
            None => Err(Error::WorkerNotRegistered { worker_id: owned(id) }),
            Some(w) => ensure_worker_allows(w, kind),
        },
    }
}

/// What reading a workspace's `codex-automation.toml` gave.
#[derive(Debug)]
pub enum WorkspaceConfig {
    /// The file is absent or cannot be read.
    Unreadable,
    /// The file does not parse.
    Invalid,
    /// The parsed document.
    Parsed(Json),
}

/// The `workspace.id` text of a parsed config, if it is a string.
pub open spec fn config_workspace_id(config: Json) -> Option<Seq<char>> {
    as_text(field(field(config, "workspace"@).unwrap_or(Json::Null), "id"@))
}

/// `target add`: the id must be valid, the repository must be a directory,
/// and the workspace must have a readable config that parses and has a
/// non-empty `workspace.id`. Gives the target's paths and the workspace id.
pub fn plan_add_target(
    worktrees: &str,
    workspace: &str,
    target_id: &str,
    repo: &str,
    repo_is_dir: bool,
    config: &WorkspaceConfig,
) -> (r: Result<(TargetPaths, String), Error>)
    ensures
        r is Ok <==> valid_target_id(target_id@) && repo_is_dir && (*config matches WorkspaceConfig::Parsed(c)
            && config_workspace_id(c) matches Some(t) && t.len() > 0),
        !valid_target_id(target_id@) ==> (r matches Err(Error::InvalidTargetId { target_id: t })
            && t@ == target_id@),
        valid_target_id(target_id@) && !repo_is_dir ==> (r matches Err(
            Error::TargetRepoMissing { path },
        ) && path@ == repo@),
        valid_target_id(target_id@) && repo_is_dir && config is Unreadable ==> (r matches Err(
            Error::NotAWorkspace { path },
        ) && path@ == workspace@),
        valid_target_id(target_id@) && repo_is_dir && config is Invalid ==> (r matches Err(
            Error::WorkspaceConfigInvalid { path },
        ) && path@ == path_join(workspace@, workspace_config_name())),
        valid_target_id(target_id@) && repo_is_dir && (*config matches WorkspaceConfig::Parsed(c)
            && !(config_workspace_id(c) matches Some(t) && t.len() > 0)) ==> (r matches Err(
            Error::WorkspaceIdMissing { path },
        ) && path@ == path_join(workspace@, workspace_config_name())),
        r matches Ok((p, id)) ==> p.worktree@ == path_join(worktrees@, target_id@) && p.config@
            == path_join(path_join(workspace@, "targets"@), target_id@ + ".toml"@) && (
        *config matches WorkspaceConfig::Parsed(c) && config_workspace_id(c) == Some(id@)),
{
    let paths = target_paths(worktrees, workspace, target_id)?;
    if !repo_is_dir {
        return Err(Error::TargetRepoMissing { path: owned(repo) });
    }
    let config_path = workspace_config_path(workspace);
    match config {
        WorkspaceConfig::Unreadable => Err(Error::NotAWorkspace { path: owned(workspace) }),
        WorkspaceConfig::Invalid => Err(Error::WorkspaceConfigInvalid { path: config_path }),
        WorkspaceConfig::Parsed(c) => {
            let id = workspace_id_from_config(c, config_path.as_str())?;
            Ok((paths, id))
        },
    }
}

} // verus!
