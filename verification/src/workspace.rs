//! Control-workspace rules: how a new workspace is named, when an existing
//! config blocks initialization, and where a target's files go.
use vstd::prelude::*;
use crate::app_dirs::{join, path_join};
use crate::error::Error;
use crate::ids::{slugify_id, slugify_spec, valid_target_id, validate_target_id};
use crate::templates::workspace_config_name;
use crate::text::{cat, owned, str_eq};

verus! {

broadcast use vstd::string::group_string_axioms;

/// The name and id a new workspace gets.
#[derive(Debug)]
pub struct WorkspaceIdentity {
    pub name: String,
    pub id: String,
}

/// The name of a workspace: the one given, else its directory's name, else
/// `codex-automation`.
pub open spec fn workspace_name_spec(name: Option<Seq<char>>, dir_name: Option<Seq<char>>) -> Seq<char> {
    match name {
        Some(n) => n,
        None => match dir_name {
            Some(d) => d,
            None => "codex-automation"@,
        },
    }
}

/// Names a new workspace and refuses to replace an existing config unless
/// `overwrite` is set. The workspace id is the slug of its name.
pub fn plan_workspace_init(
    name: Option<&str>,
    dir_name: Option<&str>,
    config_path: &str,
    config_exists: bool,
    overwrite: bool,
) -> (r: Result<WorkspaceIdentity, Error>)
    ensures
        r is Ok <==> !config_exists || overwrite,
        r matches Ok(w) ==> w.name@ == workspace_name_spec(
            match name { Some(n) => Some(n@), None => None },
            match dir_name { Some(d) => Some(d@), None => None },
        ) && w.id@ == slugify_spec(w.name@) && valid_target_id(w.id@),
        r matches Err(e) ==> e matches Error::WorkspaceConfigExists { path } && path@ == config_path@,
{
    let n = match name {
        Some(n) => owned(n),
        None => match dir_name {
            Some(d) => owned(d),
            None => owned("codex-automation"),
        },
    };
    let id = slugify_id(n.as_str());
    if config_exists && !overwrite {
        return Err(Error::WorkspaceConfigExists { path: owned(config_path) });
    }
    Ok(WorkspaceIdentity { name: n, id })
}

/// What `init` does with the control workspace.
#[derive(Debug, Clone, Copy, PartialEq, Eq, Structural)]
pub enum WorkspaceAction {
    Reused,
    Initialized,
}

/// `init` reuses a workspace that already has a config, unless asked to
/// overwrite it.
pub fn init_workspace_action(config_exists: bool, overwrite: bool) -> (a: WorkspaceAction)
    ensures
        a == if config_exists && !overwrite {
            WorkspaceAction::Reused
        } else {
            WorkspaceAction::Initialized
        },
{
    if config_exists && !overwrite {
        WorkspaceAction::Reused
    } else {
        WorkspaceAction::Initialized
    }
}

/// What is at the path chosen for a control workspace.
#[derive(Debug, Clone, Copy, PartialEq, Eq, Structural)]
pub enum DestinationStatus {
    /// Nothing is there yet.
    Missing,
    /// Something other than a directory is there.
    NotADirectory,
    /// An empty directory.
    EmptyDirectory,
    /// A directory that already holds a workspace config.
    ControlWorkspace,
    /// A directory without a workspace config that holds a project manifest
    /// or a `.git` entry.
    SourceCheckout,
    /// Any other non-empty directory without a workspace config.
    OtherFiles,
}

/// The directory entries that mark a source checkout.
pub open spec fn is_source_marker(name: Seq<char>) -> bool {
    ||| name == ".git"@
    ||| name == "Cargo.toml"@
    ||| name == "package.json"@
    ||| name == "pyproject.toml"@
    ||| name == "go.mod"@
    ||| name == "pnpm-workspace.yaml"@
    ||| name == "requirements.txt"@
    ||| name == "Makefile"@
}

fn source_marker(name: &str) -> (r: bool)
    ensures
        r == is_source_marker(name@),
{
    str_eq(name, ".git") || str_eq(name, "Cargo.toml") || str_eq(name, "package.json") || str_eq(
        name,
        "pyproject.toml",
    ) || str_eq(name, "go.mod") || str_eq(name, "pnpm-workspace.yaml") || str_eq(
        name,
        "requirements.txt",
    ) || str_eq(name, "Makefile")
}

/// The status of a destination from whether it exists, whether it is a
/// directory, and the names of its entries. A workspace config wins over
/// every other entry.
pub open spec fn destination_spec(exists: bool, is_dir: bool, entries: Seq<String>) -> DestinationStatus {
    if !exists {
        DestinationStatus::Missing
    } else if !is_dir {
        DestinationStatus::NotADirectory
    } else if exists|i: int| 0 <= i < entries.len() && entries[i]@ == workspace_config_name() {
        DestinationStatus::ControlWorkspace
    } else if entries.len() == 0 {
        DestinationStatus::EmptyDirectory
    } else if exists|i: int| 0 <= i < entries.len() && is_source_marker(entries[i]@) {
        DestinationStatus::SourceCheckout
    } else {
        DestinationStatus::OtherFiles
    }
}

/// Classifies a destination; see [`destination_spec`].
pub fn classify_destination(exists: bool, is_dir: bool, entries: &Vec<String>) -> (s: DestinationStatus)
    ensures
        s == destination_spec(exists, is_dir, entries@),
{
    if !exists {
        return DestinationStatus::Missing;
    }
    if !is_dir {
        return DestinationStatus::NotADirectory;
    }
    let mut has_config = false;
    let mut source_like = false;
    let mut i: usize = 0;
    while i < entries.len()
        invariant
            i <= entries.len(),
            has_config == exists|k: int| 0 <= k < i && #[trigger] entries@[k]@ == workspace_config_name(),
            source_like == exists|k: int| 0 <= k < i && is_source_marker(#[trigger] entries@[k]@),
        decreases entries.len() - i,
    {
        let name = entries[i].as_str();
        if str_eq(name, "codex-automation.toml") {
            has_config = true;
        }
        if source_marker(name) {
            source_like = true;
        }
        i = i + 1;
    }
    if has_config {
        DestinationStatus::ControlWorkspace
    } else if entries.len() == 0 {
        DestinationStatus::EmptyDirectory
    } else if source_like {
        DestinationStatus::SourceCheckout
    } else {
        DestinationStatus::OtherFiles
    }
}

/// Whether `init` would write into something that is not a control
/// workspace: a file, a source checkout, or another non-empty directory.
pub open spec fn is_collision(s: DestinationStatus) -> bool {
    s is NotADirectory || s is SourceCheckout || s is OtherFiles
}

/// The name of each status as reports show it.
pub open spec fn destination_reason(s: DestinationStatus) -> Seq<char> {
    match s {
        DestinationStatus::Missing => "missing"@,
        DestinationStatus::NotADirectory => "existing_path_is_not_a_directory"@,
        DestinationStatus::EmptyDirectory => "empty_directory"@,
        DestinationStatus::ControlWorkspace => "existing_control_workspace"@,
        DestinationStatus::SourceCheckout => "existing_directory_looks_like_source_repo"@,
        DestinationStatus::OtherFiles => "existing_non_empty_directory"@,
    }
}

impl DestinationStatus {
    /// See [`destination_reason`].
    pub fn reason(&self) -> (r: &'static str)
        ensures
            r@ == destination_reason(*self),
    {
        match self {
            DestinationStatus::Missing => "missing",
            DestinationStatus::NotADirectory => "existing_path_is_not_a_directory",
            DestinationStatus::EmptyDirectory => "empty_directory",
            DestinationStatus::ControlWorkspace => "existing_control_workspace",
            DestinationStatus::SourceCheckout => "existing_directory_looks_like_source_repo",
            DestinationStatus::OtherFiles => "existing_non_empty_directory",
        }
    }

    /// See [`is_collision`].
    pub fn collision(&self) -> (r: bool)
        ensures
            r == is_collision(*self),
    {
        match self {
            DestinationStatus::NotADirectory | DestinationStatus::SourceCheckout
            | DestinationStatus::OtherFiles => true,
            _ => false,
        }
    }
}

/// `init` refuses a colliding destination unless asked to overwrite it.
pub fn check_destination(path: &str, s: DestinationStatus, overwrite: bool) -> (r: Result<(), Error>)
    ensures
        r is Err <==> is_collision(s) && !overwrite,
        r matches Err(e) ==> e matches Error::WorkspaceCollision { path: p, reason } && p@ == path@
            && reason@ == destination_reason(s),
{
    if s.collision() && !overwrite {
        return Err(Error::WorkspaceCollision { path: owned(path), reason: owned(s.reason()) });
    }
    Ok(())
}

/// Where a registered target's files go.
#[derive(Debug)]
pub struct TargetPaths {
    /// The target's worktree under app state.
    pub worktree: String,
    /// `targets/<id>.toml` in the control workspace.
    pub config: String,
}

/// Checks a target id and places its files: the worktree under the app's
/// worktree directory and the config under the workspace's `targets/`.
pub fn target_paths(worktrees: &str, workspace: &str, target_id: &str) -> (r: Result<TargetPaths, Error>)
    ensures
        r is Ok <==> valid_target_id(target_id@),
        r matches Ok(p) ==> p.worktree@ == path_join(worktrees@, target_id@) && p.config@ == path_join(
            path_join(workspace@, "targets"@),
            target_id@ + ".toml"@,
        ),
        r matches Err(e) ==> e matches Error::InvalidTargetId { target_id: t } && t@ == target_id@,
{
    validate_target_id(target_id)?;
    let worktree = join(worktrees, target_id);
    let targets = join(workspace, "targets");
    let file = cat(target_id, ".toml");
    let config = join(targets.as_str(), file.as_str());
    Ok(TargetPaths { worktree, config })
}

} // verus!
