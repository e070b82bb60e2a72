//! The texts that a control workspace is made of: its README, AGENTS.md,
//! worker definitions, and the workspace and target config files.
use vstd::prelude::*;
use crate::app_dirs::{join, path_join, AppDirs};
use crate::ids::{toml_quote, toml_quote_spec};
use crate::lines::{join_lines, views, Lines};
use crate::text::{cat, push_char};

verus! {

broadcast use vstd::string::group_string_axioms;

/// The name of the workspace config file.
pub open spec fn workspace_config_name() -> Seq<char> {
    "codex-automation.toml"@
}

/// The path of the workspace config file inside `workspace`.
pub fn workspace_config_path(workspace: &str) -> (r: String)
    ensures
        r@ == path_join(workspace@, workspace_config_name()),
{
    join(workspace, "codex-automation.toml")
}

/// The worker definition files a workspace starts with, besides
/// `control-plane.toml`; these workers can be selected for runner handoffs.
pub fn default_runner_workers() -> (r: Vec<&'static str>)
    ensures
        r@.len() == 3,
        r@[0]@ == "repo-maintainer.toml"@,
        r@[1]@ == "ops-analyst.toml"@,
        r@[2]@ == "release-manager.toml"@,
{
    let mut r: Vec<&'static str> = Vec::new();
    r.push("repo-maintainer.toml");
    r.push("ops-analyst.toml");
    r.push("release-manager.toml");
    r
}

/// The lines of the workspace README for a workspace named `workspace_name`.
pub open spec fn workspace_readme_lines(workspace_name: Seq<char>) -> Seq<Seq<char>> {
    seq![
        "# "@ + workspace_name,
        ""@,
        "This is a thin codex-automation control workspace for Codex App."@,
        ""@,
        "Human-facing config lives here. App-managed state, SQLite, worktrees, logs,"@,
        "runner data, and artifacts live in the OS application data directory."@,
        ""@,
        "Useful commands:"@,
        ""@,
        "```bash"@,
        "codex-automation db doctor --json"@,
        "codex-automation target list --json"@,
        "codex-automation worker list <target-id> --json"@,
        "codex-automation target pack <target-id> --json"@,
        "codex-automation heartbeat run <target-id> --json"@,
        "codex-automation result list <target-id> --json"@,
        "```"@,
        ""@,
    ]
}

/// The workspace README for a workspace named `workspace_name`.
pub fn workspace_readme(workspace_name: &str) -> (r: String)
    ensures
        r@ == join_lines(workspace_readme_lines(workspace_name@)),
{
    let mut l = Lines::new();
    l.add(cat("# ", workspace_name));
    l.add_str("");
    l.add_str("This is a thin codex-automation control workspace for Codex App.");
    l.add_str("");
    l.add_str("Human-facing config lives here. App-managed state, SQLite, worktrees, logs,");
    l.add_str("runner data, and artifacts live in the OS application data directory.");
    l.add_str("");
    l.add_str("Useful commands:");
    l.add_str("");
    l.add_str("```bash");
    l.add_str("codex-automation db doctor --json");
    l.add_str("codex-automation target list --json");
    l.add_str("codex-automation worker list <target-id> --json");
    l.add_str("codex-automation target pack <target-id> --json");
    l.add_str("codex-automation heartbeat run <target-id> --json");
    l.add_str("codex-automation result list <target-id> --json");
    l.add_str("```");
    l.add_str("");
    proof {
        assert(views(l.items@) =~= workspace_readme_lines(workspace_name@));
    }
    l.joined()
}

/// The lines of the workspace AGENTS.md.
pub open spec fn workspace_agents_lines() -> Seq<Seq<char>> {
    seq![
        "# AGENTS.md"@,
        ""@,
        "This directory is the human-facing codex-automation control workspace."@,
        ""@,
        "- Keep heavy runtime state out of this directory."@,
        "- Use `codex-automation target list --json` before adding targets."@,
        "- Customize workers under `workers/` and load them with `codex-automation worker add`."@,
        "- Use `codex-automation heartbeat run <target-id> --json` for one bounded control-plane step."@,
        "- Use `codex-automation result submit` to record worker results."@,
        "- Do not edit app-managed SQLite, worktrees, logs, or runner state by hand."@,
        ""@,
    ]
}

/// The workspace AGENTS.md.
pub fn workspace_agents() -> (r: String)
    ensures
        r@ == join_lines(workspace_agents_lines()),
{
    let mut l = Lines::new();
    l.add_str("# AGENTS.md");
    l.add_str("");
    l.add_str("This directory is the human-facing codex-automation control workspace.");
    l.add_str("");
    l.add_str("- Keep heavy runtime state out of this directory.");
    l.add_str("- Use `codex-automation target list --json` before adding targets.");
    l.add_str("- Customize workers under `workers/` and load them with `codex-automation worker add`.");
    l.add_str("- Use `codex-automation heartbeat run <target-id> --json` for one bounded control-plane step.");
    l.add_str("- Use `codex-automation result submit` to record worker results.");
    l.add_str("- Do not edit app-managed SQLite, worktrees, logs, or runner state by hand.");
    l.add_str("");
    proof {
        assert(views(l.items@) =~= workspace_agents_lines());
    }
    l.joined()
}

/// The lines of `workers/control-plane.toml`, the orchestration actor; it is not selected for runner handoffs.
pub open spec fn control_plane_worker_lines() -> Seq<Seq<char>> {
    seq![
        "version = 1"@,
        ""@,
        "[worker]"@,
        "id = \"control-plane\""@,
        "name = \"Control Plane\""@,
        "description = \"Orchestration actor that plans workorders and reviews worker results.\""@,
        "skills = [\"codex-automation-control\"]"@,
        "allowed_workorder_kinds = [\"orchestration\"]"@,
        "sandbox = \"read-only\""@,
        "approval_policy = \"on-request\""@,
        "autonomy_profile = \"observe\""@,
        "max_concurrency = 1"@,
        "custom_instructions = \"Keep orchestration simple: advance one bounded control-plane step at a time and record outcomes through the codex-automation CLI.\""@,
        ""@,
        "[config]"@,
        "result_contract = \"codex-automation result submit\""@,
        ""@,
    ]
}

/// `workers/control-plane.toml`, the orchestration actor; it is not selected for runner handoffs.
pub fn control_plane_worker() -> (r: String)
    ensures
        r@ == join_lines(control_plane_worker_lines()),
{
    let mut l = Lines::new();
    l.add_str("version = 1");
    l.add_str("");
    l.add_str("[worker]");
    l.add_str("id = \"control-plane\"");
    l.add_str("name = \"Control Plane\"");
    l.add_str("description = \"Orchestration actor that plans workorders and reviews worker results.\"");
    l.add_str("skills = [\"codex-automation-control\"]");
    l.add_str("allowed_workorder_kinds = [\"orchestration\"]");
    l.add_str("sandbox = \"read-only\"");
    l.add_str("approval_policy = \"on-request\"");
    l.add_str("autonomy_profile = \"observe\"");
    l.add_str("max_concurrency = 1");
    l.add_str("custom_instructions = \"Keep orchestration simple: advance one bounded control-plane step at a time and record outcomes through the codex-automation CLI.\"");
    l.add_str("");
    l.add_str("[config]");
    l.add_str("result_contract = \"codex-automation result submit\"");
    l.add_str("");
    proof {
        assert(views(l.items@) =~= control_plane_worker_lines());
    }
    l.joined()
}

/// The lines of `workers/repo-maintainer.toml`, the default worker for repository discovery and focused fixes.
pub open spec fn repo_maintainer_worker_lines() -> Seq<Seq<char>> {
    seq![
        "version = 1"@,
        ""@,
        "[worker]"@,
        "id = \"repo-maintainer\""@,
        "name = \"Repo Maintainer\""@,
        "description = \"Inspects the target repository and applies small, focused fixes.\""@,
        "skills = [\"repo-discovery\", \"focused-fix\"]"@,
        "allowed_workorder_kinds = [\"repo_discovery\", \"bug_fix\", \"test_fix\", \"docs_update\"]"@,
        "sandbox = \"workspace-write\""@,
        "approval_policy = \"on-request\""@,
        "autonomy_profile = \"balanced\""@,
        "max_concurrency = 1"@,
        "custom_instructions = \"Read the shared worktree first, then keep changes small and covered by tests.\""@,
        ""@,
        "[config]"@,
        "result_contract = \"codex-automation result submit\""@,
        ""@,
    ]
}

/// `workers/repo-maintainer.toml`, the default worker for repository discovery and focused fixes.
pub fn repo_maintainer_worker() -> (r: String)
    ensures
        r@ == join_lines(repo_maintainer_worker_lines()),
{
    let mut l = Lines::new();
    l.add_str("version = 1");
    l.add_str("");
    l.add_str("[worker]");
    l.add_str("id = \"repo-maintainer\"");
    l.add_str("name = \"Repo Maintainer\"");
    l.add_str("description = \"Inspects the target repository and applies small, focused fixes.\"");
    l.add_str("skills = [\"repo-discovery\", \"focused-fix\"]");
    l.add_str("allowed_workorder_kinds = [\"repo_discovery\", \"bug_fix\", \"test_fix\", \"docs_update\"]");
    l.add_str("sandbox = \"workspace-write\"");
    l.add_str("approval_policy = \"on-request\"");
    l.add_str("autonomy_profile = \"balanced\"");
    l.add_str("max_concurrency = 1");
    l.add_str("custom_instructions = \"Read the shared worktree first, then keep changes small and covered by tests.\"");
    l.add_str("");
    l.add_str("[config]");
    l.add_str("result_contract = \"codex-automation result submit\"");
    l.add_str("");
    proof {
        assert(views(l.items@) =~= repo_maintainer_worker_lines());
    }
    l.joined()
}

/// The lines of `workers/ops-analyst.toml`, a read-only worker for logs and incidents.
pub open spec fn ops_analyst_worker_lines() -> Seq<Seq<char>> {
    seq![
        "version = 1"@,
        ""@,
        "[worker]"@,
        "id = \"ops-analyst\""@,
        "name = \"Ops Analyst\""@,
        "description = \"Reads logs, CI output, and incident notes without editing files.\""@,
        "skills = [\"log-analysis\"]"@,
        "allowed_workorder_kinds = [\"log_analysis\", \"incident_review\"]"@,
        "sandbox = \"read-only\""@,
        "approval_policy = \"never\""@,
        "autonomy_profile = \"observe\""@,
        "max_concurrency = 1"@,
        "custom_instructions = \"Report findings with evidence; do not edit target files.\""@,
        ""@,
        "[config]"@,
        "result_contract = \"codex-automation result submit\""@,
        ""@,
    ]
}

/// `workers/ops-analyst.toml`, a read-only worker for logs and incidents.
pub fn ops_analyst_worker() -> (r: String)
    ensures
        r@ == join_lines(ops_analyst_worker_lines()),
{
    let mut l = Lines::new();
    l.add_str("version = 1");
    l.add_str("");
    l.add_str("[worker]");
    l.add_str("id = \"ops-analyst\"");
    l.add_str("name = \"Ops Analyst\"");
    l.add_str("description = \"Reads logs, CI output, and incident notes without editing files.\"");
    l.add_str("skills = [\"log-analysis\"]");
    l.add_str("allowed_workorder_kinds = [\"log_analysis\", \"incident_review\"]");
    l.add_str("sandbox = \"read-only\"");
    l.add_str("approval_policy = \"never\"");
    l.add_str("autonomy_profile = \"observe\"");
    l.add_str("max_concurrency = 1");
    l.add_str("custom_instructions = \"Report findings with evidence; do not edit target files.\"");
    l.add_str("");
    l.add_str("[config]");
    l.add_str("result_contract = \"codex-automation result submit\"");
    l.add_str("");
    proof {
        assert(views(l.items@) =~= ops_analyst_worker_lines());
    }
    l.joined()
}

/// The lines of `workers/release-manager.toml`, a worker for release preparation.
pub open spec fn release_manager_worker_lines() -> Seq<Seq<char>> {
    seq![
        "version = 1"@,
        ""@,
        "[worker]"@,
        "id = \"release-manager\""@,
        "name = \"Release Manager\""@,
        "description = \"Prepares release notes and version bumps; pushes and deploys need approval.\""@,
        "skills = [\"release-prep\"]"@,
        "allowed_workorder_kinds = [\"release_prep\"]"@,
        "sandbox = \"workspace-write\""@,
        "approval_policy = \"on-request\""@,
        "autonomy_profile = \"release\""@,
        "max_concurrency = 1"@,
        "custom_instructions = \"Prepare releases only; ask for approval before any push, tag, or deploy.\""@,
        ""@,
        "[config]"@,
        "result_contract = \"codex-automation result submit\""@,
        ""@,
    ]
}

/// `workers/release-manager.toml`, a worker for release preparation.
pub fn release_manager_worker() -> (r: String)
    ensures
        r@ == join_lines(release_manager_worker_lines()),
{
    let mut l = Lines::new();
    l.add_str("version = 1");
    l.add_str("");
    l.add_str("[worker]");
    l.add_str("id = \"release-manager\"");
    l.add_str("name = \"Release Manager\"");
    l.add_str("description = \"Prepares release notes and version bumps; pushes and deploys need approval.\"");
    l.add_str("skills = [\"release-prep\"]");
    l.add_str("allowed_workorder_kinds = [\"release_prep\"]");
    l.add_str("sandbox = \"workspace-write\"");
    l.add_str("approval_policy = \"on-request\"");
    l.add_str("autonomy_profile = \"release\"");
    l.add_str("max_concurrency = 1");
    l.add_str("custom_instructions = \"Prepare releases only; ask for approval before any push, tag, or deploy.\"");
    l.add_str("");
    l.add_str("[config]");
    l.add_str("result_contract = \"codex-automation result submit\"");
    l.add_str("");
    proof {
        assert(views(l.items@) =~= release_manager_worker_lines());
    }
    l.joined()
}

/// The lines of `codex-automation.toml`: the workspace's id, name and path, and where app state lives.
pub open spec fn workspace_config_text_lines(workspace_id: Seq<char>, workspace_name: Seq<char>, workspace: Seq<char>, dirs: AppDirs) -> Seq<Seq<char>> {
    seq![
        "version = 1"@,
        ""@,
        "[workspace]"@,
        "id = "@ + toml_quote_spec(workspace_id),
        "name = "@ + toml_quote_spec(workspace_name),
        "path = "@ + toml_quote_spec(workspace),
        ""@,
        "[app_state]"@,
        "root = "@ + toml_quote_spec(dirs.state_root@),
        "database = "@ + toml_quote_spec(dirs.database@),
        "worktrees = "@ + toml_quote_spec(dirs.worktrees@),
        "logs = "@ + toml_quote_spec(dirs.logs@),
        "artifacts = "@ + toml_quote_spec(dirs.artifacts@),
        "backups = "@ + toml_quote_spec(dirs.backups@),
        ""@,
    ]
}

/// `codex-automation.toml`: the workspace's id, name and path, and where app state lives.
pub fn workspace_config_text(workspace_id: &str, workspace_name: &str, workspace: &str, dirs: &AppDirs) -> (r: String)
    ensures
        r@ == join_lines(workspace_config_text_lines(workspace_id@, workspace_name@, workspace@, *dirs)),
{
    let mut l = Lines::new();
    l.add_str("version = 1");
    l.add_str("");
    l.add_str("[workspace]");
    l.add(cat("id = ", toml_quote(workspace_id).as_str()));
    l.add(cat("name = ", toml_quote(workspace_name).as_str()));
    l.add(cat("path = ", toml_quote(workspace).as_str()));
    l.add_str("");
    l.add_str("[app_state]");
    l.add(cat("root = ", toml_quote(dirs.state_root.as_str()).as_str()));
    l.add(cat("database = ", toml_quote(dirs.database.as_str()).as_str()));
    l.add(cat("worktrees = ", toml_quote(dirs.worktrees.as_str()).as_str()));
    l.add(cat("logs = ", toml_quote(dirs.logs.as_str()).as_str()));
    l.add(cat("artifacts = ", toml_quote(dirs.artifacts.as_str()).as_str()));
    l.add(cat("backups = ", toml_quote(dirs.backups.as_str()).as_str()));
    l.add_str("");
    proof {
        assert(views(l.items@) =~= workspace_config_text_lines(workspace_id@, workspace_name@, workspace@, *dirs));
    }
    l.joined()
}

/// The lines of `targets/<target-id>.toml`: the target's registration, its custom instructions, and where its app state lives.
pub open spec fn target_config_text_lines(target_id: Seq<char>, repo_path: Seq<char>, workspace_id: Seq<char>, profile: Seq<char>, worktree_path: Seq<char>, dirs: AppDirs) -> Seq<Seq<char>> {
    seq![
        "version = 1"@,
        ""@,
        "[target]"@,
        "id = "@ + toml_quote_spec(target_id),
        "workspace_id = "@ + toml_quote_spec(workspace_id),
        "repo_path = "@ + toml_quote_spec(repo_path),
        "profile = "@ + toml_quote_spec(profile),
        "custom_instructions = \"Follow the target repository AGENTS.md files and its documented test commands.\""@,
        ""@,
        "[app_state]"@,
        "root = "@ + toml_quote_spec(dirs.state_root@),
        "database = "@ + toml_quote_spec(dirs.database@),
        "worktree_path = "@ + toml_quote_spec(worktree_path),
        "logs = "@ + toml_quote_spec(dirs.logs@),
        "artifacts = "@ + toml_quote_spec(dirs.artifacts@),
        ""@,
    ]
}

/// `targets/<target-id>.toml`: the target's registration, its custom instructions, and where its app state lives.
pub fn target_config_text(target_id: &str, repo_path: &str, workspace_id: &str, profile: &str, worktree_path: &str, dirs: &AppDirs) -> (r: String)
    ensures
        r@ == join_lines(target_config_text_lines(target_id@, repo_path@, workspace_id@, profile@, worktree_path@, *dirs)),
{
    let mut l = Lines::new();
    l.add_str("version = 1");
    l.add_str("");
    l.add_str("[target]");
    l.add(cat("id = ", toml_quote(target_id).as_str()));
    l.add(cat("workspace_id = ", toml_quote(workspace_id).as_str()));
    l.add(cat("repo_path = ", toml_quote(repo_path).as_str()));
    l.add(cat("profile = ", toml_quote(profile).as_str()));
    l.add_str("custom_instructions = \"Follow the target repository AGENTS.md files and its documented test commands.\"");
    l.add_str("");
    l.add_str("[app_state]");
    l.add(cat("root = ", toml_quote(dirs.state_root.as_str()).as_str()));
    l.add(cat("database = ", toml_quote(dirs.database.as_str()).as_str()));
    l.add(cat("worktree_path = ", toml_quote(worktree_path).as_str()));
    l.add(cat("logs = ", toml_quote(dirs.logs.as_str()).as_str()));
    l.add(cat("artifacts = ", toml_quote(dirs.artifacts.as_str()).as_str()));
    l.add_str("");
    proof {
        assert(views(l.items@) =~= target_config_text_lines(target_id@, repo_path@, workspace_id@, profile@, worktree_path@, *dirs));
    }
    l.joined()
}

} // verus!
