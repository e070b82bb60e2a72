//! Decisions of the command line: which removals an uninstall performs and
//! when it refuses, how `init` names a target, and the runner execution gate.
use vstd::prelude::*;
use crate::error::Error;
use crate::ids::{slugify_id, slugify_spec};
use crate::text::{chars_of, contains_exec, contains_seq, owned, starts_with, starts_with_exec, str_eq, string_of};

verus! {

broadcast use vstd::string::group_string_axioms;

/// The removal options of `uninstall`.
#[derive(Debug, Clone, Copy)]
pub struct UninstallFlags {
    pub remove_app_state: bool,
    pub remove_skills: bool,
    pub remove_control_workspace: bool,
    pub workspace_given: bool,
    pub yes: bool,
    pub dry_run: bool,
}

/// What an uninstall covers, and whether it only plans.
#[derive(Debug, Clone, Copy, PartialEq, Eq, Structural)]
pub struct UninstallPlan {
    pub dry_run: bool,
    pub app_state: bool,
    pub skills: bool,
    pub control_workspace: bool,
}

/// Why an uninstall is refused.
pub enum UninstallRefusal {
    YesWithDryRun,
    NoRemovalRequested,
    WorkspaceRequired,
}

pub open spec fn requested(f: UninstallFlags) -> bool {
    f.remove_app_state || f.remove_skills || f.remove_control_workspace
}

/// The uninstall rule. `--yes` with `--dry-run`, `--yes` without a removal
/// flag, and control-workspace removal without `--workspace` are refused.
/// Without `--yes` (or with `--dry-run`) nothing is removed. Without any
/// removal flag the plan previews app state, the skill, and a given
/// workspace.
pub open spec fn uninstall_plan_spec(f: UninstallFlags) -> Result<UninstallPlan, UninstallRefusal> {
    if f.yes && f.dry_run {
        Err(UninstallRefusal::YesWithDryRun)
    } else if f.yes && !requested(f) {
        Err(UninstallRefusal::NoRemovalRequested)
    } else if f.remove_control_workspace && !f.workspace_given {
        Err(UninstallRefusal::WorkspaceRequired)
    } else {
        Ok(
            UninstallPlan {
                dry_run: !f.yes || f.dry_run,
                app_state: f.remove_app_state || !requested(f),
                skills: f.remove_skills || !requested(f),
                control_workspace: f.remove_control_workspace || (!requested(f) && f.workspace_given),
            },
        )
    }
}

/// Plans an uninstall; see [`uninstall_plan_spec`].
pub fn plan_uninstall(f: UninstallFlags) -> (r: Result<UninstallPlan, Error>)
    ensures
        match uninstall_plan_spec(f) {
            Ok(p) => r == Ok::<UninstallPlan, Error>(p),
            Err(UninstallRefusal::YesWithDryRun) => r matches Err(Error::YesWithDryRun),
            Err(UninstallRefusal::NoRemovalRequested) => r matches Err(Error::NoRemovalRequested),
            Err(UninstallRefusal::WorkspaceRequired) => r matches Err(
                Error::WorkspaceRequiredForRemoval,
            ),
        },
{
    if f.yes && f.dry_run {
        return Err(Error::YesWithDryRun);
    }
    let requested = f.remove_app_state || f.remove_skills || f.remove_control_workspace;
    if f.yes && !requested {
        return Err(Error::NoRemovalRequested);
    }
    if f.remove_control_workspace && !f.workspace_given {
        return Err(Error::WorkspaceRequiredForRemoval);
    }
    Ok(
        UninstallPlan {
            dry_run: !f.yes || f.dry_run,
            app_state: f.remove_app_state || !requested,
            skills: f.remove_skills || !requested,
            control_workspace: f.remove_control_workspace || (!requested && f.workspace_given),
        },
    )
}

/// An uninstall removes something only when `--yes` is given without
/// `--dry-run`, and then only what its removal flags name.
pub proof fn law_uninstall_removes_only_on_request(f: UninstallFlags)
    ensures
        uninstall_plan_spec(f) is Ok && !uninstall_plan_spec(f)->Ok_0.dry_run ==> f.yes && !f.dry_run
            && requested(f) && (uninstall_plan_spec(f)->Ok_0.app_state ==> f.remove_app_state) && (
        uninstall_plan_spec(f)->Ok_0.skills ==> f.remove_skills) && (
        uninstall_plan_spec(f)->Ok_0.control_workspace ==> f.remove_control_workspace),
{
}

/// Refuses to delete the file system root, HOME or USERPROFILE.
pub fn reject_dangerous_delete(path: &str, has_parent: bool, is_home: bool, is_user_profile: bool) -> (r: Result<(), Error>)
    ensures
        r is Ok <==> has_parent && !is_home && !is_user_profile,
        r matches Err(Error::DangerousDelete { what, path: p }) ==> p@ == path@ && what@ == if !has_parent {
            "filesystem root"@
        } else if is_home {
            "HOME"@
        } else {
            "USERPROFILE"@
        },
        r is Err ==> (r matches Err(Error::DangerousDelete { .. })),
{
    if !has_parent {
        return Err(Error::DangerousDelete { what: owned("filesystem root"), path: owned(path) });
    }
    if is_home {
        return Err(Error::DangerousDelete { what: owned("HOME"), path: owned(path) });
    }
    if is_user_profile {
        return Err(Error::DangerousDelete { what: owned("USERPROFILE"), path: owned(path) });
    }
    Ok(())
}

/// The entries whose presence shows that a directory is app state.
pub open spec fn app_state_marker(i: int) -> Seq<char> {
    if i == 0 {
        "codex-automation.sqlite"@
    } else if i == 1 {
        "worktrees"@
    } else if i == 2 {
        "logs"@
    } else if i == 3 {
        "artifacts"@
    } else {
        "backups"@
    }
}

/// The app-state entries, in the order they are checked.
pub fn app_state_markers() -> (r: Vec<&'static str>)
    ensures
        r@.len() == 5,
        forall|i: int| 0 <= i < 5 ==> #[trigger] r@[i]@ == app_state_marker(i),
{
    let mut r: Vec<&'static str> = Vec::new();
    r.push("codex-automation.sqlite");
    r.push("worktrees");
    r.push("logs");
    r.push("artifacts");
    r.push("backups");
    r
}

/// Refuses to delete an existing app-state directory that neither is named
/// `codex-automation` nor holds any app-state entry. Dry runs and missing
/// directories are never refused.
pub fn check_app_state_removal(
    path: &str,
    dry_run: bool,
    existed: bool,
    basename_matches: bool,
    marker_hits: usize,
) -> (r: Result<(), Error>)
    ensures
        r is Err <==> !dry_run && existed && !basename_matches && marker_hits == 0,
        r matches Err(e) ==> e matches Error::AppStateNotOwned { path: p } && p@ == path@,
{
    if !dry_run && existed && !basename_matches && marker_hits == 0 {
        return Err(Error::AppStateNotOwned { path: owned(path) });
    }
    Ok(())
}

/// Refuses to remove an existing directory whose marker file is missing.
pub fn check_marker(label: &str, marker_path: &str, exists: bool, marker_is_file: bool) -> (r: Result<(), Error>)
    ensures
        r is Err <==> exists && !marker_is_file,
        r matches Err(e) ==> e matches Error::MarkerMissing { label: l, marker_path: m } && l@
            == label@ && m@ == marker_path@,
{
    if exists && !marker_is_file {
        return Err(Error::MarkerMissing { label: owned(label), marker_path: owned(marker_path) });
    }
    Ok(())
}

/// What a path is: a directory, a file, or missing.
pub fn path_kind(is_dir: bool, is_file: bool) -> (r: &'static str)
    ensures
        r@ == if is_dir {
            "directory"@
        } else if is_file {
            "file"@
        } else {
            "missing"@
        },
{
    if is_dir {
        "directory"
    } else if is_file {
        "file"
    } else {
        "missing"
    }
}

/// Whether a target argument is a Git URL rather than a local path.
pub open spec fn is_git_url_spec(v: Seq<char>) -> bool {
    contains_seq(v, "://"@) || starts_with(v, "git@"@)
}

/// Whether `value` is a Git URL: it holds `://` or starts with `git@`.
pub fn is_git_url(value: &str) -> (r: bool)
    ensures
        r == is_git_url_spec(value@),
{
    let v = chars_of(value);
    contains_exec(&v, &chars_of("://")) || starts_with_exec(&v, &chars_of("git@"))
}

/// `s` without trailing `/`.
pub open spec fn trim_end_slashes(s: Seq<char>) -> Seq<char>
    decreases s.len(),
{
    if s.len() > 0 && s.last() == '/' {
        trim_end_slashes(s.drop_last())
    } else {
        s
    }
}

/// `s` without one trailing `.git`.
pub open spec fn strip_git_suffix(s: Seq<char>) -> Seq<char> {
    if s.len() >= 4 && s.subrange(s.len() - 4, s.len() as int) == ".git"@ {
        s.subrange(0, s.len() - 4)
    } else {
        s
    }
}

/// The part of `s` after its last `/` or `:`.
pub open spec fn last_segment(s: Seq<char>) -> Seq<char>
    decreases s.len(),
{
    if s.len() == 0 {
        s
    } else if s.last() == '/' || s.last() == ':' {
        Seq::empty()
    } else {
        last_segment(s.drop_last()).push(s.last())
    }
}

/// The repository name of a Git URL: the last path segment, after trailing
/// slashes and one `.git` suffix are removed.
pub open spec fn repo_name_spec(url: Seq<char>) -> Seq<char> {
    last_segment(strip_git_suffix(trim_end_slashes(url)))
}

proof fn lemma_last_segment(s: Seq<char>, k: int)
    requires
        0 <= k <= s.len(),
        forall|j: int| k <= j < s.len() ==> s[j] != '/' && s[j] != ':',
        k == 0 || s[k - 1] == '/' || s[k - 1] == ':',
    ensures
        last_segment(s) == s.subrange(k, s.len() as int),
    decreases s.len(),
{
    if s.len() > k {
        lemma_last_segment(s.drop_last(), k);
        assert(s.drop_last().subrange(k, s.len() - 1).push(s.last()) =~= s.subrange(k, s.len() as int));
    } else if s.len() > 0 {
        assert(s.subrange(k, s.len() as int) =~= Seq::<char>::empty());
    } else {
        assert(s.subrange(k, s.len() as int) =~= s);
    }
}

/// The repository name of `url`; see [`repo_name_spec`]. A URL that ends in
/// a separator after trimming has no name and is refused.
pub fn repo_name_from_url(url: &str) -> (r: Result<String, Error>)
    ensures
        repo_name_spec(url@).len() > 0 ==> (r matches Ok(s) && s@ == repo_name_spec(url@)),
        repo_name_spec(url@).len() == 0 ==> (r matches Err(Error::RepoNameUnderivable { url: u }) && u@ == url@),
{
    let v = chars_of(url);
    let mut end: usize = v.len();
    assert(v@.subrange(0, v@.len() as int) =~= v@);
    while end > 0 && v[end - 1] == '/'
        invariant
            end <= v.len(),
            trim_end_slashes(v@) == trim_end_slashes(v@.subrange(0, end as int)),
        decreases end,
    {
        assert(v@.subrange(0, end as int).drop_last() =~= v@.subrange(0, end - 1));
        end = end - 1;
    }
    let ghost t = v@.subrange(0, end as int);
    assert(trim_end_slashes(t) == t);
    let mut stop = end;
    if end >= 4 && v[end - 4] == '.' && v[end - 3] == 'g' && v[end - 2] == 'i' && v[end - 1] == 't' {
        proof {
            reveal_strlit(".git");
            assert(t.subrange(t.len() - 4, t.len() as int) =~= ".git"@);
        }
        stop = end - 4;
    } else {
        proof {
            reveal_strlit(".git");
            if t.len() >= 4 && t.subrange(t.len() - 4, t.len() as int) == ".git"@ {
                assert(t.subrange(t.len() - 4, t.len() as int)[0] == t[t.len() - 4]);
                assert(t.subrange(t.len() - 4, t.len() as int)[1] == t[t.len() - 3]);
                assert(t.subrange(t.len() - 4, t.len() as int)[2] == t[t.len() - 2]);
                assert(t.subrange(t.len() - 4, t.len() as int)[3] == t[t.len() - 1]);
            }
        }
    }
    let ghost u = v@.subrange(0, stop as int);
    assert(strip_git_suffix(t) =~= u);
    let mut start = stop;
    while start > 0 && v[start - 1] != '/' && v[start - 1] != ':'
        invariant
            start <= stop <= v.len(),
            u == v@.subrange(0, stop as int),
            forall|j: int| start <= j < stop ==> u[j] != '/' && u[j] != ':',
        decreases start,
    {
        start = start - 1;
    }
    proof {
        lemma_last_segment(u, start as int);
    }
    let mut name: Vec<char> = Vec::new();
    let mut k = start;
    while k < stop
        invariant
            start <= k <= stop <= v.len(),
            name@ == v@.subrange(start as int, k as int),
        decreases stop - k,
    {
        name.push(v[k]);
        k = k + 1;
        assert(name@ =~= v@.subrange(start as int, k as int));
    }
    assert(u.subrange(start as int, stop as int) =~= name@);
    if name.len() == 0 {
        return Err(Error::RepoNameUnderivable { url: owned(url) });
    }
    Ok(string_of(&name))
}

/// How `init` names a target: the id given, else the slug of a Git URL's
/// repository name, else the slug of the local directory's name.
pub fn init_target_id(explicit: Option<&str>, target: &str, dir_name: Option<&str>) -> (r: Result<String, Error>)
    ensures
        explicit is Some ==> (r matches Ok(s) && s@ == explicit->0@),
        explicit is None && is_git_url_spec(target@) ==> if repo_name_spec(target@).len() > 0 {
            r matches Ok(s) && s@ == slugify_spec(repo_name_spec(target@))
        } else {
            r matches Err(Error::RepoNameUnderivable { .. })
        },
        explicit is None && !is_git_url_spec(target@) ==> match dir_name {
            Some(n) => r matches Ok(s) && s@ == slugify_spec(n@),
            None => r matches Err(Error::TargetPathNoName),
        },
{
    match explicit {
        Some(e) => Ok(owned(e)),
        None => {
            if is_git_url(target) {
                let name = repo_name_from_url(target)?;
                Ok(slugify_id(name.as_str()))
            } else {
                match dir_name {
                    Some(n) => Ok(slugify_id(n)),
                    None => Err(Error::TargetPathNoName),
                }
            }
        },
    }
}

/// Runner execution is allowed only when
/// `CODEX_AUTOMATION_ENABLE_RUNNER_EXECUTION` is exactly `1`.
pub fn ensure_runner_execution_enabled(gate: Option<&str>) -> (r: Result<(), Error>)
    ensures
        r is Ok <==> (gate matches Some(g) && g@ == "1"@),
        r matches Err(e) ==> e is RunnerExecutionGated,
{
    match gate {
        Some(g) => if str_eq(g, "1") {
            Ok(())
        } else {
            Err(Error::RunnerExecutionGated)
        },
        None => Err(Error::RunnerExecutionGated),
    }
}

/// The version of this release.
pub fn version() -> (r: &'static str)
    ensures
        r@ == "0.1.0"@,
{
    "0.1.0"
}

/// What `--version` prints: the program name and its version.
pub fn version_line() -> (r: String)
    ensures
        r@ == "codex-automation "@ + "0.1.0"@,
{
    crate::text::cat("codex-automation ", version())
}

} // verus!
