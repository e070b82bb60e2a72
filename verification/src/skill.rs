//! The embedded setup skill: which skill is supported, where it installs,
//! what its status is, and what an install or uninstall does.
use vstd::prelude::*;
use crate::app_dirs::{join, path_join};
use crate::error::Error;
use crate::text::{owned, str_eq};

verus! {

broadcast use vstd::string::group_string_axioms;

/// The name of the only skill this binary installs.
pub open spec fn setup_skill_name() -> Seq<char> {
    "codex-automation-setup"@
}

/// Checks that `skill` is the setup skill.
pub fn ensure_supported_skill(skill: &str) -> (r: Result<(), Error>)
    ensures
        r is Ok <==> skill@ == setup_skill_name(),
        r matches Err(e) ==> e matches Error::UnsupportedSkill { skill: s } && s@ == skill@,
{
    if str_eq(skill, "codex-automation-setup") {
        Ok(())
    } else {
        Err(Error::UnsupportedSkill { skill: owned(skill) })
    }
}

/// Where the setup skill lives under a Codex home: `<home>/skills/<name>`.
pub fn skill_path(codex_home: &str) -> (r: String)
    ensures
        r@ == path_join(path_join(codex_home@, "skills"@), setup_skill_name()),
{
    let s = join(codex_home, "skills");
    join(s.as_str(), "codex-automation-setup")
}

/// The files of the setup skill, relative to its directory.
pub open spec fn asset_path(i: int) -> Seq<char> {
    if i == 0 {
        "SKILL.md"@
    } else if i == 1 {
        "agents/openai.yaml"@
    } else if i == 2 {
        "scripts/doctor.py"@
    } else if i == 3 {
        "scripts/setup.py"@
    } else {
        "scripts/update.py"@
    }
}

/// How many files the setup skill has.
pub const SKILL_ASSET_COUNT: usize = 5;

/// The skill's files, in install order.
pub fn asset_paths() -> (r: Vec<&'static str>)
    ensures
        r@.len() == SKILL_ASSET_COUNT,
        forall|i: int| 0 <= i < 5 ==> #[trigger] r@[i]@ == asset_path(i),
{
    let mut r: Vec<&'static str> = Vec::new();
    r.push("SKILL.md");
    r.push("agents/openai.yaml");
    r.push("scripts/doctor.py");
    r.push("scripts/setup.py");
    r.push("scripts/update.py");
    r
}

/// Whether an installed skill file is executable: the scripts are.
pub fn asset_is_executable(i: usize) -> (r: bool)
    requires
        i < SKILL_ASSET_COUNT,
    ensures
        r == (i >= 2),
{
    i >= 2
}

/// The variables that locate the Codex home; `None` for unset.
#[derive(Debug)]
pub struct CodexHomeEnv {
    pub codex_home: Option<String>,
    pub home: Option<String>,
    pub user_profile: Option<String>,
}

/// The Codex home when none is given explicitly: `CODEX_HOME`, else
/// `<HOME>/.codex`, else `<USERPROFILE>/.codex`. An empty `CODEX_HOME` and a
/// missing home are refused.
pub fn resolve_codex_home(env: &CodexHomeEnv) -> (r: Result<String, Error>)
    ensures
        match env.codex_home {
            Some(c) => if c@.len() == 0 {
                r matches Err(Error::EnvEmpty { name }) && name@ == "CODEX_HOME"@
            } else {
                r matches Ok(s) && s@ == c@
            },
            None => match env.home {
                Some(h) => r matches Ok(s) && s@ == path_join(h@, ".codex"@),
                None => match env.user_profile {
                    Some(p) => r matches Ok(s) && s@ == path_join(p@, ".codex"@),
                    None => r matches Err(Error::HomeMissing { detail }) && detail@
                        == "CODEX_HOME, HOME, or USERPROFILE is required to resolve Codex skills"@,
                },
            },
        },
{
    match &env.codex_home {
        Some(c) => {
            if c.as_str().unicode_len() == 0 {
                return Err(Error::EnvEmpty { name: owned("CODEX_HOME") });
            }
            Ok(c.clone())
        },
        None => match &env.home {
            Some(h) => Ok(join(h.as_str(), ".codex")),
            None => match &env.user_profile {
                Some(p) => Ok(join(p.as_str(), ".codex")),
                None => Err(
                    Error::HomeMissing {
                        detail: owned(
                            "CODEX_HOME, HOME, or USERPROFILE is required to resolve Codex skills",
                        ),
                    },
                ),
            },
        },
    }
}

/// What is on disk for one skill file.
#[derive(Debug, Clone, Copy, PartialEq, Eq, Structural)]
pub enum AssetState {
    /// No regular file at its path.
    Missing,
    /// A file with the embedded contents.
    Same,
    /// A file with other contents.
    Changed,
}

/// The paths of the files in state `state`, in install order.
pub open spec fn files_in(states: Seq<AssetState>, state: AssetState, n: int) -> Seq<Seq<char>>
    decreases n,
{
    if n <= 0 {
        Seq::empty()
    } else if states[n - 1] == state {
        files_in(states, state, n - 1).push(asset_path(n - 1))
    } else {
        files_in(states, state, n - 1)
    }
}

/// The missing and changed files of an installed skill.
#[derive(Debug)]
pub struct SkillStatus {
    pub missing: Vec<&'static str>,
    pub changed: Vec<&'static str>,
}

/// Lists the missing and changed skill files from what is on disk for each
/// file (in install order).
pub fn skill_status(states: &Vec<AssetState>) -> (s: SkillStatus)
    requires
        states@.len() == SKILL_ASSET_COUNT,
    ensures
        s.missing@.map_values(|p: &str| p@) == files_in(states@, AssetState::Missing, 5),
        s.changed@.map_values(|p: &str| p@) == files_in(states@, AssetState::Changed, 5),
{
    let paths = asset_paths();
    let mut missing: Vec<&'static str> = Vec::new();
    let mut changed: Vec<&'static str> = Vec::new();
    let mut i: usize = 0;
    while i < 5
        invariant
            i <= 5,
            states@.len() == 5,
            paths@.len() == 5,
            forall|k: int| 0 <= k < 5 ==> #[trigger] paths@[k]@ == asset_path(k),
            missing@.map_values(|p: &str| p@) == files_in(states@, AssetState::Missing, i as int),
            changed@.map_values(|p: &str| p@) == files_in(states@, AssetState::Changed, i as int),
        decreases 5 - i,
    {
        let ghost m0 = missing@;
        let ghost c0 = changed@;
        match states[i] {
            AssetState::Missing => {
                missing.push(paths[i]);
                assert(missing@.map_values(|p: &str| p@) =~= m0.map_values(|p: &str| p@).push(
                    asset_path(i as int),
                ));
            },
            AssetState::Changed => {
                changed.push(paths[i]);
                assert(changed@.map_values(|p: &str| p@) =~= c0.map_values(|p: &str| p@).push(
                    asset_path(i as int),
                ));
            },
            AssetState::Same => {},
        }
        i = i + 1;
    }
    SkillStatus { missing, changed }
}

/// What an install does.
#[derive(Debug, Clone, Copy, PartialEq, Eq, Structural)]
pub enum InstallPlan {
    /// Dry run: report what would happen; `installed` says whether the skill
    /// directory exists (then it would be checked or overwritten).
    Planned { installed: bool },
    /// Every file is present and unchanged; nothing to do.
    AlreadyInstalled,
    /// Something else is at the destination and overwriting was not asked for.
    NeedsOverwrite,
    /// Write every file, after removing what is at the destination when
    /// `remove_existing` holds.
    Install { remove_existing: bool },
}

/// The install rule: a dry run only plans; a complete, unchanged install is
/// left alone; an existing destination is replaced only with `overwrite`.
pub open spec fn install_plan_spec(
    installed: bool,
    missing: nat,
    changed: nat,
    destination_exists: bool,
    overwrite: bool,
    dry_run: bool,
) -> InstallPlan {
    if dry_run {
        InstallPlan::Planned { installed }
    } else if installed && missing == 0 && changed == 0 {
        InstallPlan::AlreadyInstalled
    } else if destination_exists && !overwrite {
        InstallPlan::NeedsOverwrite
    } else {
        InstallPlan::Install { remove_existing: destination_exists }
    }
}

/// Decides an install; see [`install_plan_spec`].
pub fn plan_skill_install(
    installed: bool,
    missing: usize,
    changed: usize,
    destination_exists: bool,
    overwrite: bool,
    dry_run: bool,
) -> (p: InstallPlan)
    ensures
        p == install_plan_spec(
            installed,
            missing as nat,
            changed as nat,
            destination_exists,
            overwrite,
            dry_run,
        ),
{
    if dry_run {
        InstallPlan::Planned { installed }
    } else if installed && missing == 0 && changed == 0 {
        InstallPlan::AlreadyInstalled
    } else if destination_exists && !overwrite {
        InstallPlan::NeedsOverwrite
    } else {
        InstallPlan::Install { remove_existing: destination_exists }
    }
}

/// An install never removes anything without `overwrite`, and never writes
/// during a dry run.
pub proof fn law_install_safe(
    installed: bool,
    missing: nat,
    changed: nat,
    destination_exists: bool,
    overwrite: bool,
    dry_run: bool,
)
    ensures
        dry_run ==> install_plan_spec(
            installed,
            missing,
            changed,
            destination_exists,
            overwrite,
            dry_run,
        ) is Planned,
        install_plan_spec(installed, missing, changed, destination_exists, overwrite, dry_run)
            == (InstallPlan::Install { remove_existing: true }) ==> overwrite && !dry_run,
{
}

proof fn lemma_files_in_none(states: Seq<AssetState>, state: AssetState, n: int)
    requires
        0 <= n <= states.len(),
        forall|i: int| 0 <= i < n ==> states[i] != state,
    ensures
        files_in(states, state, n) == Seq::<Seq<char>>::empty(),
    decreases n,
{
    if n > 0 {
        lemma_files_in_none(states, state, n - 1);
    }
}

/// An install outside a dry run that may replace the destination (with
/// `overwrite`, or when nothing is there) ends with the skill complete: it
/// writes every file, or finds every file present and unchanged. And when
/// every file is present and unchanged, the status lists no missing and no
/// changed file.
pub proof fn law_install_completes(
    installed: bool,
    missing: nat,
    changed: nat,
    destination_exists: bool,
    overwrite: bool,
    states: Seq<AssetState>,
)
    ensures
        overwrite || !destination_exists ==> {
            let p = install_plan_spec(
                installed,
                missing,
                changed,
                destination_exists,
                overwrite,
                false,
            );
            p is AlreadyInstalled || p is Install
        },
        states.len() == SKILL_ASSET_COUNT && (forall|i: int|
            0 <= i < states.len() ==> states[i] == AssetState::Same) ==> files_in(
            states,
            AssetState::Missing,
            5,
        ) == Seq::<Seq<char>>::empty() && files_in(states, AssetState::Changed, 5) == Seq::<
            Seq<char>,
        >::empty(),
{
    if states.len() == SKILL_ASSET_COUNT && (forall|i: int|
        0 <= i < states.len() ==> states[i] == AssetState::Same) {
        lemma_files_in_none(states, AssetState::Missing, 5);
        lemma_files_in_none(states, AssetState::Changed, 5);
    }
}

/// Whether an uninstall (or removal) deletes something: only outside a dry
/// run, and only what exists.
pub fn removes(existed: bool, dry_run: bool) -> (r: bool)
    ensures
        r == (existed && !dry_run),
{
    existed && !dry_run
}

} // verus!
