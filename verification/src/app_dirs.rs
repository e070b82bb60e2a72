//! Where app state lives: path joining, the app-state directory layout,
//! the choice of the state root from the environment, and `~` expansion.
//!
//! Paths are held as strings and joined with `/`.
use vstd::prelude::*;
use crate::error::Error;
use crate::text::{cat, cat3, chars_of, owned, starts_with, starts_with_exec};

verus! {

broadcast use vstd::string::group_string_axioms;

/// `base` joined with `seg`, as `Path::join` does on Unix: an absolute
/// `seg` replaces `base`; otherwise `seg` is appended after a `/`, which is
/// left out when `base` is empty or already ends with one.
pub open spec fn path_join(base: Seq<char>, seg: Seq<char>) -> Seq<char> {
    if seg.len() > 0 && seg[0] == '/' {
        seg
    } else if base.len() == 0 {
        seg
    } else if base.last() == '/' {
        base + seg
    } else {
        base + seq!['/'] + seg
    }
}

/// Joins two paths; see [`path_join`].
pub fn join(base: &str, seg: &str) -> (r: String)
    ensures
        r@ == path_join(base@, seg@),
{
    let b = chars_of(base);
    let s = chars_of(seg);
    if s.len() > 0 && s[0] == '/' {
        owned(seg)
    } else if b.len() == 0 {
        owned(seg)
    } else if b[b.len() - 1] == '/' {
        cat(base, seg)
    } else {
        proof {
            reveal_strlit("/");
        }
        cat3(base, "/", seg)
    }
}

/// The text of a path.
pub fn display_path(path: &str) -> (r: String)
    ensures
        r@ == path@,
{
    owned(path)
}

/// The app-state layout under one state root.
#[derive(Debug)]
pub struct AppDirs {
    pub state_root: String,
    pub database: String,
    pub worktrees: String,
    pub logs: String,
    pub artifacts: String,
    pub backups: String,
}

/// The layout that `app_dirs` builds under `root`.
pub open spec fn app_dirs_spec(root: Seq<char>, d: AppDirs) -> bool {
    &&& d.state_root@ == root
    &&& d.database@ == path_join(root, "codex-automation.sqlite"@)
    &&& d.worktrees@ == path_join(root, "worktrees"@)
    &&& d.logs@ == path_join(root, "logs"@)
    &&& d.artifacts@ == path_join(root, "artifacts"@)
    &&& d.backups@ == path_join(root, "backups"@)
}

/// The app-state layout under `state_root`: the SQLite database file and
/// the worktree, log, artifact and backup directories.
pub fn app_dirs(state_root: &str) -> (d: AppDirs)
    ensures
        app_dirs_spec(state_root@, d),
{
    AppDirs {
        database: join(state_root, "codex-automation.sqlite"),
        worktrees: join(state_root, "worktrees"),
        logs: join(state_root, "logs"),
        artifacts: join(state_root, "artifacts"),
        backups: join(state_root, "backups"),
        state_root: owned(state_root),
    }
}

/// The operating systems whose state roots differ.
#[derive(Debug, Clone, Copy, PartialEq, Eq, Structural)]
pub enum HostOs {
    MacOs,
    Windows,
    Other,
}

/// The environment variables that decide the state root; `None` for unset.
#[derive(Debug)]
pub struct StateEnv {
    pub codex_automation_home: Option<String>,
    pub home: Option<String>,
    pub xdg_state_home: Option<String>,
    pub local_app_data: Option<String>,
    pub user_profile: Option<String>,
}

pub open spec fn opt_view(o: Option<String>) -> Option<Seq<char>> {
    match o {
        Some(s) => Some(s@),
        None => None,
    }
}

/// What the state root resolves to: `Ok` with the root, or `Err` with the
/// variable that is empty (`Ok(None)` inside stands for "no variable names a
/// home", whose message depends on the OS).
pub open spec fn state_root_spec(
    os: HostOs,
    override_home: Option<Seq<char>>,
    home: Option<Seq<char>>,
    xdg: Option<Seq<char>>,
    local_app_data: Option<Seq<char>>,
    user_profile: Option<Seq<char>>,
) -> Result<Seq<char>, Option<Seq<char>>> {
    if override_home is Some {
        if override_home->0.len() == 0 {
            Err(Some("CODEX_AUTOMATION_HOME"@))
        } else {
            Ok(override_home->0)
        }
    } else {
        match os {
            HostOs::MacOs => match home {
                Some(h) => Ok(
                    path_join(
                        path_join(path_join(h, "Library"@), "Application Support"@),
                        "codex-automation"@,
                    ),
                ),
                None => Err(None),
            },
            HostOs::Windows => match local_app_data {
                Some(l) => Ok(path_join(l, "codex-automation"@)),
                None => match user_profile {
                    Some(p) => Ok(
                        path_join(path_join(path_join(p, "AppData"@), "Local"@), "codex-automation"@),
                    ),
                    None => Err(None),
                },
            },
            HostOs::Other => match xdg {
                Some(x) => if x.len() == 0 {
                    Err(Some("XDG_STATE_HOME"@))
                } else {
                    Ok(path_join(x, "codex-automation"@))
                },
                None => match home {
                    Some(h) => Ok(
                        path_join(path_join(path_join(h, ".local"@), "state"@), "codex-automation"@),
                    ),
                    None => Err(None),
                },
            },
        }
    }
}

/// The detail of the error when no variable names a home directory.
pub open spec fn home_missing_detail(os: HostOs) -> Seq<char> {
    match os {
        HostOs::MacOs => "HOME is required on macOS"@,
        HostOs::Windows => "LOCALAPPDATA or USERPROFILE is required on Windows"@,
        HostOs::Other => "HOME is required when XDG_STATE_HOME is unset"@,
    }
}

/// The app-state root: `CODEX_AUTOMATION_HOME` when set, else the OS's
/// application-state directory under the user's home.
pub fn resolve_state_root(os: HostOs, env: &StateEnv) -> (r: Result<String, Error>)
    ensures
        state_root_spec(
            os,
            opt_view(env.codex_automation_home),
            opt_view(env.home),
            opt_view(env.xdg_state_home),
            opt_view(env.local_app_data),
            opt_view(env.user_profile),
        ) matches Ok(root) ==> r matches Ok(s) && s@ == root,
        state_root_spec(
            os,
            opt_view(env.codex_automation_home),
            opt_view(env.home),
            opt_view(env.xdg_state_home),
            opt_view(env.local_app_data),
            opt_view(env.user_profile),
        ) matches Err(Some(var)) ==> r matches Err(Error::EnvEmpty { name }) && name@ == var,
        state_root_spec(
            os,
            opt_view(env.codex_automation_home),
            opt_view(env.home),
            opt_view(env.xdg_state_home),
            opt_view(env.local_app_data),
            opt_view(env.user_profile),
        ) matches Err(None) ==> r matches Err(Error::HomeMissing { detail }) && detail@
            == home_missing_detail(os),
{
    if let Some(raw) = &env.codex_automation_home {
        if raw.as_str().unicode_len() == 0 {
            return Err(Error::EnvEmpty { name: owned("CODEX_AUTOMATION_HOME") });
        }
        return Ok(owned(raw.as_str()));
    }
    match os {
        HostOs::MacOs => match &env.home {
            Some(h) => {
                let a = join(h.as_str(), "Library");
                let b = join(a.as_str(), "Application Support");
                Ok(join(b.as_str(), "codex-automation"))
            },
            None => Err(Error::HomeMissing { detail: owned("HOME is required on macOS") }),
        },
        HostOs::Windows => match &env.local_app_data {
            Some(l) => Ok(join(l.as_str(), "codex-automation")),
            None => match &env.user_profile {
                Some(p) => {
                    let a = join(p.as_str(), "AppData");
                    let b = join(a.as_str(), "Local");
                    Ok(join(b.as_str(), "codex-automation"))
                },
                None => Err(
                    Error::HomeMissing {
                        detail: owned("LOCALAPPDATA or USERPROFILE is required on Windows"),
                    },
                ),
            },
        },
        HostOs::Other => match &env.xdg_state_home {
            Some(x) => {
                if x.as_str().unicode_len() == 0 {
                    return Err(Error::EnvEmpty { name: owned("XDG_STATE_HOME") });
                }
                Ok(join(x.as_str(), "codex-automation"))
            },
            None => match &env.home {
                Some(h) => {
                    let a = join(h.as_str(), ".local");
                    let b = join(a.as_str(), "state");
                    Ok(join(b.as_str(), "codex-automation"))
                },
                None => Err(
                    Error::HomeMissing {
                        detail: owned("HOME is required when XDG_STATE_HOME is unset"),
                    },
                ),
            },
        },
    }
}

/// Whether a path is written relative to the home directory: `~` or `~/...`.
pub open spec fn is_home_relative(raw: Seq<char>) -> bool {
    raw == seq!['~'] || starts_with(raw, seq!['~', '/'])
}

/// The path after the leading `~/`, or nothing for `~`.
pub open spec fn home_suffix(raw: Seq<char>) -> Seq<char> {
    if starts_with(raw, seq!['~', '/']) {
        raw.subrange(2, raw.len() as int)
    } else {
        Seq::empty()
    }
}

/// `raw` with a leading `~` replaced by `home`; other paths are kept.
/// A `~` path without a home is refused.
pub fn expand_home(raw: &str, home: Option<&str>) -> (r: Result<String, Error>)
    ensures
        !is_home_relative(raw@) ==> (r matches Ok(s) && s@ == raw@),
        is_home_relative(raw@) && home is Some ==> (r matches Ok(s) && s@ == path_join(
            home->0@,
            home_suffix(raw@),
        )),
        is_home_relative(raw@) && home is None ==> (r matches Err(Error::HomeMissing { detail })
            && detail@ == "HOME is required for ~ expansion"@),
{
    let v = chars_of(raw);
    let mut tilde: Vec<char> = Vec::new();
    tilde.push('~');
    let mut tilde_slash: Vec<char> = Vec::new();
    tilde_slash.push('~');
    tilde_slash.push('/');
    assert(tilde@ =~= seq!['~']);
    assert(tilde_slash@ =~= seq!['~', '/']);
    let is_tilde = v.len() == 1 && v[0] == '~';
    assert(is_tilde == (v@ == seq!['~'])) by {
        if v@.len() == 1 && v@[0] == '~' {
            assert(v@ =~= seq!['~']);
        }
    }
    let has_prefix = starts_with_exec(&v, &tilde_slash);
    if !is_tilde && !has_prefix {
        return Ok(owned(raw));
    }
    match home {
        None => Err(Error::HomeMissing { detail: owned("HOME is required for ~ expansion") }),
        Some(h) => {
            let mut suffix: Vec<char> = Vec::new();
            if has_prefix {
                let mut k: usize = 2;
                while k < v.len()
                    invariant
                        2 <= k <= v.len(),
                        suffix@ == v@.subrange(2, k as int),
                    decreases v.len() - k,
                {
                    suffix.push(v[k]);
                    k = k + 1;
                    assert(suffix@ =~= v@.subrange(2, k as int));
                }
            } else {
                assert(suffix@ =~= Seq::<char>::empty());
            }
            let s = crate::text::string_of(&suffix);
            Ok(join(h, s.as_str()))
        },
    }
}

/// `raw` made absolute: `~` expanded against `home`, relative paths joined
/// to `cwd`, absolute paths kept.
pub fn expand_path(raw: &str, home: Option<&str>, cwd: &str) -> (r: Result<String, Error>)
    ensures
        is_home_relative(raw@) && home is Some ==> (r matches Ok(s) && s@ == path_join(
            home->0@,
            home_suffix(raw@),
        )),
        is_home_relative(raw@) && home is None ==> r is Err,
        !is_home_relative(raw@) && raw@.len() > 0 && raw@[0] == '/' ==> (r matches Ok(s) && s@
            == raw@),
        !is_home_relative(raw@) && !(raw@.len() > 0 && raw@[0] == '/') ==> (r matches Ok(s) && s@
            == path_join(cwd@, raw@)),
{
    let v = chars_of(raw);
    let mut tilde_slash: Vec<char> = Vec::new();
    tilde_slash.push('~');
    tilde_slash.push('/');
    assert(tilde_slash@ =~= seq!['~', '/']);
    let is_tilde = v.len() == 1 && v[0] == '~';
    assert(is_tilde == (v@ == seq!['~'])) by {
        if v@.len() == 1 && v@[0] == '~' {
            assert(v@ =~= seq!['~']);
        }
    }
    if is_tilde || starts_with_exec(&v, &tilde_slash) {
        return expand_home(raw, home);
    }
    if v.len() > 0 && v[0] == '/' {
        Ok(owned(raw))
    } else {
        Ok(join(cwd, raw))
    }
}

} // verus!
