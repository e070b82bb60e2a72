//! Worker definitions: reading a `[worker]` table, matching workers to
//! workorder kinds, and the instruction texts of workspace configs.
use vstd::prelude::*;
use crate::error::Error;
use crate::json::{as_text, field, is_object, Json};
use crate::text::{owned, str_eq, trim, trim_str};

verus! {

broadcast use vstd::string::group_string_axioms;

/// The first problem found in a worker definition.
pub enum WorkerFault {
    TableMissing,
    TableNotObject,
    Required(Seq<char>),
    NotString(Seq<char>),
    NotArray(Seq<char>),
    ItemInvalid(Seq<char>),
    Empty(Seq<char>),
    OptionalNotString(Seq<char>),
    MaxConcurrency,
    ConfigNotObject,
}

/// Whether error `e` reports fault `f`.
pub open spec fn reports(e: Error, f: WorkerFault) -> bool {
    match f {
        WorkerFault::TableMissing => e is WorkerTableMissing,
        WorkerFault::TableNotObject => e is WorkerTableNotObject,
        WorkerFault::Required(k) => e matches Error::WorkerFieldRequired { key } && key@ == k,
        WorkerFault::NotString(k) => e matches Error::WorkerFieldNotString { key } && key@ == k,
        WorkerFault::NotArray(k) => e matches Error::WorkerFieldNotArray { key } && key@ == k,
        WorkerFault::ItemInvalid(k) => e matches Error::WorkerArrayItemInvalid { key } && key@ == k,
        WorkerFault::Empty(k) => e matches Error::WorkerArrayEmpty { key } && key@ == k,
        WorkerFault::OptionalNotString(k) => e matches Error::WorkerOptionalNotString { key } && key@
            == k,
        WorkerFault::MaxConcurrency => e is WorkerMaxConcurrency,
        WorkerFault::ConfigNotObject => e is WorkerConfigNotObject,
    }
}

/// The problem with required string field `key` of `w`, if any: it must be
/// present and a string that is not blank.
pub open spec fn string_fault(w: Json, key: Seq<char>) -> Option<WorkerFault> {
    match field(w, key) {
        None => Some(WorkerFault::Required(key)),
        Some(v) => match as_text(Some(v)) {
            Some(s) => if trim(s).len() > 0 {
                None
            } else {
                Some(WorkerFault::NotString(key))
            },
            None => Some(WorkerFault::NotString(key)),
        },
    }
}

/// Whether an array item is a string that is not blank.
pub open spec fn item_ok(j: Json) -> bool {
    match j {
        Json::Str(s) => trim(s@).len() > 0,
        _ => false,
    }
}

/// The trimmed text of an array item.
pub open spec fn item_text(j: Json) -> Seq<char> {
    match j {
        Json::Str(s) => trim(s@),
        _ => Seq::empty(),
    }
}

/// The problem with required string-array field `key` of `w`, if any: it
/// must be present, an array, made of strings that are not blank, and not
/// empty.
pub open spec fn array_fault(w: Json, key: Seq<char>) -> Option<WorkerFault> {
    match field(w, key) {
        None => Some(WorkerFault::Required(key)),
        Some(Json::Array(items)) => if exists|i: int|
            0 <= i < items@.len() && !item_ok(#[trigger] items@[i]) {
            Some(WorkerFault::ItemInvalid(key))
        } else if items@.len() == 0 {
            Some(WorkerFault::Empty(key))
        } else {
            None
        },
        Some(_) => Some(WorkerFault::NotArray(key)),
    }
}

/// The items of array field `key` of `w`, trimmed.
pub open spec fn array_items(w: Json, key: Seq<char>) -> Seq<Seq<char>> {
    match field(w, key) {
        Some(Json::Array(items)) => items@.map_values(|j: Json| item_text(j)),
        _ => Seq::empty(),
    }
}

/// The problem with `max_concurrency`, if any: it must be a positive integer.
pub open spec fn max_concurrency_fault(w: Json) -> Option<WorkerFault> {
    match field(w, "max_concurrency"@) {
        None => Some(WorkerFault::Required("max_concurrency"@)),
        Some(Json::Int(n)) => if n > 0 {
            None
        } else {
            Some(WorkerFault::MaxConcurrency)
        },
        Some(_) => Some(WorkerFault::MaxConcurrency),
    }
}

/// The problem with optional string field `key`, if any: when present it
/// must be a string.
pub open spec fn optional_fault(w: Json, key: Seq<char>) -> Option<WorkerFault> {
    match field(w, key) {
        None => None,
        Some(v) => if as_text(Some(v)) is Some {
            None
        } else {
            Some(WorkerFault::OptionalNotString(key))
        },
    }
}

/// The trimmed text of optional string field `key`, or empty when absent.
pub open spec fn optional_text(w: Json, key: Seq<char>) -> Seq<char> {
    match as_text(field(w, key)) {
        Some(s) => trim(s),
        None => Seq::empty(),
    }
}

/// The first problem with the fields of a `[worker]` table, in the order
/// they are checked.
pub open spec fn worker_fields_fault(w: Json) -> Option<WorkerFault> {
    if string_fault(w, "id"@) is Some {
        string_fault(w, "id"@)
    } else if string_fault(w, "name"@) is Some {
        string_fault(w, "name"@)
    } else if string_fault(w, "description"@) is Some {
        string_fault(w, "description"@)
    } else if array_fault(w, "skills"@) is Some {
        array_fault(w, "skills"@)
    } else if array_fault(w, "allowed_workorder_kinds"@) is Some {
        array_fault(w, "allowed_workorder_kinds"@)
    } else if string_fault(w, "sandbox"@) is Some {
        string_fault(w, "sandbox"@)
    } else if string_fault(w, "approval_policy"@) is Some {
        string_fault(w, "approval_policy"@)
    } else if string_fault(w, "autonomy_profile"@) is Some {
        string_fault(w, "autonomy_profile"@)
    } else if max_concurrency_fault(w) is Some {
        max_concurrency_fault(w)
    } else {
        optional_fault(w, "custom_instructions"@)
    }
}

/// The first problem with a worker definition: the `worker` table must be
/// present and a table, its fields must pass [`worker_fields_fault`], and a
/// top-level `config`, when present, must be a table.
pub open spec fn worker_fault(payload: Json) -> Option<WorkerFault> {
    match field(payload, "worker"@) {
        None => Some(WorkerFault::TableMissing),
        Some(w) => if !is_object(w) {
            Some(WorkerFault::TableNotObject)
        } else if worker_fields_fault(w) is Some {
            worker_fields_fault(w)
        } else if field(payload, "config"@) matches Some(c) && !is_object(c) {
            Some(WorkerFault::ConfigNotObject)
        } else {
            None
        },
    }
}

/// A worker's `max_concurrency` is accepted exactly when it is an integer
/// of at least one: an accepted definition carries such a value, and a
/// definition refused for its `max_concurrency` does not.
pub proof fn law_max_concurrency_positive(payload: Json)
    ensures
        worker_fault(payload) is None ==> (field(field(payload, "worker"@)->0, "max_concurrency"@)
            matches Some(Json::Int(n)) && n >= 1),
        worker_fault(payload) == Some(WorkerFault::MaxConcurrency) ==> !(field(
            field(payload, "worker"@)->0,
            "max_concurrency"@,
        ) matches Some(Json::Int(n)) && n >= 1),
{
}

/// A validated worker definition.
#[derive(Debug)]
pub struct WorkerDefinition {
    pub id: String,
    pub name: String,
    pub description: String,
    pub skills: Vec<String>,
    pub allowed_workorder_kinds: Vec<String>,
    pub sandbox: String,
    pub approval_policy: String,
    pub autonomy_profile: String,
    pub max_concurrency: i64,
    pub custom_instructions: String,
}

pub open spec fn texts(v: Seq<String>) -> Seq<Seq<char>> {
    v.map_values(|s: String| s@)
}

/// The definition that a valid `[worker]` table `w` describes.
pub open spec fn definition_of(w: Json, d: WorkerDefinition) -> bool {
    &&& d.id@ == trim(as_text(field(w, "id"@))->0)
    &&& d.name@ == trim(as_text(field(w, "name"@))->0)
    &&& d.description@ == trim(as_text(field(w, "description"@))->0)
    &&& texts(d.skills@) == array_items(w, "skills"@)
    &&& texts(d.allowed_workorder_kinds@) == array_items(w, "allowed_workorder_kinds"@)
    &&& d.sandbox@ == trim(as_text(field(w, "sandbox"@))->0)
    &&& d.approval_policy@ == trim(as_text(field(w, "approval_policy"@))->0)
    &&& d.autonomy_profile@ == trim(as_text(field(w, "autonomy_profile"@))->0)
    &&& field(w, "max_concurrency"@) == Some(Json::Int(d.max_concurrency))
    &&& d.custom_instructions@ == optional_text(w, "custom_instructions"@)
}

fn required_string_field(w: &Json, key: &str) -> (r: Result<String, Error>)
    ensures
        r is Ok <==> string_fault(*w, key@) is None,
        r matches Ok(s) ==> s@ == trim(as_text(field(*w, key@))->0),
        r matches Err(e) ==> reports(e, string_fault(*w, key@)->0),
{
    match w.get(key) {
        None => Err(Error::WorkerFieldRequired { key: owned(key) }),
        Some(v) => match v.as_str() {
            Some(s) => {
                let t = trim_str(s);
                if t.as_str().unicode_len() > 0 {
                    Ok(t)
                } else {
                    Err(Error::WorkerFieldNotString { key: owned(key) })
                }
            },
            None => Err(Error::WorkerFieldNotString { key: owned(key) }),
        },
    }
}

fn string_items(items: &Vec<Json>, key: &str) -> (r: Result<Vec<String>, Error>)
    ensures
        r is Ok <==> forall|i: int| 0 <= i < items@.len() ==> item_ok(#[trigger] items@[i]),
        r matches Ok(v) ==> texts(v@) == items@.map_values(|j: Json| item_text(j)),
        r matches Err(e) ==> e matches Error::WorkerArrayItemInvalid { key: k } && k@ == key@,
{
    let mut out: Vec<String> = Vec::new();
    let mut i: usize = 0;
    while i < items.len()
        invariant
            i <= items.len(),
            forall|k: int| 0 <= k < i ==> item_ok(#[trigger] items@[k]),
            texts(out@) == items@.subrange(0, i as int).map_values(|j: Json| item_text(j)),
        decreases items.len() - i,
    {
        let text = match items[i].as_str() {
            Some(s) => trim_str(s),
            None => {
                return Err(Error::WorkerArrayItemInvalid { key: owned(key) });
            },
        };
        if text.as_str().unicode_len() == 0 {
            return Err(Error::WorkerArrayItemInvalid { key: owned(key) });
        }
        assert(item_text(items@[i as int]) == text@);
        let ghost before = out@;
        out.push(text);
        assert(items@.subrange(0, i + 1) =~= items@.subrange(0, i as int).push(items@[i as int]));
        assert(texts(out@) =~= texts(before).push(text@));
        i = i + 1;
        assert(texts(out@) =~= items@.subrange(0, i as int).map_values(|j: Json| item_text(j)));
    }
    assert(items@.subrange(0, items@.len() as int) =~= items@);
    Ok(out)
}

fn required_string_array(w: &Json, key: &str) -> (r: Result<Vec<String>, Error>)
    ensures
        r is Ok <==> array_fault(*w, key@) is None,
        r matches Ok(v) ==> texts(v@) == array_items(*w, key@),
        r matches Err(e) ==> reports(e, array_fault(*w, key@)->0),
{
    match w.get(key) {
        None => Err(Error::WorkerFieldRequired { key: owned(key) }),
        Some(Json::Array(items)) => {
            let out = string_items(items, key)?;
            assert(texts(out@).len() == items@.len());
            if out.len() == 0 {
                assert(items@.len() == 0);
                return Err(Error::WorkerArrayEmpty { key: owned(key) });
            }
            Ok(out)
        },
        Some(_) => Err(Error::WorkerFieldNotArray { key: owned(key) }),
    }
}

/// Reads and checks a worker definition; see [`worker_fault`] for the
/// checks and their order and [`definition_of`] for what is read.
pub fn parse_worker_definition(payload: &Json) -> (r: Result<WorkerDefinition, Error>)
    ensures
        r is Ok <==> worker_fault(*payload) is None,
        r matches Ok(d) ==> definition_of(field(*payload, "worker"@)->0, d),
        r matches Err(e) ==> reports(e, worker_fault(*payload)->0),
{
    let w = match payload.get("worker") {
        None => {
            return Err(Error::WorkerTableMissing);
        },
        Some(w) => w,
    };
    if !w.is_object() {
        return Err(Error::WorkerTableNotObject);
    }
    let id = required_string_field(w, "id")?;
    let name = required_string_field(w, "name")?;
    let description = required_string_field(w, "description")?;
    let skills = required_string_array(w, "skills")?;
    let allowed_workorder_kinds = required_string_array(w, "allowed_workorder_kinds")?;
    let sandbox = required_string_field(w, "sandbox")?;
    let approval_policy = required_string_field(w, "approval_policy")?;
    let autonomy_profile = required_string_field(w, "autonomy_profile")?;
    let max_concurrency = match w.get("max_concurrency") {
        None => {
            return Err(Error::WorkerFieldRequired { key: owned("max_concurrency") });
        },
        Some(Json::Int(n)) => {
            if *n <= 0 {
                return Err(Error::WorkerMaxConcurrency);
            }
            *n
        },
        Some(_) => {
            return Err(Error::WorkerMaxConcurrency);
        },
    };
    let custom_instructions = match w.get("custom_instructions") {
        None => String::new(),
        Some(v) => match v.as_str() {
            Some(s) => trim_str(s),
            None => {
                return Err(Error::WorkerOptionalNotString { key: owned("custom_instructions") });
            },
        },
    };
    match payload.get("config") {
        Some(c) => {
            if !c.is_object() {
                return Err(Error::WorkerConfigNotObject);
            }
        },
        None => {},
    }
    Ok(
        WorkerDefinition {
            id,
            name,
            description,
            skills,
            allowed_workorder_kinds,
            sandbox,
            approval_policy,
            autonomy_profile,
            max_concurrency,
            custom_instructions,
        },
    )
}

/// A registered worker as the control loop reads it.
#[derive(Debug)]
pub struct WorkerRecord {
    pub id: String,
    pub name: String,
    pub status: String,
    /// The stored list of allowed workorder kinds.
    pub allowed_workorder_kinds: Json,
    pub sandbox: String,
    pub custom_instructions: String,
}

/// Whether a worker's allowed kinds hold a string equal to `kind`.
pub open spec fn allows_kind(allowed: Json, kind: Seq<char>) -> bool {
    match allowed {
        Json::Array(items) => exists|i: int|
            0 <= i < items@.len() && (#[trigger] items@[i] matches Json::Str(s) && s@ == kind),
        _ => false,
    }
}

fn items_hold_text(items: &Vec<Json>, kind: &str) -> (r: bool)
    ensures
        r == exists|i: int|
            0 <= i < items@.len() && (#[trigger] items@[i] matches Json::Str(s) && s@ == kind@),
{
    let mut i: usize = 0;
    while i < items.len()
        invariant
            i <= items.len(),
            forall|k: int| 0 <= k < i ==> !(#[trigger] items@[k] matches Json::Str(s) && s@ == kind@),
        decreases items.len() - i,
    {
        match &items[i] {
            Json::Str(s) => {
                if str_eq(s.as_str(), kind) {
                    assert(items@[i as int] matches Json::Str(s2) && s2@ == kind@);
                    return true;
                }
            },
            _ => {},
        }
        i = i + 1;
    }
    false
}

/// Whether `worker` accepts workorders of `kind`; see [`allows_kind`].
pub fn worker_allows_kind(worker: &WorkerRecord, kind: &str) -> (r: bool)
    ensures
        r == allows_kind(worker.allowed_workorder_kinds, kind@),
{
    match &worker.allowed_workorder_kinds {
        Json::Array(items) => items_hold_text(items, kind),
        _ => false,
    }
}

/// Whether a worker is active and accepts `kind`.
pub open spec fn can_take(w: WorkerRecord, kind: Seq<char>) -> bool {
    w.status@ == "active"@ && allows_kind(w.allowed_workorder_kinds, kind)
}

/// The first active worker, in list order, that accepts `kind`.
pub fn select_worker_for_kind(workers: &Vec<WorkerRecord>, kind: &str) -> (r: Result<usize, Error>)
    ensures
        r matches Ok(i) ==> i < workers@.len() && can_take(workers@[i as int], kind@) && forall|
            j: int,
        | 0 <= j < i ==> !can_take(#[trigger] workers@[j], kind@),
        r is Err <==> forall|j: int| 0 <= j < workers@.len() ==> !can_take(#[trigger] workers@[j], kind@),
        r matches Err(e) ==> e matches Error::NoActiveWorker { kind: k } && k@ == kind@,
{
    let mut i: usize = 0;
    while i < workers.len()
        invariant
            i <= workers.len(),
            forall|j: int| 0 <= j < i ==> !can_take(#[trigger] workers@[j], kind@),
        decreases workers.len() - i,
    {
        if str_eq(workers[i].status.as_str(), "active") && worker_allows_kind(&workers[i], kind) {
            return Ok(i);
        }
        i = i + 1;
    }
    Err(Error::NoActiveWorker { kind: owned(kind) })
}

/// Checks that `worker` accepts a workorder of `kind`; runner dispatch with
/// a named worker refuses otherwise. A worker whose
/// `allowed_workorder_kinds` is not an array is refused as malformed.
pub fn ensure_worker_allows(worker: &WorkerRecord, kind: &str) -> (r: Result<(), Error>)
    ensures
        r is Ok <==> allows_kind(worker.allowed_workorder_kinds, kind@),
        !(worker.allowed_workorder_kinds is Array) ==> r matches Err(Error::WorkerKindsMissing),
        worker.allowed_workorder_kinds is Array && !allows_kind(worker.allowed_workorder_kinds, kind@)
            ==> (r matches Err(Error::WorkerKindNotAllowed { worker_id, kind: k })
            && worker_id@ == worker.id@ && k@ == kind@),
{
    match &worker.allowed_workorder_kinds {
        Json::Array(_) => {},
        _ => {
            return Err(Error::WorkerKindsMissing);
        },
    }
    if worker_allows_kind(worker, kind) {
        Ok(())
    } else {
        Err(Error::WorkerKindNotAllowed { worker_id: worker.id.clone(), kind: owned(kind) })
    }
}

/// The `custom_instructions` of `section` in a workspace TOML document:
/// trimmed text, empty when the section or entry is absent, and refused
/// when the entry is not a string. `path` is the document's file, which
/// the refusal names.
pub fn custom_instructions_from_config(config: &Json, section: &str, path: &str) -> (r: Result<
    String,
    Error,
>)
    ensures
        match field(*config, section@) {
            None => r matches Ok(s) && s@.len() == 0,
            Some(sec) => match field(sec, "custom_instructions"@) {
                None => r matches Ok(s) && s@.len() == 0,
                Some(v) => match as_text(Some(v)) {
                    Some(t) => r matches Ok(s) && s@ == trim(t),
                    None => r matches Err(Error::CustomInstructionsNotString { section: n, path: p })
                        && n@ == section@ && p@ == path@,
                },
            },
        },
{
    let sec = match config.get(section) {
        None => {
            return Ok(String::new());
        },
        Some(s) => s,
    };
    let value = match sec.get("custom_instructions") {
        None => {
            return Ok(String::new());
        },
        Some(v) => v,
    };
    match value.as_str() {
        Some(t) => Ok(trim_str(t)),
        None => Err(Error::CustomInstructionsNotString { section: owned(section), path: owned(path) }),
    }
}

/// The workspace id in a workspace config: `workspace.id`, which must be a
/// non-empty string. `path` is the config's file, which the refusal names.
pub fn workspace_id_from_config(config: &Json, path: &str) -> (r: Result<String, Error>)
    ensures
        match field(*config, "workspace"@) {
            Some(ws) => match as_text(field(ws, "id"@)) {
                Some(t) => if t.len() > 0 {
                    r matches Ok(s) && s@ == t
                } else {
                    (r matches Err(Error::WorkspaceIdMissing { path: p }) && p@ == path@)
                },
                None => (r matches Err(Error::WorkspaceIdMissing { path: p }) && p@ == path@),
            },
            None => (r matches Err(Error::WorkspaceIdMissing { path: p }) && p@ == path@),
        },
{
    match config.get("workspace") {
        Some(ws) => match ws.str_field("id") {
            Some(t) => {
                if t.unicode_len() > 0 {
                    Ok(owned(t))
                } else {
                    Err(Error::WorkspaceIdMissing { path: owned(path) })
                }
            },
            None => Err(Error::WorkspaceIdMissing { path: owned(path) }),
        },
        None => Err(Error::WorkspaceIdMissing { path: owned(path) }),
    }
}

/// The workspace name in a workspace config: `workspace.name` when it is a
/// string, else `fallback` (the workspace id).
pub fn workspace_name_from_config(config: &Json, fallback: &str) -> (r: String)
    ensures
        r@ == match as_text(
            match field(*config, "workspace"@) {
                Some(ws) => field(ws, "name"@),
                None => None,
            },
        ) {
            Some(t) => t,
            None => fallback@,
        },
{
    match config.get("workspace") {
        Some(ws) => match ws.str_field("name") {
            Some(t) => owned(t),
            None => owned(fallback),
        },
        None => owned(fallback),
    }
}

} // verus!
