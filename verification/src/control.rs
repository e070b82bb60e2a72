//! The control loop's decisions: which workorder a loop step acts on, how a
//! step changes it, what a heartbeat reports, and the checks on workorders,
//! approvals and runner refreshes.
use vstd::prelude::*;
use crate::error::Error;
use crate::ids::required;
use crate::json::{as_text, field, is_object, Json};
use crate::results::{workorder_status_text, ResultSubmission, WorkorderStatus};
use crate::text::{cat, i64_text, int_text, lemma_text_lt_total, lemma_text_lt_transitive, owned, str_eq, text_less, text_lt, trim};

verus! {

broadcast use vstd::string::group_string_axioms;

/// One stored workorder.
#[derive(Debug)]
pub struct WorkorderRow {
    pub id: String,
    pub target_id: String,
    pub kind: String,
    pub status: String,
    pub title: String,
    pub payload_json: String,
    pub created_at: String,
    pub updated_at: String,
}

/// The order in which workorders are taken: by creation time, then by id.
pub open spec fn row_lt(a: WorkorderRow, b: WorkorderRow) -> bool {
    text_lt(a.created_at@, b.created_at@) || (a.created_at@ == b.created_at@ && text_lt(
        a.id@,
        b.id@,
    ))
}

proof fn lemma_row_lt_order(a: WorkorderRow, b: WorkorderRow, c: WorkorderRow)
    ensures
        !row_lt(a, a),
        row_lt(a, b) && row_lt(b, c) ==> row_lt(a, c),
        !(row_lt(a, b) && row_lt(b, a)),
{
    lemma_text_lt_total(a.created_at@, a.created_at@);
    lemma_text_lt_total(a.id@, a.id@);
    lemma_text_lt_total(a.created_at@, b.created_at@);
    lemma_text_lt_total(a.id@, b.id@);
    lemma_text_lt_total(b.created_at@, c.created_at@);
    if row_lt(a, b) && row_lt(b, c) {
        if text_lt(a.created_at@, b.created_at@) && text_lt(b.created_at@, c.created_at@) {
            lemma_text_lt_transitive(a.created_at@, b.created_at@, c.created_at@);
        }
        if a.created_at@ == b.created_at@ && b.created_at@ == c.created_at@ {
            lemma_text_lt_transitive(a.id@, b.id@, c.id@);
        }
    }
}

/// Whether `a` is taken before `b`; see [`row_lt`].
pub fn row_before(a: &WorkorderRow, b: &WorkorderRow) -> (r: bool)
    ensures
        r == row_lt(*a, *b),
{
    if text_less(a.created_at.as_str(), b.created_at.as_str()) {
        return true;
    }
    str_eq(a.created_at.as_str(), b.created_at.as_str()) && text_less(a.id.as_str(), b.id.as_str())
}

/// Whether the row's status is one of `statuses`.
pub open spec fn status_in(row: WorkorderRow, statuses: Seq<&str>) -> bool {
    exists|k: int| 0 <= k < statuses.len() && statuses[k]@ == row.status@
}

/// Whether some row has one of `statuses`.
pub open spec fn any_in(rows: Seq<WorkorderRow>, statuses: Seq<&str>) -> bool {
    exists|j: int| 0 <= j < rows.len() && status_in(#[trigger] rows[j], statuses)
}

/// Whether row `i` is the first, in taking order, of the rows with one of
/// `statuses`.
pub open spec fn is_earliest(rows: Seq<WorkorderRow>, i: int, statuses: Seq<&str>) -> bool {
    &&& 0 <= i < rows.len()
    &&& status_in(rows[i], statuses)
    &&& forall|j: int|
        0 <= j < rows.len() && status_in(#[trigger] rows[j], statuses) ==> !row_lt(rows[j], rows[i])
}

fn status_is_one_of(row: &WorkorderRow, statuses: &Vec<&str>) -> (r: bool)
    ensures
        r == status_in(*row, statuses@),
{
    let mut k: usize = 0;
    while k < statuses.len()
        invariant
            k <= statuses.len(),
            forall|m: int| 0 <= m < k ==> statuses@[m]@ != row.status@,
        decreases statuses.len() - k,
    {
        if str_eq(statuses[k], row.status.as_str()) {
            return true;
        }
        k = k + 1;
    }
    false
}

/// The first row, in taking order, whose status is one of `statuses`.
pub fn earliest_with_status(rows: &Vec<WorkorderRow>, statuses: &Vec<&str>) -> (r: Option<usize>)
    ensures
        match r {
            Some(i) => is_earliest(rows@, i as int, statuses@),
            None => !any_in(rows@, statuses@),
        },
{
    let mut best: Option<usize> = None;
    let mut i: usize = 0;
    while i < rows.len()
        invariant
            i <= rows.len(),
            match best {
                Some(b) => b < i && status_in(rows@[b as int], statuses@) && forall|k: int|
                    0 <= k < i && status_in(#[trigger] rows@[k], statuses@) ==> !row_lt(
                        rows@[k],
                        rows@[b as int],
                    ),
                None => forall|k: int| 0 <= k < i ==> !status_in(#[trigger] rows@[k], statuses@),
            },
        decreases rows.len() - i,
    {
        if status_is_one_of(&rows[i], statuses) {
            match best {
                None => {
                    proof {
                        lemma_row_lt_order(rows@[i as int], rows@[i as int], rows@[i as int]);
                    }
                    best = Some(i);
                },
                Some(b) => {
                    if row_before(&rows[i], &rows[b]) {
                        proof {
                            assert forall|k: int|
                                0 <= k < i + 1 && status_in(
                                    #[trigger] rows@[k],
                                    statuses@,
                                ) implies !row_lt(rows@[k], rows@[i as int]) by {
                                lemma_row_lt_order(rows@[k], rows@[i as int], rows@[b as int]);
                                lemma_row_lt_order(rows@[i as int], rows@[k], rows@[b as int]);
                            }
                        }
                        best = Some(i);
                    }
                },
            }
        }
        i = i + 1;
    }
    best
}

/// The status texts that mean "waiting in the queue".
pub open spec fn queued_statuses(s: Seq<&str>) -> bool {
    s.len() == 1 && s[0]@ == "queued"@
}

/// The status texts that mean "a worker has it or the user must act".
pub open spec fn active_statuses(s: Seq<&str>) -> bool {
    s.len() == 3 && s[0]@ == "ready_for_worker"@ && s[1]@ == "handoff_ready"@ && s[2]@
        == "needs_user"@
}

/// The status texts that mean "ready to be handed to a worker".
pub open spec fn ready_statuses(s: Seq<&str>) -> bool {
    s.len() == 1 && s[0]@ == "ready_for_worker"@
}

fn queued_list() -> (v: Vec<&'static str>)
    ensures
        queued_statuses(v@),
{
    let mut v: Vec<&'static str> = Vec::new();
    v.push("queued");
    v
}

fn active_list() -> (v: Vec<&'static str>)
    ensures
        active_statuses(v@),
{
    let mut v: Vec<&'static str> = Vec::new();
    v.push("ready_for_worker");
    v.push("handoff_ready");
    v.push("needs_user");
    v
}

fn ready_list() -> (v: Vec<&'static str>)
    ensures
        ready_statuses(v@),
{
    let mut v: Vec<&'static str> = Vec::new();
    v.push("ready_for_worker");
    v
}

/// Whether a row is queued.
pub open spec fn is_queued(row: WorkorderRow) -> bool {
    row.status@ == "queued"@
}

/// Whether a row is held by a worker or waits for the user.
pub open spec fn is_active(row: WorkorderRow) -> bool {
    row.status@ == "ready_for_worker"@ || row.status@ == "handoff_ready"@ || row.status@
        == "needs_user"@
}

/// Whether a row is ready for a worker.
pub open spec fn is_ready(row: WorkorderRow) -> bool {
    row.status@ == "ready_for_worker"@
}

/// Whether row `i` is the first in taking order among the rows that
/// satisfy `p`.
pub open spec fn first_in_order(
    rows: Seq<WorkorderRow>,
    i: int,
    p: spec_fn(WorkorderRow) -> bool,
) -> bool {
    &&& 0 <= i < rows.len()
    &&& p(rows[i])
    &&& forall|j: int| 0 <= j < rows.len() && p(#[trigger] rows[j]) ==> !row_lt(rows[j], rows[i])
}

/// Whether some row satisfies `p`.
pub open spec fn some_row(rows: Seq<WorkorderRow>, p: spec_fn(WorkorderRow) -> bool) -> bool {
    exists|j: int| 0 <= j < rows.len() && p(#[trigger] rows[j])
}

proof fn lemma_status_sets(row: WorkorderRow, q: Seq<&str>, a: Seq<&str>, r: Seq<&str>)
    requires
        queued_statuses(q),
        active_statuses(a),
        ready_statuses(r),
    ensures
        status_in(row, q) == is_queued(row),
        status_in(row, a) == is_active(row),
        status_in(row, r) == is_ready(row),
{
    if is_queued(row) {
        assert(q[0]@ == row.status@);
    }
    if is_active(row) {
        if row.status@ == "ready_for_worker"@ {
            assert(a[0]@ == row.status@);
        } else if row.status@ == "handoff_ready"@ {
            assert(a[1]@ == row.status@);
        } else {
            assert(a[2]@ == row.status@);
        }
    }
    if is_ready(row) {
        assert(r[0]@ == row.status@);
    }
}

/// What one loop step does.
#[derive(Debug, Clone, Copy, PartialEq, Eq, Structural)]
pub enum LoopPlan {
    /// Mark the workorder at this index ready for a worker.
    MarkReady { index: usize },
    /// Leave the active workorder at this index alone.
    ActiveExists { index: usize },
    /// Create a read-only discovery workorder.
    CreateDiscovery,
}

/// The rule of a loop step: the first queued workorder (by creation time,
/// then id) is marked ready; with none queued, the first workorder held by
/// a worker or the user is reported; with none of either, a discovery
/// workorder is created.
pub open spec fn loop_plan_ok(rows: Seq<WorkorderRow>, p: LoopPlan) -> bool {
    match p {
        LoopPlan::MarkReady { index } => first_in_order(rows, index as int, |w| is_queued(w)),
        LoopPlan::ActiveExists { index } => !some_row(rows, |w| is_queued(w)) && first_in_order(
            rows,
            index as int,
            |w| is_active(w),
        ),
        LoopPlan::CreateDiscovery => !some_row(rows, |w| is_queued(w)) && !some_row(
            rows,
            |w| is_active(w),
        ),
    }
}

proof fn lemma_earliest_means_first(
    rows: Seq<WorkorderRow>,
    i: int,
    s: Seq<&str>,
    p: spec_fn(WorkorderRow) -> bool,
)
    requires
        is_earliest(rows, i, s),
        forall|w: WorkorderRow| status_in(w, s) == p(w),
    ensures
        first_in_order(rows, i, p),
{
    assert forall|j: int| 0 <= j < rows.len() && p(#[trigger] rows[j]) implies !row_lt(
        rows[j],
        rows[i],
    ) by {
        assert(status_in(rows[j], s));
    }
}

proof fn lemma_none_means_none(rows: Seq<WorkorderRow>, s: Seq<&str>, p: spec_fn(WorkorderRow) -> bool)
    requires
        !any_in(rows, s),
        forall|w: WorkorderRow| status_in(w, s) == p(w),
    ensures
        !some_row(rows, p),
{
    assert forall|j: int| 0 <= j < rows.len() implies !p(#[trigger] rows[j]) by {
        assert(!status_in(rows[j], s));
    }
}

/// Decides one loop step over a target's workorders; see [`loop_plan_ok`].
pub fn plan_loop_step(rows: &Vec<WorkorderRow>) -> (p: LoopPlan)
    ensures
        loop_plan_ok(rows@, p),
{
    let q = queued_list();
    let a = active_list();
    let r = ready_list();
    proof {
        assert forall|w: WorkorderRow| status_in(w, q@) == is_queued(w) by {
            lemma_status_sets(w, q@, a@, r@);
        }
        assert forall|w: WorkorderRow| status_in(w, a@) == is_active(w) by {
            lemma_status_sets(w, q@, a@, r@);
        }
    }
    match earliest_with_status(rows, &q) {
        Some(i) => {
            proof {
                lemma_earliest_means_first(rows@, i as int, q@, |w| is_queued(w));
            }
            LoopPlan::MarkReady { index: i }
        },
        None => {
            proof {
                lemma_none_means_none(rows@, q@, |w| is_queued(w));
            }
            match earliest_with_status(rows, &a) {
                Some(i) => {
                    proof {
                        lemma_earliest_means_first(rows@, i as int, a@, |w| is_active(w));
                    }
                    LoopPlan::ActiveExists { index: i }
                },
                None => {
                    proof {
                        lemma_none_means_none(rows@, a@, |w| is_active(w));
                    }
                    LoopPlan::CreateDiscovery
                },
            }
        },
    }
}

/// The first workorder, in taking order, that is ready for a worker.
pub fn first_ready_workorder(rows: &Vec<WorkorderRow>) -> (r: Option<usize>)
    ensures
        match r {
            Some(i) => first_in_order(rows@, i as int, |w| is_ready(w)),
            None => !some_row(rows@, |w| is_ready(w)),
        },
{
    let q = queued_list();
    let a = active_list();
    let r = ready_list();
    proof {
        assert forall|w: WorkorderRow| status_in(w, r@) == is_ready(w) by {
            lemma_status_sets(w, q@, a@, r@);
        }
    }
    match earliest_with_status(rows, &r) {
        Some(i) => {
            proof {
                lemma_earliest_means_first(rows@, i as int, r@, |w| is_ready(w));
            }
            Some(i)
        },
        None => {
            proof {
                lemma_none_means_none(rows@, r@, |w| is_ready(w));
            }
            None
        },
    }
}

/// A copy of `row` with the given status and update time.
pub open spec fn with_status(row: WorkorderRow, status: Seq<char>, now: Seq<char>, w: WorkorderRow) -> bool {
    &&& w.id@ == row.id@
    &&& w.target_id@ == row.target_id@
    &&& w.kind@ == row.kind@
    &&& w.status@ == status
    &&& w.title@ == row.title@
    &&& w.payload_json@ == row.payload_json@
    &&& w.created_at@ == row.created_at@
    &&& w.updated_at@ == now
}

/// `row` moved to `status` at time `now`; every other field is kept.
pub fn set_status(row: &WorkorderRow, status: WorkorderStatus, now: &str) -> (w: WorkorderRow)
    ensures
        with_status(*row, workorder_status_text(status), now@, w),
{
    WorkorderRow {
        id: row.id.clone(),
        target_id: row.target_id.clone(),
        kind: row.kind.clone(),
        status: owned(status.as_str()),
        title: row.title.clone(),
        payload_json: row.payload_json.clone(),
        created_at: row.created_at.clone(),
        updated_at: owned(now),
    }
}

/// Marking the chosen workorder ready makes progress: the next loop step
/// neither marks that workorder again nor creates discovery work, because
/// the workorder is now held for a worker.
pub proof fn law_loop_step_progress(rows: Seq<WorkorderRow>, i: int, now: Seq<char>, w: WorkorderRow)
    requires
        first_in_order(rows, i, |x| is_queued(x)),
        with_status(rows[i], workorder_status_text(WorkorderStatus::ReadyForWorker), now, w),
    ensures
        !is_queued(rows.update(i, w)[i]),
        some_row(rows.update(i, w), |x| is_active(x)),
        forall|p: LoopPlan|
            loop_plan_ok(rows.update(i, w), p) ==> !(p is CreateDiscovery) && (p matches LoopPlan::MarkReady { index } ==> index as int != i),
{
    reveal_strlit("queued");
    reveal_strlit("ready_for_worker");
    let r2 = rows.update(i, w);
    assert("queued"@.len() == 6);
    assert("ready_for_worker"@.len() == 16);
    assert(is_active(r2[i]));
    assert(!is_queued(r2[i]));
    assert forall|p: LoopPlan| loop_plan_ok(r2, p) implies !(p is CreateDiscovery) && (p matches LoopPlan::MarkReady { index } ==> index as int != i) by {
        let f = |x: WorkorderRow| is_active(x);
        assert(f(r2[i]));
    }
}

/// A loop step never creates discovery work while some workorder waits for
/// a worker, a handoff or the user (status `ready_for_worker`,
/// `handoff_ready` or `needs_user`); with nothing queued it reports such a
/// waiting workorder, one that no waiting workorder precedes.
pub proof fn law_waiting_work_blocks_discovery(rows: Seq<WorkorderRow>, p: LoopPlan, j: int)
    requires
        loop_plan_ok(rows, p),
        0 <= j < rows.len(),
        rows[j].status@ == "ready_for_worker"@ || rows[j].status@ == "handoff_ready"@
            || rows[j].status@ == "needs_user"@,
    ensures
        !(p is CreateDiscovery),
        (forall|k: int| 0 <= k < rows.len() ==> (#[trigger] rows[k]).status@ != "queued"@) ==> (
        p matches LoopPlan::ActiveExists { index } && 0 <= index < rows.len() && (
        rows[index as int].status@ == "ready_for_worker"@ || rows[index as int].status@
            == "handoff_ready"@ || rows[index as int].status@ == "needs_user"@) && !row_lt(
            rows[j],
            rows[index as int],
        )),
{
    let active = |w: WorkorderRow| is_active(w);
    let queued = |w: WorkorderRow| is_queued(w);
    assert(active(rows[j]));
    assert(some_row(rows, active));
    if forall|k: int| 0 <= k < rows.len() ==> (#[trigger] rows[k]).status@ != "queued"@ {
        match p {
            LoopPlan::MarkReady { index } => {
                assert(queued(rows[index as int]));
                assert(rows[index as int].status@ != "queued"@);
            },
            LoopPlan::ActiveExists { index } => {
                assert(active(rows[index as int]));
            },
            LoopPlan::CreateDiscovery => {},
        }
    }
}

/// What a loop step reports.
#[derive(Debug, Clone, Copy, PartialEq, Eq, Structural)]
pub enum LoopStatus {
    Planned,
    ReadyForWorker,
    ActiveWorkorderExists,
    CreatedWorkorder,
}

/// The status a loop step reports for a plan: a dry run only plans what it
/// would change.
pub open spec fn loop_status_spec(p: LoopPlan, dry_run: bool) -> LoopStatus {
    match p {
        LoopPlan::ActiveExists { .. } => LoopStatus::ActiveWorkorderExists,
        LoopPlan::MarkReady { .. } => if dry_run {
            LoopStatus::Planned
        } else {
            LoopStatus::ReadyForWorker
        },
        LoopPlan::CreateDiscovery => if dry_run {
            LoopStatus::Planned
        } else {
            LoopStatus::CreatedWorkorder
        },
    }
}

/// The status a loop step reports; see [`loop_status_spec`].
pub fn loop_status(p: LoopPlan, dry_run: bool) -> (s: LoopStatus)
    ensures
        s == loop_status_spec(p, dry_run),
{
    match p {
        LoopPlan::ActiveExists { .. } => LoopStatus::ActiveWorkorderExists,
        LoopPlan::MarkReady { .. } => if dry_run {
            LoopStatus::Planned
        } else {
            LoopStatus::ReadyForWorker
        },
        LoopPlan::CreateDiscovery => if dry_run {
            LoopStatus::Planned
        } else {
            LoopStatus::CreatedWorkorder
        },
    }
}

impl LoopStatus {
    /// The text of this status.
    pub fn as_str(&self) -> (r: &'static str)
        ensures
            r@ == loop_status_text(*self),
    {
        match self {
            LoopStatus::Planned => "planned",
            LoopStatus::ReadyForWorker => "ready_for_worker",
            LoopStatus::ActiveWorkorderExists => "active_workorder_exists",
            LoopStatus::CreatedWorkorder => "created_workorder",
        }
    }
}

pub open spec fn loop_status_text(s: LoopStatus) -> Seq<char> {
    match s {
        LoopStatus::Planned => "planned"@,
        LoopStatus::ReadyForWorker => "ready_for_worker"@,
        LoopStatus::ActiveWorkorderExists => "active_workorder_exists"@,
        LoopStatus::CreatedWorkorder => "created_workorder"@,
    }
}

/// The id of a discovery workorder created at `millis` milliseconds since
/// the epoch: `repo-maintainer-<millis>`.
pub fn discovery_workorder_id(millis: i64) -> (r: String)
    ensures
        r@ == "repo-maintainer-"@ + int_text(millis as int),
{
    let n = i64_text(millis);
    cat("repo-maintainer-", n.as_str())
}

/// Whether a heartbeat runs a second loop step: only when the first one,
/// outside a dry run, created a workorder, so that it is queued and then
/// marked ready in the same heartbeat.
pub fn needs_second_loop(dry_run: bool, first: LoopStatus) -> (r: bool)
    ensures
        r == (!dry_run && first == LoopStatus::CreatedWorkorder),
{
    !dry_run && first == LoopStatus::CreatedWorkorder
}

/// How a heartbeat acts on the next ready workorder.
#[derive(Debug, Clone, Copy, PartialEq, Eq, Structural)]
pub enum DispatchStep {
    /// Stop dispatching.
    Stop,
    /// Record what would be dispatched (dry run), then stop.
    Plan,
    /// Create a runner handoff package.
    Dispatch,
}

/// The heartbeat's dispatch rule for round `round` (counting from 0): at
/// most `max_dispatches` rounds, only while a ready workorder exists, and a
/// dry run plans a single dispatch.
pub open spec fn dispatch_step_spec(
    round: usize,
    max_dispatches: usize,
    dry_run: bool,
    planned_before: bool,
    ready_exists: bool,
) -> DispatchStep {
    if round >= max_dispatches || !ready_exists || (dry_run && planned_before) {
        DispatchStep::Stop
    } else if dry_run {
        DispatchStep::Plan
    } else {
        DispatchStep::Dispatch
    }
}

/// The heartbeat's dispatch decision; see [`dispatch_step_spec`].
pub fn dispatch_step(
    round: usize,
    max_dispatches: usize,
    dry_run: bool,
    planned_before: bool,
    ready_exists: bool,
) -> (s: DispatchStep)
    ensures
        s == dispatch_step_spec(round, max_dispatches, dry_run, planned_before, ready_exists),
{
    if round >= max_dispatches || !ready_exists || (dry_run && planned_before) {
        DispatchStep::Stop
    } else if dry_run {
        DispatchStep::Plan
    } else {
        DispatchStep::Dispatch
    }
}

/// A dry-run heartbeat never dispatches, and plans again only before its
/// first plan.
pub proof fn law_dry_run_never_dispatches(round: usize, max: usize, planned_before: bool, ready: bool)
    ensures
        dispatch_step_spec(round, max, true, planned_before, ready) != DispatchStep::Dispatch,
        planned_before ==> dispatch_step_spec(round, max, true, planned_before, ready)
            == DispatchStep::Stop,
{
}

/// What a heartbeat does before its loop step with the runner refresh and
/// the target pack.
#[derive(Debug, Clone, Copy, PartialEq, Eq, Structural)]
pub enum Upkeep {
    /// Only report that they would run (dry run).
    Planned,
    /// Refresh the runners and regenerate the target pack.
    Run,
}

pub open spec fn upkeep_spec(dry_run: bool) -> Upkeep {
    if dry_run {
        Upkeep::Planned
    } else {
        Upkeep::Run
    }
}

/// The heartbeat's upkeep decision; see [`upkeep_spec`].
pub fn heartbeat_upkeep(dry_run: bool) -> (u: Upkeep)
    ensures
        u == upkeep_spec(dry_run),
{
    if dry_run {
        Upkeep::Planned
    } else {
        Upkeep::Run
    }
}

/// Whether a loop step that reports `s` changed a workorder.
pub open spec fn loop_step_writes(s: LoopStatus) -> bool {
    s is ReadyForWorker || s is CreatedWorkorder
}

/// A dry-run heartbeat changes nothing: its upkeep is only planned, its
/// loop step writes nothing whatever the workorders are, no second loop
/// step follows, and no dispatch round creates a runner package.
pub proof fn law_dry_run_heartbeat_writes_nothing(
    p: LoopPlan,
    round: usize,
    max: usize,
    planned_before: bool,
    ready: bool,
)
    ensures
        upkeep_spec(true) == Upkeep::Planned,
        !loop_step_writes(loop_status_spec(p, true)),
        loop_status_spec(p, true) != LoopStatus::CreatedWorkorder,
        dispatch_step_spec(round, max, true, planned_before, ready) != DispatchStep::Dispatch,
{
}

/// Whether some round before round `i` planned or dispatched.
pub open spec fn acted_before(steps: Seq<DispatchStep>, i: int) -> bool {
    exists|j: int| 0 <= j < i && steps[j] != DispatchStep::Stop
}

/// Whether `steps` are a heartbeat's decisions for rounds 0, 1, ...: each
/// round follows [`dispatch_step_spec`], given whether a ready workorder
/// existed then (`ready[i]`) and whether an earlier round acted.
pub open spec fn follows_dispatch_rule(
    steps: Seq<DispatchStep>,
    ready: Seq<bool>,
    max: usize,
    dry_run: bool,
) -> bool {
    &&& steps.len() == ready.len()
    &&& steps.len() <= usize::MAX
    &&& forall|i: int|
        0 <= i < steps.len() ==> #[trigger] steps[i] == dispatch_step_spec(
            i as usize,
            max,
            dry_run,
            acted_before(steps, i),
            ready[i],
        )
}

/// How many of `steps` are `s`.
pub open spec fn count_steps(steps: Seq<DispatchStep>, s: DispatchStep) -> nat
    decreases steps.len(),
{
    if steps.len() == 0 {
        0
    } else {
        count_steps(steps.drop_last(), s) + if steps.last() == s {
            1nat
        } else {
            0nat
        }
    }
}

proof fn lemma_dispatch_bound_prefix(
    steps: Seq<DispatchStep>,
    ready: Seq<bool>,
    max: usize,
    dry_run: bool,
    k: int,
)
    requires
        follows_dispatch_rule(steps, ready, max, dry_run),
        0 <= k <= steps.len(),
    ensures
        count_steps(steps.take(k), DispatchStep::Dispatch) <= k,
        count_steps(steps.take(k), DispatchStep::Dispatch) <= max,
        dry_run ==> count_steps(steps.take(k), DispatchStep::Dispatch) == 0,
        dry_run ==> count_steps(steps.take(k), DispatchStep::Plan) <= 1,
        count_steps(steps.take(k), DispatchStep::Plan) > 0 ==> acted_before(steps, k),
    decreases k,
{
    if k > 0 {
        lemma_dispatch_bound_prefix(steps, ready, max, dry_run, k - 1);
        let t = steps.take(k);
        assert(t.drop_last() =~= steps.take(k - 1));
        assert(t.last() == steps[k - 1]);
        let step = steps[k - 1];
        assert(step == dispatch_step_spec(
            (k - 1) as usize,
            max,
            dry_run,
            acted_before(steps, k - 1),
            ready[k - 1],
        ));
        if count_steps(steps.take(k - 1), DispatchStep::Plan) > 0 {
            let j = choose|j: int| 0 <= j < k - 1 && steps[j] != DispatchStep::Stop;
            assert(0 <= j < k && steps[j] != DispatchStep::Stop);
        }
        if step == DispatchStep::Plan {
            assert(0 <= k - 1 < k && steps[k - 1] != DispatchStep::Stop);
            assert(!acted_before(steps, k - 1));
        }
    } else {
        assert(steps.take(0).len() == 0);
    }
}

/// A heartbeat's dispatch rounds dispatch at most `max_dispatches`
/// workorders, and a dry run dispatches none and plans at most one.
pub proof fn law_heartbeat_dispatch_bound(
    steps: Seq<DispatchStep>,
    ready: Seq<bool>,
    max: usize,
    dry_run: bool,
)
    requires
        follows_dispatch_rule(steps, ready, max, dry_run),
    ensures
        count_steps(steps, DispatchStep::Dispatch) <= max,
        dry_run ==> count_steps(steps, DispatchStep::Dispatch) == 0,
        dry_run ==> count_steps(steps, DispatchStep::Plan) <= 1,
{
    lemma_dispatch_bound_prefix(steps, ready, max, dry_run, steps.len() as int);
    assert(steps.take(steps.len() as int) =~= steps);
}

/// Why a heartbeat dispatched nothing.
#[derive(Debug, Clone, Copy, PartialEq, Eq, Structural)]
pub enum IdleReason {
    ActiveWorkorderExists,
    DryRunNoReadyWorkorders,
    NoReadyWorkorders,
}

impl IdleReason {
    pub fn as_str(&self) -> (r: &'static str)
        ensures
            r@ == idle_reason_text(*self),
    {
        match self {
            IdleReason::ActiveWorkorderExists => "active_workorder_exists",
            IdleReason::DryRunNoReadyWorkorders => "dry_run_no_ready_workorders",
            IdleReason::NoReadyWorkorders => "no_ready_workorders",
        }
    }
}

pub open spec fn idle_reason_text(r: IdleReason) -> Seq<char> {
    match r {
        IdleReason::ActiveWorkorderExists => "active_workorder_exists"@,
        IdleReason::DryRunNoReadyWorkorders => "dry_run_no_ready_workorders"@,
        IdleReason::NoReadyWorkorders => "no_ready_workorders"@,
    }
}

/// What a heartbeat says about dispatching.
#[derive(Debug, Clone, Copy, PartialEq, Eq, Structural)]
pub enum DispatchSummary {
    Idle { reason: IdleReason },
    Dispatched { count: usize },
}

/// The dispatch summary: with nothing dispatched the heartbeat is idle, for
/// the reason the last loop step gives; otherwise it counts the dispatches.
pub open spec fn dispatch_summary_spec(count: usize, last_loop: Option<LoopStatus>) -> DispatchSummary {
    if count == 0 {
        DispatchSummary::Idle {
            reason: match last_loop {
                Some(LoopStatus::ActiveWorkorderExists) => IdleReason::ActiveWorkorderExists,
                Some(LoopStatus::Planned) => IdleReason::DryRunNoReadyWorkorders,
                _ => IdleReason::NoReadyWorkorders,
            },
        }
    } else {
        DispatchSummary::Dispatched { count }
    }
}

/// The heartbeat's dispatch summary; see [`dispatch_summary_spec`].
pub fn dispatch_summary(count: usize, last_loop: Option<LoopStatus>) -> (s: DispatchSummary)
    ensures
        s == dispatch_summary_spec(count, last_loop),
{
    if count == 0 {
        let reason = match last_loop {
            Some(LoopStatus::ActiveWorkorderExists) => IdleReason::ActiveWorkorderExists,
            Some(LoopStatus::Planned) => IdleReason::DryRunNoReadyWorkorders,
            _ => IdleReason::NoReadyWorkorders,
        };
        DispatchSummary::Idle { reason }
    } else {
        DispatchSummary::Dispatched { count }
    }
}

/// A workorder about to be created.
#[derive(Debug)]
pub struct NewWorkorder {
    pub id: String,
    pub kind: String,
    pub title: String,
    pub status: WorkorderStatus,
}

/// Checks a new workorder: id, kind and title must not be blank (each is
/// trimmed, checked in that order) and the payload must be an object. New
/// workorders start queued.
pub fn new_workorder(id: &str, kind: &str, title: &str, payload: &Json) -> (r: Result<NewWorkorder, Error>)
    ensures
        r is Ok <==> trim(id@).len() > 0 && trim(kind@).len() > 0 && trim(title@).len() > 0
            && is_object(*payload),
        r matches Ok(w) ==> w.id@ == trim(id@) && w.kind@ == trim(kind@) && w.title@ == trim(
            title@,
        ) && w.status == WorkorderStatus::Queued,
        r matches Err(e) ==> if trim(id@).len() == 0 {
            e matches Error::Required { name } && name@ == "workorder id"@
        } else if trim(kind@).len() == 0 {
            e matches Error::Required { name } && name@ == "workorder kind"@
        } else if trim(title@).len() == 0 {
            e matches Error::Required { name } && name@ == "workorder title"@
        } else {
            e matches Error::WorkorderPayloadNotObject
        },
{
    let id = required(id, "workorder id")?;
    let kind = required(kind, "workorder kind")?;
    let title = required(title, "workorder title")?;
    if !payload.is_object() {
        return Err(Error::WorkorderPayloadNotObject);
    }
    Ok(NewWorkorder { id, kind, title, status: WorkorderStatus::Queued })
}

/// The workorder row that recording a result leaves: an existing workorder
/// keeps its id, target, kind, title and creation time and takes the
/// result's workorder status, the result payload and the update time; a
/// workorder that did not exist is created with kind `external_result` and
/// title `Result for <id>`, created and updated now.
pub open spec fn settled_row(
    existing: Option<WorkorderRow>,
    target_id: Seq<char>,
    workorder_id: Seq<char>,
    status: Seq<char>,
    payload_json: Seq<char>,
    now: Seq<char>,
    w: WorkorderRow,
) -> bool {
    &&& w.status@ == status
    &&& w.payload_json@ == payload_json
    &&& w.updated_at@ == now
    &&& match existing {
        Some(row) => {
            &&& w.id@ == row.id@
            &&& w.target_id@ == row.target_id@
            &&& w.kind@ == row.kind@
            &&& w.title@ == row.title@
            &&& w.created_at@ == row.created_at@
        },
        None => {
            &&& w.id@ == workorder_id
            &&& w.target_id@ == target_id
            &&& w.kind@ == "external_result"@
            &&& w.title@ == "Result for "@ + workorder_id
            &&& w.created_at@ == now
        },
    }
}

/// The workorder row after `sub` is recorded for `target_id`; `existing` is
/// the stored row of that workorder, if any. See [`settled_row`].
pub fn settle_workorder(
    existing: Option<&WorkorderRow>,
    target_id: &str,
    sub: &ResultSubmission,
    payload_json: &str,
    now: &str,
) -> (w: WorkorderRow)
    ensures
        settled_row(
            match existing {
                Some(row) => Some(*row),
                None => None,
            },
            target_id@,
            sub.workorder_id@,
            workorder_status_text(sub.workorder_status),
            payload_json@,
            now@,
            w,
        ),
{
    let status = owned(sub.workorder_status.as_str());
    match existing {
        Some(row) => WorkorderRow {
            id: row.id.clone(),
            target_id: row.target_id.clone(),
            kind: row.kind.clone(),
            status,
            title: row.title.clone(),
            payload_json: owned(payload_json),
            created_at: row.created_at.clone(),
            updated_at: owned(now),
        },
        None => WorkorderRow {
            id: sub.workorder_id.clone(),
            target_id: owned(target_id),
            kind: owned("external_result"),
            status,
            title: cat("Result for ", sub.workorder_id.as_str()),
            payload_json: owned(payload_json),
            created_at: owned(now),
            updated_at: owned(now),
        },
    }
}

/// The payload of a discovery workorder: created by the loop, in observe
/// mode, pointing at the target pack when one was written (`null`
/// otherwise), and nothing else.
pub open spec fn discovery_payload(p: Json, pack_path: Option<Seq<char>>) -> bool {
    match p {
        Json::Object(e) => {
            &&& e@.len() == 3
            &&& e@[0].0@ == "created_by"@
            &&& (e@[0].1 matches Json::Str(v) && v@ == "loop_run"@)
            &&& e@[1].0@ == "mode"@
            &&& (e@[1].1 matches Json::Str(v) && v@ == "observe"@)
            &&& e@[2].0@ == "target_pack_path"@
            &&& match pack_path {
                Some(path) => e@[2].1 matches Json::Str(v) && v@ == path,
                None => e@[2].1 is Null,
            }
        },
        _ => false,
    }
}

/// The workorder a loop step creates when nothing is queued or active:
/// id `id`, kind `repo_discovery`, title `Inspect target repository`,
/// queued, with the [`discovery_payload`].
pub fn discovery_workorder(id: &str, pack_path: Option<&str>) -> (r: (NewWorkorder, Json))
    ensures
        r.0.id@ == id@,
        r.0.kind@ == "repo_discovery"@,
        r.0.title@ == "Inspect target repository"@,
        r.0.status == WorkorderStatus::Queued,
        discovery_payload(
            r.1,
            match pack_path {
                Some(p) => Some(p@),
                None => None,
            },
        ),
{
    let pack = match pack_path {
        Some(p) => Json::Str(owned(p)),
        None => Json::Null,
    };
    let mut entries: Vec<(String, Json)> = Vec::new();
    entries.push((owned("created_by"), Json::Str(owned("loop_run"))));
    entries.push((owned("mode"), Json::Str(owned("observe"))));
    entries.push((owned("target_pack_path"), pack));
    let w = NewWorkorder {
        id: owned(id),
        kind: owned("repo_discovery"),
        title: owned("Inspect target repository"),
        status: WorkorderStatus::Queued,
    };
    (w, Json::Object(entries))
}

/// An approval about to be requested.
#[derive(Debug)]
pub struct ApprovalRequest {
    pub approval_id: String,
    pub reason: String,
}

/// Checks an approval request: the reason must not be blank; an explicit
/// approval id must not be blank either, and without one the id is
/// `approval-<workorder id>`. Requesting an approval hands the workorder to
/// the user.
pub fn new_approval(workorder_id: &str, approval_id: Option<&str>, reason: &str) -> (r: Result<
    ApprovalRequest,
    Error,
>)
    ensures
        r is Ok <==> trim(reason@).len() > 0 && (approval_id matches Some(a) ==> trim(a@).len()
            > 0),
        r matches Ok(req) ==> req.reason@ == trim(reason@) && req.approval_id@ == match approval_id {
            Some(a) => trim(a@),
            None => "approval-"@ + workorder_id@,
        },
        r matches Err(e) ==> if trim(reason@).len() == 0 {
            e matches Error::Required { name } && name@ == "approval reason"@
        } else {
            e matches Error::Required { name } && name@ == "approval id"@
        },
{
    let reason = required(reason, "approval reason")?;
    let approval_id = match approval_id {
        Some(a) => required(a, "approval id")?,
        None => cat("approval-", workorder_id),
    };
    Ok(ApprovalRequest { approval_id, reason })
}

/// The workorder status that an approval request sets.
pub fn approval_workorder_status() -> (s: WorkorderStatus)
    ensures
        s == WorkorderStatus::NeedsUser,
{
    WorkorderStatus::NeedsUser
}

/// A validated approval decision.
#[derive(Debug)]
pub struct ApprovalDecision {
    pub approved: bool,
    pub decided_by: String,
    pub message: String,
}

/// Checks an approval decision: the decision must be `approved` or
/// `rejected` (after trimming), then `decided_by` and the message must not
/// be blank.
pub fn approval_decision(decision: &str, decided_by: &str, message: &str) -> (r: Result<
    ApprovalDecision,
    Error,
>)
    ensures
        r is Ok <==> (trim(decision@) == "approved"@ || trim(decision@) == "rejected"@) && trim(
            decided_by@,
        ).len() > 0 && trim(message@).len() > 0,
        r matches Ok(d) ==> d.approved == (trim(decision@) == "approved"@) && d.decided_by@ == trim(
            decided_by@,
        ) && d.message@ == trim(message@),
        r matches Err(e) ==> if trim(decision@).len() == 0 {
            e matches Error::Required { name } && name@ == "approval decision"@
        } else if !(trim(decision@) == "approved"@ || trim(decision@) == "rejected"@) {
            e matches Error::ApprovalDecisionInvalid
        } else if trim(decided_by@).len() == 0 {
            e matches Error::Required { name } && name@ == "decided_by"@
        } else {
            e matches Error::Required { name } && name@ == "approval message"@
        },
{
    proof {
        reveal_strlit("approved");
        reveal_strlit("rejected");
    }
    let decision = required(decision, "approval decision")?;
    let approved = str_eq(decision.as_str(), "approved");
    let rejected = str_eq(decision.as_str(), "rejected");
    if !approved && !rejected {
        return Err(Error::ApprovalDecisionInvalid);
    }
    let decided_by = required(decided_by, "decided_by")?;
    let message = required(message, "approval message")?;
    Ok(ApprovalDecision { approved, decided_by, message })
}

impl ApprovalDecision {
    /// The decision's text.
    pub fn decision_text(&self) -> (r: &'static str)
        ensures
            r@ == if self.approved {
                "approved"@
            } else {
                "rejected"@
            },
    {
        if self.approved {
            "approved"
        } else {
            "rejected"
        }
    }
}

/// What refreshing one runner package does.
#[derive(Debug, Clone, Copy, PartialEq, Eq, Structural)]
pub enum RefreshPlan {
    /// A result is recorded for the workorder; update the runner to
    /// `completed_from_result` unless it already is.
    CompletedFromResult { update: bool },
    /// Submit the package's `result.json` and complete the runner.
    IngestResultFile,
    /// Nothing to do; the runner keeps its status.
    Unchanged,
}

/// The refresh rule: a recorded result completes the runner; otherwise a
/// result file whose `workorder_id` names the runner's workorder is
/// ingested; otherwise nothing changes.
pub open spec fn refresh_plan_spec(
    runner_status: Seq<char>,
    result_count: i64,
    result_file: Option<Json>,
    workorder_id: Seq<char>,
) -> RefreshPlan {
    if result_count > 0 {
        RefreshPlan::CompletedFromResult { update: runner_status != "completed_from_result"@ }
    } else if result_file is Some && as_text(field(result_file->0, "workorder_id"@)) == Some(
        workorder_id,
    ) {
        RefreshPlan::IngestResultFile
    } else {
        RefreshPlan::Unchanged
    }
}

/// Decides how to refresh a runner package; see [`refresh_plan_spec`].
/// `result_file` is the package's `result.json` when it exists and parses.
pub fn plan_runner_refresh(
    runner_status: &str,
    result_count: i64,
    result_file: Option<&Json>,
    workorder_id: &str,
) -> (p: RefreshPlan)
    ensures
        p == refresh_plan_spec(
            runner_status@,
            result_count,
            match result_file {
                Some(j) => Some(*j),
                None => None,
            },
            workorder_id@,
        ),
{
    if result_count > 0 {
        return RefreshPlan::CompletedFromResult {
            update: !str_eq(runner_status, "completed_from_result"),
        };
    }
    match result_file {
        Some(j) => match j.str_field("workorder_id") {
            Some(w) => if str_eq(w, workorder_id) {
                RefreshPlan::IngestResultFile
            } else {
                RefreshPlan::Unchanged
            },
            None => RefreshPlan::Unchanged,
        },
        None => RefreshPlan::Unchanged,
    }
}

/// Refreshing is settled once a result is recorded: a runner already marked
/// `completed_from_result` whose workorder has a result needs no update.
pub proof fn law_refresh_idempotent(result_count: i64, result_file: Option<Json>, workorder_id: Seq<char>)
    requires
        result_count > 0,
    ensures
        refresh_plan_spec("completed_from_result"@, result_count, result_file, workorder_id)
            == (RefreshPlan::CompletedFromResult { update: false }),
{
}

/// What a refresh under plan `p` leaves for the runner: its status and the
/// number of results recorded for its workorder.
pub open spec fn refresh_effect(p: RefreshPlan, runner_status: Seq<char>, result_count: int) -> (
    Seq<char>,
    int,
) {
    match p {
        RefreshPlan::CompletedFromResult { update } => (
            if update {
                "completed_from_result"@
            } else {
                runner_status
            },
            result_count,
        ),
        RefreshPlan::IngestResultFile => ("completed_from_result"@, result_count + 1),
        RefreshPlan::Unchanged => (runner_status, result_count),
    }
}

/// Whether a refresh under plan `p` writes anything.
pub open spec fn refresh_writes(p: RefreshPlan) -> bool {
    p == (RefreshPlan::CompletedFromResult { update: true }) || p is IngestResultFile
}

/// A second refresh with nothing new since the first writes nothing and
/// reports the status the first one left: a package `result.json` is never
/// ingested twice and a completed runner is not completed again.
pub proof fn law_second_refresh_writes_nothing(
    runner_status: Seq<char>,
    result_count: i64,
    result_file: Option<Json>,
    workorder_id: Seq<char>,
)
    requires
        0 <= result_count < i64::MAX,
    ensures
        ({
            let p1 = refresh_plan_spec(runner_status, result_count, result_file, workorder_id);
            let after = refresh_effect(p1, runner_status, result_count as int);
            let p2 = refresh_plan_spec(after.0, after.1 as i64, result_file, workorder_id);
            &&& !refresh_writes(p2)
            &&& refresh_effect(p2, after.0, after.1) == after
        }),
{
    reveal_strlit("completed_from_result");
}

} // verus!
