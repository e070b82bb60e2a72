//! The texts of a runner handoff: the worker prompt, its instruction and
//! repository-state blocks, the result commands, the handoff note, and the
//! paths of a runner package and a target pack.
use vstd::prelude::*;
use crate::app_dirs::{join, path_join};
use crate::lines::{join_lines, views, Lines};
use crate::text::{cat, cat3, chars_of, contains_exec, contains_seq, push_char, str_eq, trim, trim_str, u64_text, nat_text, owned};

verus! {

broadcast use vstd::string::group_string_axioms;

/// The heading and body of one custom-instructions block.
pub open spec fn instruction_block_spec(label: Seq<char>, text: Seq<char>) -> Seq<char> {
    if trim(text).len() == 0 {
        "### "@ + label + "\n\nNo custom instructions configured.\n"@
    } else {
        "### "@ + label + "\n\n"@ + trim(text) + "\n"@
    }
}

/// One custom-instructions block; blank instructions say that none are
/// configured.
pub fn instruction_block(label: &str, text: &str) -> (r: String)
    ensures
        r@ == instruction_block_spec(label@, text@),
{
    let t = trim_str(text);
    let mut r = cat("### ", label);
    if t.as_str().unicode_len() == 0 {
        r.append("\n\nNo custom instructions configured.\n");
    } else {
        r.append("\n\n");
        r.append(t.as_str());
        r.append("\n");
    }
    r
}

/// The command that records a result for a workorder, without its options.
pub open spec fn result_submit_prefix_spec(binary: Seq<char>, target_id: Seq<char>, workorder_id: Seq<char>) -> Seq<char> {
    binary + " result submit "@ + target_id + " --workorder-id "@ + workorder_id
}

/// `<binary> result submit <target> --workorder-id <workorder>`.
pub fn result_submit_prefix(binary: &str, target_id: &str, workorder_id: &str) -> (r: String)
    ensures
        r@ == result_submit_prefix_spec(binary@, target_id@, workorder_id@),
{
    let mut r = cat(binary, " result submit ");
    r.append(target_id);
    r.append(" --workorder-id ");
    r.append(workorder_id);
    r
}

/// `<binary> runner refresh <target> --json`.
pub fn refresh_command(binary: &str, target_id: &str) -> (r: String)
    ensures
        r@ == binary@ + " runner refresh "@ + target_id@ + " --json"@,
{
    let mut r = cat(binary, " runner refresh ");
    r.append(target_id);
    r.append(" --json");
    r
}

/// The repository-state block of a prompt: where the target pack is and the
/// Git state recorded in it.
pub open spec fn repository_state_spec(pack_path: Option<Seq<char>>, git_json: Option<Seq<char>>) -> Seq<char> {
    match pack_path {
        None => "Target pack: not recorded on this workorder.\n"@,
        Some(p) => match git_json {
            Some(g) => join_lines(seq!["Target pack: "@ + p, "Git state from target pack:"@, "```json"@, g, "```"@]),
            None => join_lines(seq!["Target pack: "@ + p, "Git state: unavailable; inspect the target checkout before assuming it is clean."@]),
        },
    }
}

/// The repository-state block; `git_json` is the pack's `git` entry, when
/// the pack could be read and has one.
pub fn repository_state_block(pack_path: Option<&str>, git_json: Option<&str>) -> (r: String)
    ensures
        r@ == repository_state_spec(
            match pack_path { Some(p) => Some(p@), None => None },
            match git_json { Some(g) => Some(g@), None => None },
        ),
{
    match pack_path {
        None => owned("Target pack: not recorded on this workorder.\n"),
        Some(p) => {
            let mut l = Lines::new();
            l.add(cat("Target pack: ", p));
            match git_json {
                Some(g) => {
                    l.add_str("Git state from target pack:");
                    l.add_str("```json");
                    l.add_str(g);
                    l.add_str("```");
                    proof {
                        assert(views(l.items@) =~= seq!["Target pack: "@ + p@, "Git state from target pack:"@, "```json"@, g@, "```"@]);
                    }
                },
                None => {
                    l.add_str("Git state: unavailable; inspect the target checkout before assuming it is clean.");
                    proof {
                        assert(views(l.items@) =~= seq!["Target pack: "@ + p@, "Git state: unavailable; inspect the target checkout before assuming it is clean."@]);
                    }
                },
            }
            l.joined()
        },
    }
}

/// Whether a worker gets the discovery result examples: read-only workers
/// and discovery workorders report findings rather than fixes.
pub open spec fn uses_discovery_examples(sandbox: Seq<char>, kind: Seq<char>) -> bool {
    sandbox == "read-only"@ || contains_seq(kind, "discovery"@)
}

/// The lines of the result commands suggested for discovery work.
pub open spec fn discovery_examples_lines(cmd: Seq<char>) -> Seq<Seq<char>> {
    seq![
        cmd + " --status discovery_no_findings --summary \"...\" --next-action no_action --json"@,
        cmd + " --status discovery_findings --summary \"...\" --next-action create_followup_workorder --json"@,
        cmd + " --status needs_more_investigation --summary \"...\" --next-action create_followup_workorder --json"@,
        cmd + " --status blocked --summary \"...\" --next-action needs_user --json"@,
    ]
}

/// The result commands suggested for discovery work.
pub fn discovery_examples(cmd: &str) -> (r: String)
    ensures
        r@ == join_lines(discovery_examples_lines(cmd@)),
{
    let mut l = Lines::new();
    l.add(cat(cmd, " --status discovery_no_findings --summary \"...\" --next-action no_action --json"));
    l.add(cat(cmd, " --status discovery_findings --summary \"...\" --next-action create_followup_workorder --json"));
    l.add(cat(cmd, " --status needs_more_investigation --summary \"...\" --next-action create_followup_workorder --json"));
    l.add(cat(cmd, " --status blocked --summary \"...\" --next-action needs_user --json"));
    proof {
        assert(views(l.items@) =~= discovery_examples_lines(cmd@));
    }
    l.joined()
}

/// The lines of the result commands suggested for fix work.
pub open spec fn fix_examples_lines(cmd: Seq<char>) -> Seq<Seq<char>> {
    seq![
        cmd + " --status fixed --summary \"...\" --next-action no_action --json"@,
        cmd + " --status safe_fix_candidate --summary \"...\" --next-action needs_user --json"@,
        cmd + " --status tests_passed --summary \"...\" --next-action no_action --json"@,
        cmd + " --status blocked --summary \"...\" --next-action needs_user --json"@,
    ]
}

/// The result commands suggested for fix work.
pub fn fix_examples(cmd: &str) -> (r: String)
    ensures
        r@ == join_lines(fix_examples_lines(cmd@)),
{
    let mut l = Lines::new();
    l.add(cat(cmd, " --status fixed --summary \"...\" --next-action no_action --json"));
    l.add(cat(cmd, " --status safe_fix_candidate --summary \"...\" --next-action needs_user --json"));
    l.add(cat(cmd, " --status tests_passed --summary \"...\" --next-action no_action --json"));
    l.add(cat(cmd, " --status blocked --summary \"...\" --next-action needs_user --json"));
    proof {
        assert(views(l.items@) =~= fix_examples_lines(cmd@));
    }
    l.joined()
}

/// What a runner prompt is made from.
#[derive(Debug)]
pub struct PromptInputs {
    pub binary_path: String,
    pub target_id: String,
    pub workorder_id: String,
    pub repo_path: String,
    /// Where the worker works: the target's shared worktree.
    pub working_directory: String,
    pub workorder_kind: String,
    pub workorder_title: String,
    /// The assigned worker's name, id and sandbox, when a worker is assigned
    /// and has them.
    pub worker_name: Option<String>,
    pub worker_id: Option<String>,
    pub sandbox: Option<String>,
    /// The worker definition and the workorder as pretty-printed JSON.
    pub worker_block: String,
    pub workorder_block: String,
    pub control_plane_instructions: String,
    pub target_instructions: String,
    pub worker_instructions: String,
    pub repository_state: String,
}

pub open spec fn or_default(o: Option<String>, d: Seq<char>) -> Seq<char> {
    match o {
        Some(s) => s@,
        None => d,
    }
}

fn text_or(o: &Option<String>, d: &str) -> (r: String)
    ensures
        r@ == or_default(*o, d@),
{
    match o {
        Some(s) => s.clone(),
        None => owned(d),
    }
}

/// The result examples for a prompt.
pub open spec fn result_examples_spec(i: PromptInputs) -> Seq<char> {
    let cmd = result_submit_prefix_spec(i.binary_path@, i.target_id@, i.workorder_id@);
    if uses_discovery_examples(or_default(i.sandbox, "unknown"@), i.workorder_kind@) {
        join_lines(discovery_examples_lines(cmd))
    } else {
        join_lines(fix_examples_lines(cmd))
    }
}

fn result_examples(i: &PromptInputs) -> (r: String)
    ensures
        r@ == result_examples_spec(*i),
{
    let cmd = result_submit_prefix(i.binary_path.as_str(), i.target_id.as_str(), i.workorder_id.as_str());
    let sandbox = text_or(&i.sandbox, "unknown");
    let kind = chars_of(i.workorder_kind.as_str());
    if str_eq(sandbox.as_str(), "read-only") || contains_exec(&kind, &chars_of("discovery")) {
        discovery_examples(cmd.as_str())
    } else {
        fix_examples(cmd.as_str())
    }
}

/// The lines of the worker prompt of a runner handoff.
pub open spec fn runner_prompt_lines(i: PromptInputs) -> Seq<Seq<char>> {
    seq![
        "# Codex Automation Worker Handoff"@,
        ""@,
        "You are acting as a Codex automation worker from a Codex App handoff."@,
        ""@,
        "## Assignment"@,
        ""@,
        "- Target: "@ + i.target_id@,
        "- Repository path: "@ + i.repo_path@,
        "- Working directory: "@ + i.working_directory@,
        "- Workorder: "@ + i.workorder_id@,
        "- Workorder kind: "@ + i.workorder_kind@,
        "- Workorder title: "@ + i.workorder_title@,
        "- Worker: "@ + or_default(i.worker_name, "Unassigned worker"@) + " ("@ + or_default(i.worker_id, "unassigned"@) + ")"@,
        ""@,
        "## Repository State"@,
        ""@,
        i.repository_state@,
        ""@,
        "## Operating Boundaries"@,
        ""@,
        "- Obey the target repository instructions, including AGENTS.md files."@,
        "- Do not specify model or model_reasoning_effort in Codex calls."@,
        "- Do not push, deploy, delete data, or start long-running services unless the workorder explicitly grants that authority."@,
        "- Respect the worker sandbox, approval policy, autonomy profile, and instructions below."@,
        "- Record completion through the codex-automation CLI when available. Do not edit SQLite or app-state files by hand."@,
        ""@,
        "## Custom Instructions"@,
        ""@,
        "Apply these custom instructions in order after system/developer instructions and"@,
        "target repository AGENTS.md files."@,
        ""@,
        instruction_block_spec("Control Plane (`workers/control-plane.toml`)"@, i.control_plane_instructions@),
        instruction_block_spec("Target (`targets/<target-id>.toml`)"@, i.target_instructions@),
        instruction_block_spec("Worker (`workers/<worker-id>.toml`)"@, i.worker_instructions@),
        ""@,
        "## Required Result Contract"@,
        ""@,
        "When finished, prefer running one of these forms:"@,
        ""@,
        "```bash"@,
        result_examples_spec(i),
        "```"@,
        ""@,
        "If the CLI submission is unavailable, make your final response exactly one JSON"@,
        "object with these fields: `workorder_id`, `status`, `summary`, and"@,
        "`next_action`. The controller can save that object to the package `result.json`"@,
        "and ingest it with the runner refresh command from `handoff.md`."@,
        ""@,
        "## Worker Definition"@,
        ""@,
        "```json"@,
        i.worker_block@,
        "```"@,
        ""@,
        "## Workorder"@,
        ""@,
        "```json"@,
        i.workorder_block@,
        "```"@,
    ]
}

/// A runner prompt names its whole assignment, each item on a labelled
/// line of its own: the target, the repository path, the working
/// directory, the workorder, its kind and its title, for every input. It
/// also carries each custom instruction text under the heading of the file
/// it comes from.
pub proof fn law_prompt_names_assignment(i: PromptInputs)
    ensures
        runner_prompt_lines(i).contains("- Target: "@ + i.target_id@),
        runner_prompt_lines(i).contains("- Repository path: "@ + i.repo_path@),
        runner_prompt_lines(i).contains("- Working directory: "@ + i.working_directory@),
        runner_prompt_lines(i).contains("- Workorder: "@ + i.workorder_id@),
        runner_prompt_lines(i).contains("- Workorder kind: "@ + i.workorder_kind@),
        runner_prompt_lines(i).contains("- Workorder title: "@ + i.workorder_title@),
        runner_prompt_lines(i).contains(
            instruction_block_spec(
                "Control Plane (`workers/control-plane.toml`)"@,
                i.control_plane_instructions@,
            ),
        ),
        runner_prompt_lines(i).contains(
            instruction_block_spec("Target (`targets/<target-id>.toml`)"@, i.target_instructions@),
        ),
        runner_prompt_lines(i).contains(
            instruction_block_spec("Worker (`workers/<worker-id>.toml`)"@, i.worker_instructions@),
        ),
{
    let l = runner_prompt_lines(i);
    assert(l[6] == "- Target: "@ + i.target_id@);
    assert(l[7] == "- Repository path: "@ + i.repo_path@);
    assert(l[8] == "- Working directory: "@ + i.working_directory@);
    assert(l[9] == "- Workorder: "@ + i.workorder_id@);
    assert(l[10] == "- Workorder kind: "@ + i.workorder_kind@);
    assert(l[11] == "- Workorder title: "@ + i.workorder_title@);
    assert(l[31] == instruction_block_spec(
        "Control Plane (`workers/control-plane.toml`)"@,
        i.control_plane_instructions@,
    ));
    assert(l[32] == instruction_block_spec(
        "Target (`targets/<target-id>.toml`)"@,
        i.target_instructions@,
    ));
    assert(l[33] == instruction_block_spec(
        "Worker (`workers/<worker-id>.toml`)"@,
        i.worker_instructions@,
    ));
}

/// The worker prompt of a runner handoff.
#[verifier::rlimit(80)]
pub fn runner_prompt(i: &PromptInputs) -> (r: String)
    ensures
        r@ == join_lines(runner_prompt_lines(*i)) + seq!['\n'],
{
    let mut l = Lines::new();
    l.add_str("# Codex Automation Worker Handoff");
    l.add_str("");
    l.add_str("You are acting as a Codex automation worker from a Codex App handoff.");
    l.add_str("");
    l.add_str("## Assignment");
    l.add_str("");
    l.add(cat("- Target: ", i.target_id.as_str()));
    l.add(cat("- Repository path: ", i.repo_path.as_str()));
    l.add(cat("- Working directory: ", i.working_directory.as_str()));
    l.add(cat("- Workorder: ", i.workorder_id.as_str()));
    l.add(cat("- Workorder kind: ", i.workorder_kind.as_str()));
    l.add(cat("- Workorder title: ", i.workorder_title.as_str()));
    let mut w = cat("- Worker: ", text_or(&i.worker_name, "Unassigned worker").as_str());
    w.append(" (");
    w.append(text_or(&i.worker_id, "unassigned").as_str());
    w.append(")");
    l.add(w);
    l.add_str("");
    l.add_str("## Repository State");
    l.add_str("");
    l.add_str(i.repository_state.as_str());
    l.add_str("");
    l.add_str("## Operating Boundaries");
    l.add_str("");
    l.add_str("- Obey the target repository instructions, including AGENTS.md files.");
    l.add_str("- Do not specify model or model_reasoning_effort in Codex calls.");
    l.add_str("- Do not push, deploy, delete data, or start long-running services unless the workorder explicitly grants that authority.");
    l.add_str("- Respect the worker sandbox, approval policy, autonomy profile, and instructions below.");
    l.add_str("- Record completion through the codex-automation CLI when available. Do not edit SQLite or app-state files by hand.");
    l.add_str("");
    l.add_str("## Custom Instructions");
    l.add_str("");
    l.add_str("Apply these custom instructions in order after system/developer instructions and");
    l.add_str("target repository AGENTS.md files.");
    l.add_str("");
    l.add(instruction_block("Control Plane (`workers/control-plane.toml`)", i.control_plane_instructions.as_str()));
    l.add(instruction_block("Target (`targets/<target-id>.toml`)", i.target_instructions.as_str()));
    l.add(instruction_block("Worker (`workers/<worker-id>.toml`)", i.worker_instructions.as_str()));
    l.add_str("");
    l.add_str("## Required Result Contract");
    l.add_str("");
    l.add_str("When finished, prefer running one of these forms:");
    l.add_str("");
    l.add_str("```bash");
    l.add(result_examples(i));
    l.add_str("```");
    l.add_str("");
    l.add_str("If the CLI submission is unavailable, make your final response exactly one JSON");
    l.add_str("object with these fields: `workorder_id`, `status`, `summary`, and");
    l.add_str("`next_action`. The controller can save that object to the package `result.json`");
    l.add_str("and ingest it with the runner refresh command from `handoff.md`.");
    l.add_str("");
    l.add_str("## Worker Definition");
    l.add_str("");
    l.add_str("```json");
    l.add_str(i.worker_block.as_str());
    l.add_str("```");
    l.add_str("");
    l.add_str("## Workorder");
    l.add_str("");
    l.add_str("```json");
    l.add_str(i.workorder_block.as_str());
    l.add_str("```");
    proof {
        assert(views(l.items@) =~= runner_prompt_lines(*i));
    }
    let mut r = l.joined();
    push_char(&mut r, '\n');
    r
}

/// The lines of `handoff.md`, the note that tells an operator how to run the worker and return its result.
pub open spec fn handoff_text_lines(prompt_path: Seq<char>, result_command: Seq<char>, result_path: Seq<char>, refresh_command: Seq<char>) -> Seq<Seq<char>> {
    seq![
        "# Codex Automation Handoff"@,
        ""@,
        "Open the target repository in Codex App and give the worker the contents of:"@,
        ""@,
        "`"@ + prompt_path + "`"@,
        ""@,
        "When the worker finishes, record the result with:"@,
        ""@,
        "```bash"@,
        result_command + " --status <status> --summary \"...\" --next-action <action> --json"@,
        "```"@,
        ""@,
        "If the worker returns a final JSON object instead, save that object to:"@,
        ""@,
        "`"@ + result_path + "`"@,
        ""@,
        "Then run:"@,
        ""@,
        "```bash"@,
        refresh_command,
        "```"@,
    ]
}

/// `handoff.md`, the note that tells an operator how to run the worker and return its result.
pub fn handoff_text(prompt_path: &str, result_command: &str, result_path: &str, refresh_command: &str) -> (r: String)
    ensures
        r@ == join_lines(handoff_text_lines(prompt_path@, result_command@, result_path@, refresh_command@)) + seq!['\n'],
{
    let mut l = Lines::new();
    l.add_str("# Codex Automation Handoff");
    l.add_str("");
    l.add_str("Open the target repository in Codex App and give the worker the contents of:");
    l.add_str("");
    l.add(cat3("`", prompt_path, "`"));
    l.add_str("");
    l.add_str("When the worker finishes, record the result with:");
    l.add_str("");
    l.add_str("```bash");
    l.add(cat(result_command, " --status <status> --summary \"...\" --next-action <action> --json"));
    l.add_str("```");
    l.add_str("");
    l.add_str("If the worker returns a final JSON object instead, save that object to:");
    l.add_str("");
    l.add(cat3("`", result_path, "`"));
    l.add_str("");
    l.add_str("Then run:");
    l.add_str("");
    l.add_str("```bash");
    l.add_str(refresh_command);
    l.add_str("```");
    proof {
        assert(views(l.items@) =~= handoff_text_lines(prompt_path@, result_command@, result_path@, refresh_command@));
    }
    let mut r = l.joined();
    push_char(&mut r, '\n');
    r
}

/// The lines of `instructions.md` of a target pack.
pub open spec fn target_pack_instructions_lines(target_id: Seq<char>, generated_at: Seq<char>) -> Seq<Seq<char>> {
    seq![
        "# Target Pack: "@ + target_id,
        ""@,
        "Generated at: "@ + generated_at,
        ""@,
        "Use this pack as repository context for workorder generation. Prefer read-only discovery before edits. Record results through `codex-automation result submit` or runner final JSON."@,
    ]
}

/// `instructions.md` of a target pack.
pub fn target_pack_instructions(target_id: &str, generated_at: &str) -> (r: String)
    ensures
        r@ == join_lines(target_pack_instructions_lines(target_id@, generated_at@)) + seq!['\n'],
{
    let mut l = Lines::new();
    l.add(cat("# Target Pack: ", target_id));
    l.add_str("");
    l.add(cat("Generated at: ", generated_at));
    l.add_str("");
    l.add_str("Use this pack as repository context for workorder generation. Prefer read-only discovery before edits. Record results through `codex-automation result submit` or runner final JSON.");
    proof {
        assert(views(l.items@) =~= target_pack_instructions_lines(target_id@, generated_at@));
    }
    let mut r = l.joined();
    push_char(&mut r, '\n');
    r
}

/// The files of a runner package.
#[derive(Debug)]
pub struct RunnerPackagePaths {
    pub root: String,
    pub prompt: String,
    pub handoff: String,
    pub command: String,
    pub result: String,
}

/// A runner package lives at `<artifacts>/runners/<target>/<runner id>`.
pub open spec fn runner_package_spec(artifacts: Seq<char>, target_segment: Seq<char>, runner_id: nat, p: RunnerPackagePaths) -> bool {
    let root = path_join(path_join(path_join(artifacts, "runners"@), target_segment), nat_text(runner_id));
    &&& p.root@ == root
    &&& p.prompt@ == path_join(root, "prompt.md"@)
    &&& p.handoff@ == path_join(root, "handoff.md"@)
    &&& p.command@ == path_join(root, "command.json"@)
    &&& p.result@ == path_join(root, "result.json"@)
}

/// The paths of runner package `runner_id` of a target.
pub fn runner_package_paths(artifacts: &str, target_segment: &str, runner_id: u64) -> (p: RunnerPackagePaths)
    ensures
        runner_package_spec(artifacts@, target_segment@, runner_id as nat, p),
{
    let a = join(artifacts, "runners");
    let b = join(a.as_str(), target_segment);
    let root = join(b.as_str(), u64_text(runner_id).as_str());
    RunnerPackagePaths {
        prompt: join(root.as_str(), "prompt.md"),
        handoff: join(root.as_str(), "handoff.md"),
        command: join(root.as_str(), "command.json"),
        result: join(root.as_str(), "result.json"),
        root,
    }
}

/// The files of a target pack.
#[derive(Debug)]
pub struct TargetPackPaths {
    pub root: String,
    pub pack: String,
    pub instructions: String,
}

/// A target pack lives at `<artifacts>/targets/<target>`.
pub open spec fn target_pack_spec(artifacts: Seq<char>, target_segment: Seq<char>, p: TargetPackPaths) -> bool {
    let root = path_join(path_join(artifacts, "targets"@), target_segment);
    &&& p.root@ == root
    &&& p.pack@ == path_join(root, "target-pack.json"@)
    &&& p.instructions@ == path_join(root, "instructions.md"@)
}

/// The paths of a target's pack.
pub fn target_pack_paths(artifacts: &str, target_segment: &str) -> (p: TargetPackPaths)
    ensures
        target_pack_spec(artifacts@, target_segment@, p),
{
    let a = join(artifacts, "targets");
    let root = join(a.as_str(), target_segment);
    TargetPackPaths {
        pack: join(root.as_str(), "target-pack.json"),
        instructions: join(root.as_str(), "instructions.md"),
        root,
    }
}

} // verus!
