use codex_automation::prompt::{
    handoff_text, instruction_block, refresh_command, repository_state_block, result_submit_prefix,
    runner_package_paths, runner_prompt, target_pack_instructions, target_pack_paths, PromptInputs,
};

#[test]
fn instruction_blocks() {
    assert_eq!(
        instruction_block("Worker", "  "),
        "### Worker\n\nNo custom instructions configured.\n"
    );
    assert_eq!(instruction_block("Worker", " Be brief. "), "### Worker\n\nBe brief.\n");
}

#[test]
fn result_and_refresh_commands() {
    assert_eq!(
        result_submit_prefix("/bin/codex-automation", "demo", "wo-2"),
        "/bin/codex-automation result submit demo --workorder-id wo-2"
    );
    assert_eq!(refresh_command("ca", "demo"), "ca runner refresh demo --json");
}

#[test]
fn repository_state_variants() {
    assert_eq!(
        repository_state_block(None, None),
        "Target pack: not recorded on this workorder.\n"
    );
    assert_eq!(
        repository_state_block(Some("/p.json"), Some("{}")),
        "Target pack: /p.json\nGit state from target pack:\n```json\n{}\n```"
    );
    assert!(repository_state_block(Some("/p.json"), None)
        .ends_with("Git state: unavailable; inspect the target checkout before assuming it is clean."));
}

fn inputs(sandbox: Option<&str>, kind: &str) -> PromptInputs {
    PromptInputs {
        binary_path: "codex-automation".to_string(),
        target_id: "demo".to_string(),
        workorder_id: "wo-2".to_string(),
        repo_path: "/repo".to_string(),
        working_directory: "/state/worktrees/demo".to_string(),
        workorder_kind: kind.to_string(),
        workorder_title: "Inspect target".to_string(),
        worker_name: Some("Repo Maintainer".to_string()),
        worker_id: Some("repo-maintainer".to_string()),
        sandbox: sandbox.map(|s| s.to_string()),
        worker_block: "{\"id\": \"repo-maintainer\"}".to_string(),
        workorder_block: "{\"id\": \"wo-2\"}".to_string(),
        control_plane_instructions: "Keep orchestration simple.".to_string(),
        target_instructions: String::new(),
        worker_instructions: "Read the shared worktree first.".to_string(),
        repository_state: "Target pack: not recorded on this workorder.\n".to_string(),
    }
}

#[test]
fn runner_prompt_contents() {
    let prompt = runner_prompt(&inputs(Some("workspace-write"), "bug_fix"));
    assert!(prompt.starts_with("# Codex Automation Worker Handoff\n\n"));
    assert!(prompt.contains("- Worker: Repo Maintainer (repo-maintainer)\n"));
    assert!(prompt.contains("- Repository path: /repo\n- Working directory: /state/worktrees/demo\n"));
    assert!(prompt.contains("## Custom Instructions"));
    assert!(prompt.contains("### Control Plane (`workers/control-plane.toml`)\n\nKeep orchestration simple.\n"));
    assert!(prompt.contains("### Target (`targets/<target-id>.toml`)\n\nNo custom instructions configured.\n"));
    assert!(prompt.contains("Read the shared worktree first"));
    assert!(prompt.contains("codex-automation result submit demo --workorder-id wo-2 --status fixed"));
    assert!(prompt.ends_with("```json\n{\"id\": \"wo-2\"}\n```\n"));
    let discovery = runner_prompt(&inputs(Some("workspace-write"), "repo_discovery"));
    assert!(discovery.contains("--status discovery_no_findings"));
    assert!(!discovery.contains("--status fixed"));
    let read_only = runner_prompt(&inputs(Some("read-only"), "bug_fix"));
    assert!(read_only.contains("--status discovery_findings"));
    let mut unassigned = inputs(None, "bug_fix");
    unassigned.worker_name = None;
    unassigned.worker_id = None;
    let text = runner_prompt(&unassigned);
    assert!(text.contains("- Worker: Unassigned worker (unassigned)\n"));
    assert!(text.contains("--status safe_fix_candidate"));
}

#[test]
fn handoff_note_and_pack_text() {
    let note = handoff_text("/pkg/prompt.md", "ca result submit demo --workorder-id wo-2", "/pkg/result.json", "ca runner refresh demo --json");
    assert!(note.starts_with("# Codex Automation Handoff\n"));
    assert!(note.contains("`/pkg/prompt.md`"));
    assert!(note.contains("ca result submit demo --workorder-id wo-2 --status <status> --summary \"...\" --next-action <action> --json"));
    assert!(note.ends_with("```bash\nca runner refresh demo --json\n```\n"));
    let instructions = target_pack_instructions("demo", "2024-01-01T00:00:00+00:00");
    assert!(instructions.starts_with("# Target Pack: demo\n\nGenerated at: 2024-01-01T00:00:00+00:00\n\n"));
    assert!(instructions.ends_with("runner final JSON.\n"));
}

#[test]
fn package_and_pack_paths() {
    let p = runner_package_paths("/state/artifacts", "demo", 12);
    assert_eq!(p.root, "/state/artifacts/runners/demo/12");
    assert_eq!(p.prompt, "/state/artifacts/runners/demo/12/prompt.md");
    assert_eq!(p.handoff, "/state/artifacts/runners/demo/12/handoff.md");
    assert_eq!(p.command, "/state/artifacts/runners/demo/12/command.json");
    assert_eq!(p.result, "/state/artifacts/runners/demo/12/result.json");
    let t = target_pack_paths("/state/artifacts", "demo");
    assert_eq!(t.pack, "/state/artifacts/targets/demo/target-pack.json");
    assert_eq!(t.instructions, "/state/artifacts/targets/demo/instructions.md");
}
