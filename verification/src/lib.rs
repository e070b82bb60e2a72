//! Verified core of codex-automation: identifier rules, app-state paths,
//! result and workorder state rules, worker definitions, repository scan
//! classification, prompt and workspace text rendering, and the decisions
//! of the control loop. Storage, file system and process work happen in
//! the application around this library.

pub mod text;
pub mod error;
pub mod ids;
pub mod app_dirs;
pub mod json;
pub mod results;
pub mod control;
pub mod worker;
pub mod scan;
pub mod git;
pub mod lines;
pub mod templates;
pub mod prompt;
pub mod clock;
pub mod skill;
pub mod cli;
pub mod workspace;
pub mod checks;
