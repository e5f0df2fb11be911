//! Golden file testing: a test renders some text, and the text is held against a
//! reference file that lives beside the test's source file.
//!
//! The library decides; it performs no input or output itself. A caller hands in
//! what it read (the stored reference text, the update toggle) and carries out
//! the outcome it gets back.

pub mod engine;
pub mod error;
pub mod render;
pub mod resolve;
pub mod template;
pub mod text;
pub mod workspace;

pub use engine::{judge, update_requested, Goldie, Outcome};
pub use error::{relative_to, GoldieError};
pub use render::{json_evidence, template_evidence, text_evidence, Evidence};
pub use resolve::{resolve, Layout};
pub use workspace::{cargo_workspace_dir, WorkspaceRootCache};
