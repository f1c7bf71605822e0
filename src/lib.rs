//! A selective rewrite pass that instruments UI components and hooks which
//! read reactive values with tracking calls to a runtime entry point.

pub mod ast;
pub mod evidence;
pub mod jsx;
pub mod markers;
pub mod names;
pub mod options;
pub mod policy;
pub mod rewrite;
pub mod text;
pub mod visitor;

pub use markers::{
    opt_in_comment_matches, opt_out_comment_matches, Comment, Comments, OPT_IN_COMMENT,
    OPT_OUT_COMMENT,
};
pub use options::{ExperimentalOptions, Mode, PluginOptions, DEFAULT_IMPORT_SOURCE, IMPORT_NAME};
pub use policy::FunctionInfo;
pub use visitor::{process_transform, signals_transform, Findings, Pass, TransformVisitor};
