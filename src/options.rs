//! The options of the pass, with their defaults.
use vstd::prelude::*;
use crate::text::str_eq;

verus! {

/// Options that may change or go away.
#[derive(Clone, Debug, PartialEq, Eq)]
pub struct ExperimentalOptions {
    /// Instrument with a bare call instead of a try/finally guard.
    pub no_try_finally: Option<bool>,
}

/// The options of the pass, as the host hands them over. Absent fields take
/// their defaults.
#[derive(Clone, Debug, PartialEq, Eq)]
pub struct PluginOptions {
    /// `auto`, `all` or `manual`; any other value acts as `manual`.
    pub mode: Option<String>,
    /// Where the runtime entry point is imported from.
    pub import_source: Option<String>,
    /// Whether calls of imported JSX factories count as markup.
    pub detect_transformed_jsx: Option<bool>,
    pub experimental: Option<ExperimentalOptions>,
}

/// The policy that decides which functions are instrumented.
#[derive(Clone, Copy, Debug, PartialEq, Eq)]
pub enum Mode {
    /// Components and hooks that read a reactive value.
    Auto,
    /// Every component.
    All,
    /// Only functions marked by an opt-in comment.
    Manual,
}

/// The source that the runtime entry point is imported from by default.
pub const DEFAULT_IMPORT_SOURCE: &'static str = "@preact/signals-react/runtime";

/// The name under which the runtime exports its entry point.
pub const IMPORT_NAME: &'static str = "useSignals";

/// The mode that a `mode` option selects.
pub open spec fn mode_of(m: Option<Seq<char>>) -> Mode {
    match m {
        None => Mode::Auto,
        Some(s) => if s == "all"@ {
            Mode::All
        } else if s == "auto"@ {
            Mode::Auto
        } else {
            Mode::Manual
        },
    }
}

/// The view of an optional string.
pub open spec fn opt_view(s: Option<String>) -> Option<Seq<char>> {
    match s {
        None => None,
        Some(t) => Some(t@),
    }
}

impl PluginOptions {
    /// The mode in force.
    pub open spec fn spec_mode(&self) -> Mode {
        mode_of(opt_view(self.mode))
    }

    /// Whether JSX factory calls are detected.
    pub open spec fn spec_detect_jsx(&self) -> bool {
        self.detect_transformed_jsx == Some(true)
    }

    /// Whether instrumentation uses the try/finally guard.
    pub open spec fn spec_try_finally(&self) -> bool {
        match self.experimental {
            Some(e) => e.no_try_finally != Some(true),
            None => true,
        }
    }

    /// The source that the runtime entry point is imported from.
    pub open spec fn spec_import_source(&self) -> Seq<char> {
        match self.import_source {
            Some(s) => s@,
            None => DEFAULT_IMPORT_SOURCE@,
        }
    }

    pub fn resolved_mode(&self) -> (r: Mode)
        ensures
            r == self.spec_mode(),
    {
        match &self.mode {
            None => Mode::Auto,
            Some(s) => {
                if str_eq(s.as_str(), "all") {
                    Mode::All
                } else if str_eq(s.as_str(), "auto") {
                    Mode::Auto
                } else {
                    Mode::Manual
                }
            },
        }
    }

    pub fn detects_jsx(&self) -> (r: bool)
        ensures
            r == self.spec_detect_jsx(),
    {
        match self.detect_transformed_jsx {
            Some(b) => b,
            None => false,
        }
    }

    pub fn uses_try_finally(&self) -> (r: bool)
        ensures
            r == self.spec_try_finally(),
    {
        match &self.experimental {
            Some(e) => match e.no_try_finally {
                Some(b) => !b,
                None => true,
            },
            None => true,
        }
    }

    pub fn resolved_import_source(&self) -> (r: &str)
        ensures
            r@ == self.spec_import_source(),
    {
        match &self.import_source {
            Some(s) => s.as_str(),
            None => DEFAULT_IMPORT_SOURCE,
        }
    }
}

impl Default for PluginOptions {
    fn default() -> (r: PluginOptions)
        ensures
            r.mode.is_some() && r.mode.unwrap()@ == "auto"@,
            r.import_source.is_none(),
            r.detect_transformed_jsx == Some(false),
            r.experimental.is_none(),
    {
        PluginOptions {
            mode: Some(String::from_str("auto")),
            import_source: None,
            detect_transformed_jsx: Some(false),
            experimental: None,
        }
    }
}

} // verus!
