//! What is known of a function, and the decision whether to instrument it.
use vstd::prelude::*;
use crate::options::Mode;

verus! {

/// What the pass knows of one function when it decides on it.
#[derive(Clone, Debug, PartialEq, Eq)]
pub struct FunctionInfo {
    pub name: Option<String>,
    pub is_component: bool,
    pub is_hook: bool,
    /// The function's own body produces markup.
    pub has_jsx: bool,
    /// The function's own body reads a reactive value.
    pub uses_signals: bool,
    pub has_opt_in_comment: bool,
    pub has_opt_out_comment: bool,
}

/// The decision: an opt-out comment wins over everything, an opt-in comment
/// over the mode; else `all` takes every component, `auto` the components and
/// hooks that read a reactive value, and `manual` nothing.
pub open spec fn decide(mode: Mode, info: FunctionInfo) -> bool {
    if info.has_opt_out_comment {
        false
    } else if info.has_opt_in_comment {
        true
    } else {
        match mode {
            Mode::All => info.is_component,
            Mode::Auto => info.uses_signals && (info.is_component || info.is_hook),
            Mode::Manual => false,
        }
    }
}

/// Whether a function with `info` is instrumented under `mode`.
pub fn decide_transform(mode: Mode, info: &FunctionInfo) -> (r: bool)
    ensures
        r == decide(mode, *info),
{
    if info.has_opt_out_comment {
        return false;
    }
    if info.has_opt_in_comment {
        return true;
    }
    match mode {
        Mode::All => info.is_component,
        Mode::Auto => info.uses_signals && (info.is_component || info.is_hook),
        Mode::Manual => false,
    }
}

/// An opt-out comment keeps a function as it is, whatever the mode, the
/// evidence and an opt-in comment beside it.
pub proof fn opt_out_dominates(mode: Mode, info: FunctionInfo)
    requires
        info.has_opt_out_comment,
    ensures
        !decide(mode, info),
{
}

/// Without an opt-out comment, an opt-in comment instruments the function in
/// every mode, `manual` included, with no evidence at all.
pub proof fn opt_in_enables(mode: Mode, info: FunctionInfo)
    requires
        info.has_opt_in_comment,
        !info.has_opt_out_comment,
    ensures
        decide(mode, info),
{
}

/// In `auto` mode and with no comment, a component or hook is instrumented
/// exactly when it reads a reactive value.
pub proof fn auto_follows_signals(info: FunctionInfo)
    requires
        !info.has_opt_in_comment,
        !info.has_opt_out_comment,
        info.is_component || info.is_hook,
    ensures
        decide(Mode::Auto, info) == info.uses_signals,
{
}

/// In `all` mode and with no comment, a function is instrumented exactly when
/// it is a component, whatever it reads.
pub proof fn all_takes_components(info: FunctionInfo)
    requires
        !info.has_opt_in_comment,
        !info.has_opt_out_comment,
    ensures
        decide(Mode::All, info) == info.is_component,
{
}

} // verus!
