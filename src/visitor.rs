//! The single walk over a module: it classifies each function, collects what
//! its own body reads and produces, decides, and rewrites.
use vstd::prelude::*;
use crate::ast::{
    ArrowBody, ArrowExpr, CatchClause, Expr, FnDecl, Function, MemberProp, Module, ModuleItem, Pat, Prop,
    Stmt, VarDecl, VarDeclarator,
};
use crate::evidence::{
    is_value_prop, object_pat_binds_value, pat_reads, pat_reads_value, pats_read,
    pats_read_value, binds_value, reads_value_member, reads_value_prop,
};
use crate::jsx::{declares_jsx_ident, declares_jsx_object, JsxRegistry};
use crate::markers::{compile_marker, has_marker, marked, Comments, Marker, OPT_IN_COMMENT, OPT_OUT_COMMENT};
use crate::names::{component_name, hook_name, is_component_name, is_hook_name};
use crate::options::{Mode, PluginOptions};
use crate::policy::{decide, decide_transform, FunctionInfo};
use crate::rewrite::{
    import_source_is, imports_from, add_runtime_import, instrument_body, instrumented, with_runtime_import, wrapped_body, ENTRY_LOCAL,
};

verus! {

/// What a walk found in a subtree: whether the enclosing function reads a
/// reactive value or produces markup there, and whether some function in it
/// was instrumented.
#[derive(Clone, Copy, Debug, PartialEq, Eq)]
pub struct Findings {
    pub uses_signals: bool,
    pub has_jsx: bool,
    pub instrumented: bool,
}

pub open spec fn nothing() -> Findings {
    Findings { uses_signals: false, has_jsx: false, instrumented: false }
}

pub open spec fn join(a: Findings, b: Findings) -> Findings {
    Findings {
        uses_signals: a.uses_signals || b.uses_signals,
        has_jsx: a.has_jsx || b.has_jsx,
        instrumented: a.instrumented || b.instrumented,
    }
}

pub open spec fn signal_read(b: bool) -> Findings {
    Findings { uses_signals: b, has_jsx: false, instrumented: false }
}

pub open spec fn markup(b: bool) -> Findings {
    Findings { uses_signals: false, has_jsx: b, instrumented: false }
}

/// What a function leaves to its surroundings: only whether something was
/// instrumented; what it reads belongs to itself.
pub open spec fn sealed(instrumented: bool) -> Findings {
    Findings { uses_signals: false, has_jsx: false, instrumented }
}

fn none_found() -> (r: Findings)
    ensures
        r == nothing(),
{
    Findings { uses_signals: false, has_jsx: false, instrumented: false }
}

fn merge(a: Findings, b: Findings) -> (r: Findings)
    ensures
        r == join(a, b),
{
    Findings {
        uses_signals: a.uses_signals || b.uses_signals,
        has_jsx: a.has_jsx || b.has_jsx,
        instrumented: a.instrumented || b.instrumented,
    }
}

/// What the walk reads while it runs: the options, the known JSX factories
/// and the module's comments.
pub struct Pass {
    pub options: PluginOptions,
    pub jsx: JsxRegistry,
    /// The module's comments, where the host kept them.
    pub comments: Option<Comments>,
    /// The opt-in marker, compiled once for the whole walk.
    pub opt_in: Marker,
    /// The opt-out marker, compiled once for the whole walk.
    pub opt_out: Marker,
}

/// The rewrite pass over one module.
pub struct TransformVisitor {
    pub pass: Pass,
    /// The local name of the runtime entry point, once some function needs it.
    pub use_signals_ident: Option<String>,
}

/// Creates a pass with `options` and no comments.
pub fn signals_transform(options: PluginOptions) -> (r: TransformVisitor)
    ensures
        r.pass.options == options,
        r.pass.comments is None,
        r.pass.opt_in.pattern() == OPT_IN_COMMENT@,
        r.pass.opt_out.pattern() == OPT_OUT_COMMENT@,
        r.use_signals_ident is None,
        forall|n: Seq<char>| !r.pass.jsx.has_ident(n),
        forall|o: Seq<char>, m: Seq<char>| !r.pass.jsx.has_member(o, m),
{
    TransformVisitor::new(options)
}

impl TransformVisitor {
    pub fn new(options: PluginOptions) -> (r: TransformVisitor)
        ensures
            r.pass.options == options,
            r.pass.comments is None,
            r.pass.opt_in.pattern() == OPT_IN_COMMENT@,
            r.pass.opt_out.pattern() == OPT_OUT_COMMENT@,
            r.use_signals_ident is None,
            forall|n: Seq<char>| !r.pass.jsx.has_ident(n),
            forall|o: Seq<char>, m: Seq<char>| !r.pass.jsx.has_member(o, m),
    {
        TransformVisitor {
            pass: Pass {
                options,
                jsx: JsxRegistry::new(),
                comments: None,
                opt_in: compile_marker(OPT_IN_COMMENT),
                opt_out: compile_marker(OPT_OUT_COMMENT),
            },
            use_signals_ident: None,
        }
    }

    pub fn with_comments(options: PluginOptions, comments: Comments) -> (r: TransformVisitor)
        ensures
            r.pass.options == options,
            r.pass.comments == Some(comments),
            r.pass.opt_in.pattern() == OPT_IN_COMMENT@,
            r.pass.opt_out.pattern() == OPT_OUT_COMMENT@,
            r.use_signals_ident is None,
            forall|n: Seq<char>| !r.pass.jsx.has_ident(n),
            forall|o: Seq<char>, m: Seq<char>| !r.pass.jsx.has_member(o, m),
    {
        TransformVisitor {
            pass: Pass {
                options,
                jsx: JsxRegistry::new(),
                comments: Some(comments),
                opt_in: compile_marker(OPT_IN_COMMENT),
                opt_out: compile_marker(OPT_OUT_COMMENT),
            },
            use_signals_ident: None,
        }
    }

    pub fn options(&self) -> (r: &PluginOptions)
        ensures
            *r == self.pass.options,
    {
        &self.pass.options
    }

    /// Whether a function with `info` is instrumented under this pass's mode.
    pub fn should_transform(&self, info: &FunctionInfo) -> (r: bool)
        ensures
            r == decide(self.pass.options.spec_mode(), *info),
    {
        self.pass.should_transform(info)
    }

    pub fn is_component_name(&self, name: &str) -> (r: bool)
        ensures
            r == component_name(name@),
    {
        is_component_name(name)
    }

    pub fn is_hook_name(&self, name: &str) -> (r: bool)
        ensures
            r == hook_name(name@),
    {
        is_hook_name(name)
    }

    /// Whether `expr` is a member access that reads `value`.
    pub fn is_value_member_access(&self, expr: &Expr) -> (r: bool)
        ensures
            r == reads_value_member(*expr),
    {
        match expr {
            Expr::Member { obj, prop } => is_value_prop(prop),
            _ => false,
        }
    }

    /// Whether the object pattern takes the property `value` out.
    pub fn has_value_in_object_pattern(&self, pat: &crate::ast::ObjectPat) -> (r: bool)
        ensures
            r == binds_value(*pat),
    {
        object_pat_binds_value(pat)
    }

    /// Whether a comment at `pos` matches `pattern`.
    pub fn has_leading_comment(&self, pos: u32, pattern: &str) -> (r: bool)
        ensures
            r == marked(self.pass.comments, pos, pattern@),
    {
        has_marker(&self.pass.comments, pos, &compile_marker(pattern))
    }

    /// Whether `name` is known as a local JSX factory.
    pub fn has_jsx_identifier(&self, name: &str) -> (r: bool)
        ensures
            r == self.pass.jsx.has_ident(name@),
    {
        self.pass.jsx.contains_ident(name)
    }

    /// Records the JSX factories that the module's top-level imports bind.
    pub fn detect_jsx_imports(&mut self, module: &Module)
        ensures
            final(self).pass.options == old(self).pass.options,
            final(self).pass.comments == old(self).pass.comments,
            final(self).pass.opt_in == old(self).pass.opt_in,
            final(self).pass.opt_out == old(self).pass.opt_out,
            final(self).use_signals_ident == old(self).use_signals_ident,
            forall|n: Seq<char>|
                #![trigger final(self).pass.jsx.has_ident(n)]
                final(self).pass.jsx.has_ident(n) <==> old(self).pass.jsx.has_ident(n) || declares_jsx_ident(
                    module.body@,
                    n,
                ),
            forall|o: Seq<char>, m: Seq<char>|
                #![trigger final(self).pass.jsx.has_member(o, m)]
                final(self).pass.jsx.has_member(o, m) <==> old(self).pass.jsx.has_member(o, m)
                    || declares_jsx_object(module.body@, o, m),
    {
        self.pass.jsx.register_module(&module.body);
    }

}

impl Pass {
    /// A call of `callee` builds a JSX element, when such calls are detected.
    pub open spec fn jsx_callee(self, callee: Expr) -> bool {
        self.options.spec_detect_jsx() && match callee {
            Expr::Ident(n) => self.jsx.has_ident(n@),
            Expr::Member { obj, prop } => match *obj {
                Expr::Ident(o) => match prop {
                    MemberProp::Ident(m) => self.jsx.has_member(o@, m@),
                    _ => false,
                },
                _ => false,
            },
            _ => false,
        }
    }

    /// Whether a call of `callee` builds a JSX element.
    pub fn is_jsx_call(&self, callee: &Expr) -> (r: bool)
        ensures
            r == self.jsx_callee(*callee),
    {
        if !self.options.detects_jsx() {
            return false;
        }
        match callee {
            Expr::Ident(n) => self.jsx.contains_ident(n.as_str()),
            Expr::Member { obj, prop } => match &**obj {
                Expr::Ident(o) => match prop {
                    MemberProp::Ident(m) => self.jsx.contains_member(o.as_str(), m.as_str()),
                    _ => false,
                },
                _ => false,
            },
            _ => false,
        }
    }

    /// What the pass knows of a function bound to `name` that starts at
    /// `lo`, with its own body's findings.
    pub open spec fn info_decides(self, name: Seq<char>, lo: u32, found: Findings) -> bool {
        if marked(self.comments, lo, self.opt_out.pattern()) {
            false
        } else if marked(self.comments, lo, self.opt_in.pattern()) {
            true
        } else {
            match self.options.spec_mode() {
                Mode::All => component_name(name),
                Mode::Auto => found.uses_signals && (component_name(name) || hook_name(name)),
                Mode::Manual => false,
            }
        }
    }

    /// Whether a function with `info` is instrumented under the mode in force.
    pub fn should_transform(&self, info: &FunctionInfo) -> (r: bool)
        ensures
            r == decide(self.options.spec_mode(), *info),
    {
        decide_transform(self.options.resolved_mode(), info)
    }

    /// Builds the record of a function from its name, position and findings.
    pub fn function_info(&self, name: &String, lo: u32, found: Findings) -> (r: FunctionInfo)
        ensures
            r.name is Some && r.name->Some_0@ == name@,
            r.is_component == component_name(name@),
            r.is_hook == hook_name(name@),
            r.uses_signals == found.uses_signals,
            r.has_jsx == found.has_jsx,
            r.has_opt_in_comment == marked(self.comments, lo, self.opt_in.pattern()),
            r.has_opt_out_comment == marked(self.comments, lo, self.opt_out.pattern()),
            decide(self.options.spec_mode(), r) == self.info_decides(name@, lo, found),
    {
        FunctionInfo {
            name: Some(name.clone()),
            is_component: is_component_name(name.as_str()),
            is_hook: is_hook_name(name.as_str()),
            has_jsx: found.has_jsx,
            uses_signals: found.uses_signals,
            has_opt_in_comment: has_marker(&self.comments, lo, &self.opt_in),
            has_opt_out_comment: has_marker(&self.comments, lo, &self.opt_out),
        }
    }
}


impl Pass {
    /// What the walk finds in `e` for the function around it.
    pub open spec fn f_expr(self, e: Expr) -> Findings
        decreases e,
    {
        match e {
            Expr::Ident(_) => nothing(),
            Expr::Lit(_) => nothing(),
            Expr::JsxText(_) => nothing(),
            Expr::Member { obj, prop } => join(
                signal_read(reads_value_prop(prop)),
                join(
                    self.f_expr(*obj),
                    match prop {
                        MemberProp::Computed(c) => self.f_expr(*c),
                        _ => nothing(),
                    },
                ),
            ),
            Expr::Call { callee, args } => join(
                markup(self.jsx_callee(*callee)),
                join(self.f_expr(*callee), self.f_exprs(args@)),
            ),
            Expr::Arrow(a) => join(signal_read(pats_read(a.params@)), self.f_arrow_body(a.body)),
            Expr::Fn(f) => self.f_function(f),
            Expr::Object(ps) => self.f_props(ps@),
            Expr::Array(es) => self.f_exprs(es@),
            Expr::Bin { op, left, right } => join(self.f_expr(*left), self.f_expr(*right)),
            Expr::Cond { test, cons, alt } => join(
                self.f_expr(*test),
                join(self.f_expr(*cons), self.f_expr(*alt)),
            ),
            Expr::Unary { op, arg } => self.f_expr(*arg),
            Expr::Assign { op, target, value } => join(self.f_expr(*target), self.f_expr(*value)),
            Expr::New { callee, args } => join(self.f_expr(*callee), self.f_exprs(args@)),
            Expr::Template { quasis, exprs } => self.f_exprs(exprs@),
            Expr::Other { kind, children } => self.f_exprs(children@),
            Expr::JsxElement { name, attrs, children } => join(
                markup(true),
                join(self.f_props(attrs@), self.f_exprs(children@)),
            ),
            Expr::JsxFragment(cs) => join(markup(true), self.f_exprs(cs@)),
        }
    }

    pub open spec fn f_exprs(self, s: Seq<Expr>) -> Findings
        decreases s,
    {
        if s.len() == 0 {
            nothing()
        } else {
            join(self.f_exprs(s.drop_last()), self.f_expr(s.last()))
        }
    }

    pub open spec fn f_props(self, s: Seq<Prop>) -> Findings
        decreases s,
    {
        if s.len() == 0 {
            nothing()
        } else {
            join(self.f_props(s.drop_last()), self.f_expr(s.last().value))
        }
    }

    pub open spec fn f_arrow_body(self, b: ArrowBody) -> Findings
        decreases b,
    {
        match b {
            ArrowBody::Block(st) => self.f_stmts(st@),
            ArrowBody::Expr(x) => self.f_expr(*x),
        }
    }

    /// What the walk finds in a function whose findings stay with the
    /// function around it (a function expression, an arrow not bound to a name).
    pub open spec fn f_function(self, f: Function) -> Findings
        decreases f,
    {
        join(
            signal_read(pats_read(f.params@)),
            match f.body {
                None => nothing(),
                Some(b) => self.f_stmts(b@),
            },
        )
    }

    pub open spec fn f_stmt(self, s: Stmt) -> Findings
        decreases s,
    {
        match s {
            Stmt::Expr(e) => self.f_expr(e),
            Stmt::Return(x) => match x {
                None => nothing(),
                Some(e) => self.f_expr(e),
            },
            Stmt::Var(d) => self.f_decls(d.decls@),
            Stmt::FnDecl(fd) => self.f_fn_decl(fd),
            Stmt::Block(b) => self.f_stmts(b@),
            Stmt::If { test, cons, alt } => join(
                self.f_expr(test),
                join(
                    self.f_stmt(*cons),
                    match alt {
                        None => nothing(),
                        Some(a) => self.f_stmt(*a),
                    },
                ),
            ),
            Stmt::Try { block, handler, finalizer } => join(
                self.f_stmts(block@),
                join(
                    match handler {
                        None => nothing(),
                        Some(h) => self.f_catch(h),
                    },
                    match finalizer {
                        None => nothing(),
                        Some(f) => self.f_stmts(f@),
                    },
                ),
            ),
            Stmt::Throw(e) => self.f_expr(e),
            Stmt::Other { kind, exprs, body } => join(self.f_exprs(exprs@), self.f_stmts(body@)),
        }
    }

    pub open spec fn f_catch(self, h: CatchClause) -> Findings
        decreases h,
    {
        join(
            signal_read(
                match h.param {
                    None => false,
                    Some(p) => pat_reads(p),
                },
            ),
            self.f_stmts(h.body@),
        )
    }

    pub open spec fn f_stmts(self, s: Seq<Stmt>) -> Findings
        decreases s,
    {
        if s.len() == 0 {
            nothing()
        } else {
            join(self.f_stmts(s.drop_last()), self.f_stmt(s.last()))
        }
    }

    pub open spec fn f_decls(self, s: Seq<VarDeclarator>) -> Findings
        decreases s,
    {
        if s.len() == 0 {
            nothing()
        } else {
            join(self.f_decls(s.drop_last()), self.f_decl(s.last()))
        }
    }

    pub open spec fn f_decl(self, d: VarDeclarator) -> Findings
        decreases d,
    {
        match d.init {
            None => signal_read(pat_reads(d.name)),
            Some(e) => match d.name {
                Pat::Ident(n) => match e {
                    Expr::Arrow(a) => self.f_bound_arrow(n@, a),
                    _ => join(signal_read(pat_reads(d.name)), self.f_expr(e)),
                },
                _ => join(signal_read(pat_reads(d.name)), self.f_expr(e)),
            },
        }
    }

    pub open spec fn f_bound_arrow(self, name: Seq<char>, a: ArrowExpr) -> Findings
        decreases a,
    {
        let own = join(signal_read(pats_read(a.params@)), self.f_arrow_body(a.body));
        sealed(own.instrumented || self.info_decides(name, a.lo, own))
    }

    pub open spec fn f_fn_decl(self, fd: FnDecl) -> Findings
        decreases fd,
    {
        let own = self.f_function(fd.function);
        sealed(own.instrumented || self.info_decides(fd.ident@, fd.function.lo, own))
    }

    pub open spec fn f_items(self, s: Seq<ModuleItem>) -> Findings
        decreases s,
    {
        if s.len() == 0 {
            nothing()
        } else {
            join(
                self.f_items(s.drop_last()),
                match s.last() {
                    ModuleItem::Import(_) => nothing(),
                    ModuleItem::Export(st) => self.f_stmt(st),
                    ModuleItem::Stmt(st) => self.f_stmt(st),
                },
            )
        }
    }
}


/// The statements that an arrow body stands for: a block's own, or a return
/// of its expression.
pub open spec fn as_block(b: ArrowBody) -> Seq<Stmt> {
    match b {
        ArrowBody::Block(st) => st@,
        ArrowBody::Expr(x) => seq![Stmt::Return(Some(*x))],
    }
}

impl Pass {
    /// The walk turns `e` into `o`.
    pub open spec fn r_expr(self, e: Expr, o: Expr) -> bool
        decreases e,
    {
        match e {
            Expr::Ident(_) => o == e,
            Expr::Lit(_) => o == e,
            Expr::JsxText(_) => o == e,
            Expr::Member { obj, prop } => match o {
                Expr::Member { obj: o2, prop: p2 } => self.r_expr(*obj, *o2) && match prop {
                    MemberProp::Computed(c) => match p2 {
                        MemberProp::Computed(c2) => self.r_expr(*c, *c2),
                        _ => false,
                    },
                    _ => p2 == prop,
                },
                _ => false,
            },
            Expr::Call { callee, args } => match o {
                Expr::Call { callee: c2, args: a2 } => self.r_expr(*callee, *c2) && self.r_exprs(
                    args@,
                    a2@,
                ),
                _ => false,
            },
            Expr::Arrow(a) => match o {
                Expr::Arrow(a2) => a2.lo == a.lo && a2.params == a.params && self.r_arrow_body(
                    a.body,
                    a2.body,
                ),
                _ => false,
            },
            Expr::Fn(f) => match o {
                Expr::Fn(f2) => self.r_function(f, f2),
                _ => false,
            },
            Expr::Object(ps) => match o {
                Expr::Object(p2) => self.r_props(ps@, p2@),
                _ => false,
            },
            Expr::Array(es) => match o {
                Expr::Array(e2) => self.r_exprs(es@, e2@),
                _ => false,
            },
            Expr::Bin { op, left, right } => match o {
                Expr::Bin { op: op2, left: l2, right: r2 } => op2 == op && self.r_expr(*left, *l2)
                    && self.r_expr(*right, *r2),
                _ => false,
            },
            Expr::Cond { test, cons, alt } => match o {
                Expr::Cond { test: t2, cons: c2, alt: a2 } => self.r_expr(*test, *t2) && self.r_expr(
                    *cons,
                    *c2,
                ) && self.r_expr(*alt, *a2),
                _ => false,
            },
            Expr::Unary { op, arg } => match o {
                Expr::Unary { op: op2, arg: a2 } => op2 == op && self.r_expr(*arg, *a2),
                _ => false,
            },
            Expr::Assign { op, target, value } => match o {
                Expr::Assign { op: op2, target: t2, value: v2 } => op2 == op && self.r_expr(
                    *target,
                    *t2,
                ) && self.r_expr(*value, *v2),
                _ => false,
            },
            Expr::New { callee, args } => match o {
                Expr::New { callee: c2, args: a2 } => self.r_expr(*callee, *c2) && self.r_exprs(
                    args@,
                    a2@,
                ),
                _ => false,
            },
            Expr::Template { quasis, exprs } => match o {
                Expr::Template { quasis: q2, exprs: e2 } => q2 == quasis && self.r_exprs(exprs@, e2@),
                _ => false,
            },
            Expr::Other { kind, children } => match o {
                Expr::Other { kind: k2, children: c2 } => k2 == kind && self.r_exprs(children@, c2@),
                _ => false,
            },
            Expr::JsxElement { name, attrs, children } => match o {
                Expr::JsxElement { name: n2, attrs: a2, children: c2 } => n2 == name
                    && self.r_props(attrs@, a2@) && self.r_exprs(children@, c2@),
                _ => false,
            },
            Expr::JsxFragment(cs) => match o {
                Expr::JsxFragment(c2) => self.r_exprs(cs@, c2@),
                _ => false,
            },
        }
    }

    pub open spec fn r_exprs(self, s: Seq<Expr>, t: Seq<Expr>) -> bool
        decreases s,
    {
        s.len() == t.len() && (s.len() == 0 || (self.r_exprs(s.drop_last(), t.drop_last())
            && self.r_expr(s.last(), t.last())))
    }

    pub open spec fn r_props(self, s: Seq<Prop>, t: Seq<Prop>) -> bool
        decreases s,
    {
        s.len() == t.len() && (s.len() == 0 || (self.r_props(s.drop_last(), t.drop_last())
            && t.last().key == s.last().key && self.r_expr(s.last().value, t.last().value)))
    }

    pub open spec fn r_arrow_body(self, b: ArrowBody, o: ArrowBody) -> bool
        decreases b,
    {
        match b {
            ArrowBody::Block(st) => match o {
                ArrowBody::Block(st2) => self.r_stmts(st@, st2@),
                _ => false,
            },
            ArrowBody::Expr(x) => match o {
                ArrowBody::Expr(x2) => self.r_expr(*x, *x2),
                _ => false,
            },
        }
    }

    pub open spec fn r_function(self, f: Function, o: Function) -> bool
        decreases f,
    {
        o.lo == f.lo && o.params == f.params && match f.body {
            None => o.body is None,
            Some(b) => match o.body {
                Some(b2) => self.r_stmts(b@, b2@),
                None => false,
            },
        }
    }

    /// The walk turns an arrow body into the statements `w`; an expression
    /// body becomes a return of it.
    pub open spec fn r_arrow_block(self, b: ArrowBody, w: Seq<Stmt>) -> bool
        decreases b,
    {
        match b {
            ArrowBody::Block(st) => self.r_stmts(st@, w),
            ArrowBody::Expr(x) => w.len() == 1 && match w[0] {
                Stmt::Return(Some(x2)) => self.r_expr(*x, x2),
                _ => false,
            },
        }
    }

    /// The walk turns the body of a function (absent: empty) into `w`.
    pub open spec fn r_body(self, b: Option<Vec<Stmt>>, w: Seq<Stmt>) -> bool
        decreases b,
    {
        match b {
            None => w.len() == 0,
            Some(v) => self.r_stmts(v@, w),
        }
    }

    pub open spec fn r_stmt(self, s: Stmt, o: Stmt) -> bool
        decreases s,
    {
        match s {
            Stmt::Expr(e) => match o {
                Stmt::Expr(e2) => self.r_expr(e, e2),
                _ => false,
            },
            Stmt::Return(x) => match o {
                Stmt::Return(x2) => match x {
                    None => x2 is None,
                    Some(e) => match x2 {
                        Some(e2) => self.r_expr(e, e2),
                        None => false,
                    },
                },
                _ => false,
            },
            Stmt::Var(d) => match o {
                Stmt::Var(d2) => d2.kind == d.kind && self.r_decls(d.decls@, d2.decls@),
                _ => false,
            },
            Stmt::FnDecl(fd) => match o {
                Stmt::FnDecl(fd2) => self.r_fn_decl(fd, fd2),
                _ => false,
            },
            Stmt::Block(b) => match o {
                Stmt::Block(b2) => self.r_stmts(b@, b2@),
                _ => false,
            },
            Stmt::If { test, cons, alt } => match o {
                Stmt::If { test: t2, cons: c2, alt: a2 } => self.r_expr(test, t2) && self.r_stmt(
                    *cons,
                    *c2,
                ) && match alt {
                    None => a2 is None,
                    Some(a) => match a2 {
                        Some(x) => self.r_stmt(*a, *x),
                        None => false,
                    },
                },
                _ => false,
            },
            Stmt::Try { block, handler, finalizer } => match o {
                Stmt::Try { block: b2, handler: h2, finalizer: f2 } => self.r_stmts(block@, b2@)
                    && match handler {
                    None => h2 is None,
                    Some(h) => match h2 {
                        Some(x) => x.param == h.param && self.r_stmts(h.body@, x.body@),
                        None => false,
                    },
                } && match finalizer {
                    None => f2 is None,
                    Some(f) => match f2 {
                        Some(x) => self.r_stmts(f@, x@),
                        None => false,
                    },
                },
                _ => false,
            },
            Stmt::Throw(e) => match o {
                Stmt::Throw(e2) => self.r_expr(e, e2),
                _ => false,
            },
            Stmt::Other { kind, exprs, body } => match o {
                Stmt::Other { kind: k2, exprs: e2, body: b2 } => k2 == kind && self.r_exprs(
                    exprs@,
                    e2@,
                ) && self.r_stmts(body@, b2@),
                _ => false,
            },
        }
    }

    pub open spec fn r_stmts(self, s: Seq<Stmt>, t: Seq<Stmt>) -> bool
        decreases s,
    {
        s.len() == t.len() && (s.len() == 0 || (self.r_stmts(s.drop_last(), t.drop_last())
            && self.r_stmt(s.last(), t.last())))
    }

    pub open spec fn r_decls(self, s: Seq<VarDeclarator>, t: Seq<VarDeclarator>) -> bool
        decreases s,
    {
        s.len() == t.len() && (s.len() == 0 || (self.r_decls(s.drop_last(), t.drop_last())
            && self.r_decl(s.last(), t.last())))
    }

    pub open spec fn r_decl(self, d: VarDeclarator, o: VarDeclarator) -> bool
        decreases d,
    {
        o.name == d.name && match d.init {
            None => o.init is None,
            Some(e) => match o.init {
                None => false,
                Some(e2) => match d.name {
                    Pat::Ident(n) => match e {
                        Expr::Arrow(a) => match e2 {
                            Expr::Arrow(a2) => self.r_bound_arrow(n@, a, a2),
                            _ => false,
                        },
                        _ => self.r_expr(e, e2),
                    },
                    _ => self.r_expr(e, e2),
                },
            },
        }
    }

    /// The walk turns an arrow function bound to `name` into `o`: its body
    /// walked, and instrumented when the decision says so.
    pub open spec fn r_bound_arrow(self, name: Seq<char>, a: ArrowExpr, o: ArrowExpr) -> bool
        decreases a,
    {
        let own = join(signal_read(pats_read(a.params@)), self.f_arrow_body(a.body));
        o.lo == a.lo && o.params == a.params && if self.info_decides(name, a.lo, own) {
            match o.body {
                ArrowBody::Block(b2) => {
                    let g = self.options.spec_try_finally();
                    instrumented(wrapped_body(b2@, g), b2@, hook_name(name), g)
                        && self.r_arrow_block(a.body, wrapped_body(b2@, g))
                },
                _ => false,
            }
        } else {
            self.r_arrow_body(a.body, o.body)
        }
    }

    /// The walk turns a function declaration into `o`: its body walked, and
    /// instrumented when the decision says so.
    pub open spec fn r_fn_decl(self, fd: FnDecl, o: FnDecl) -> bool
        decreases fd,
    {
        let own = self.f_function(fd.function);
        o.ident == fd.ident && if self.info_decides(fd.ident@, fd.function.lo, own) {
            o.function.lo == fd.function.lo && o.function.params == fd.function.params && match o.function.body {
                Some(b2) => {
                    let g = self.options.spec_try_finally();
                    instrumented(wrapped_body(b2@, g), b2@, hook_name(fd.ident@), g)
                        && self.r_body(fd.function.body, wrapped_body(b2@, g))
                },
                None => false,
            }
        } else {
            self.r_function(fd.function, o.function)
        }
    }

    pub open spec fn r_item(self, it: ModuleItem, o: ModuleItem) -> bool {
        match it {
            ModuleItem::Import(_) => o == it,
            ModuleItem::Export(st) => match o {
                ModuleItem::Export(s2) => self.r_stmt(st, s2),
                _ => false,
            },
            ModuleItem::Stmt(st) => match o {
                ModuleItem::Stmt(s2) => self.r_stmt(st, s2),
                _ => false,
            },
        }
    }

    pub open spec fn r_items(self, s: Seq<ModuleItem>, t: Seq<ModuleItem>) -> bool
        decreases s,
    {
        s.len() == t.len() && (s.len() == 0 || (self.r_items(s.drop_last(), t.drop_last())
            && self.r_item(s.last(), t.last())))
    }
}


fn sig_found(b: bool) -> (r: Findings)
    ensures
        r == signal_read(b),
{
    Findings { uses_signals: b, has_jsx: false, instrumented: false }
}

fn markup_found(b: bool) -> (r: Findings)
    ensures
        r == markup(b),
{
    Findings { uses_signals: false, has_jsx: b, instrumented: false }
}

fn sealed_found(b: bool) -> (r: Findings)
    ensures
        r == sealed(b),
{
    Findings { uses_signals: false, has_jsx: false, instrumented: b }
}

impl Pass {
    /// Walks an expression: rewrites the functions bound in it and reports
    /// what it finds for the function around it.
    pub fn walk_expr(&self, e: Expr) -> (r: (Expr, Findings))
        ensures
            self.r_expr(e, r.0),
            r.1 == self.f_expr(e),
        decreases e,
    {
        match e {
            Expr::Ident(x) => (Expr::Ident(x), none_found()),
            Expr::Lit(x) => (Expr::Lit(x), none_found()),
            Expr::JsxText(x) => (Expr::JsxText(x), none_found()),
            Expr::Member { obj, prop } => {
                let reads = is_value_prop(&prop);
                let (o2, f1) = self.walk_expr(*obj);
                let (p2, f2) = match prop {
                    MemberProp::Computed(c) => {
                        let (c2, fc) = self.walk_expr(*c);
                        (MemberProp::Computed(Box::new(c2)), fc)
                    },
                    MemberProp::Ident(x) => (MemberProp::Ident(x), none_found()),
                    MemberProp::Private(x) => (MemberProp::Private(x), none_found()),
                };
                (Expr::Member { obj: Box::new(o2), prop: p2 }, merge(sig_found(reads), merge(f1, f2)))
            },
            Expr::Call { callee, args } => {
                let jsx = self.is_jsx_call(&callee);
                let (c2, f1) = self.walk_expr(*callee);
                let (a2, f2) = self.walk_exprs(args);
                (Expr::Call { callee: Box::new(c2), args: a2 }, merge(markup_found(jsx), merge(f1, f2)))
            },
            Expr::Arrow(a) => {
                let ArrowExpr { lo, params, body } = a;
                let reads = pats_read_value(&params);
                let (b2, f) = self.walk_arrow_body(body);
                (Expr::Arrow(ArrowExpr { lo, params, body: b2 }), merge(sig_found(reads), f))
            },
            Expr::Fn(f) => {
                let (f2, found) = self.walk_function(f);
                (Expr::Fn(f2), found)
            },
            Expr::Object(ps) => {
                let (p2, f) = self.walk_props(ps);
                (Expr::Object(p2), f)
            },
            Expr::Array(es) => {
                let (e2, f) = self.walk_exprs(es);
                (Expr::Array(e2), f)
            },
            Expr::Bin { op, left, right } => {
                let (l2, f1) = self.walk_expr(*left);
                let (r2, f2) = self.walk_expr(*right);
                (Expr::Bin { op, left: Box::new(l2), right: Box::new(r2) }, merge(f1, f2))
            },
            Expr::Cond { test, cons, alt } => {
                let (t2, f1) = self.walk_expr(*test);
                let (c2, f2) = self.walk_expr(*cons);
                let (a2, f3) = self.walk_expr(*alt);
                (
                    Expr::Cond { test: Box::new(t2), cons: Box::new(c2), alt: Box::new(a2) },
                    merge(f1, merge(f2, f3)),
                )
            },
            Expr::Unary { op, arg } => {
                let (a2, f) = self.walk_expr(*arg);
                (Expr::Unary { op, arg: Box::new(a2) }, f)
            },
            Expr::Assign { op, target, value } => {
                let (t2, f1) = self.walk_expr(*target);
                let (v2, f2) = self.walk_expr(*value);
                (Expr::Assign { op, target: Box::new(t2), value: Box::new(v2) }, merge(f1, f2))
            },
            Expr::New { callee, args } => {
                let (c2, f1) = self.walk_expr(*callee);
                let (a2, f2) = self.walk_exprs(args);
                (Expr::New { callee: Box::new(c2), args: a2 }, merge(f1, f2))
            },
            Expr::Template { quasis, exprs } => {
                let (e2, f) = self.walk_exprs(exprs);
                (Expr::Template { quasis, exprs: e2 }, f)
            },
            Expr::Other { kind, children } => {
                let (c2, f) = self.walk_exprs(children);
                (Expr::Other { kind, children: c2 }, f)
            },
            Expr::JsxElement { name, attrs, children } => {
                let (a2, f1) = self.walk_props(attrs);
                let (c2, f2) = self.walk_exprs(children);
                (
                    Expr::JsxElement { name, attrs: a2, children: c2 },
                    merge(markup_found(true), merge(f1, f2)),
                )
            },
            Expr::JsxFragment(cs) => {
                let (c2, f) = self.walk_exprs(cs);
                (Expr::JsxFragment(c2), merge(markup_found(true), f))
            },
        }
    }

    #[verifier::loop_isolation(false)]
    pub fn walk_exprs(&self, v: Vec<Expr>) -> (r: (Vec<Expr>, Findings))
        ensures
            self.r_exprs(v@, r.0@),
            r.1 == self.f_exprs(v@),
        decreases v,
    {
        let ghost gv = v;
        let ghost orig = v@;
        let n = v.len();
        let mut rest = v;
        let mut out: Vec<Expr> = Vec::new();
        let mut found = none_found();
        let mut k: usize = 0;
        while k < n
            invariant
                n == orig.len(),
                orig == gv@,
                k <= n,
                rest@ == orig.subrange(k as int, n as int),
                self.r_exprs(orig.subrange(0, k as int), out@),
                found == self.f_exprs(orig.subrange(0, k as int)),
            decreases n - k,
        {
            let ghost pre_out = out@;
            let x = rest.remove(0);
            proof {
                assert(x == orig[k as int]);
                assert(decreases_to!(gv => gv[k as int]));
            }
            let (x2, f) = self.walk_expr(x);
            out.push(x2);
            found = merge(found, f);
            proof {
                assert(orig.subrange(0, k + 1).drop_last() =~= orig.subrange(0, k as int));
                assert(out@.drop_last() =~= pre_out);
                assert(rest@ =~= orig.subrange(k + 1, n as int));
            }
            k += 1;
        }
        assert(orig.subrange(0, n as int) =~= orig);
        (out, found)
    }

    #[verifier::loop_isolation(false)]
    pub fn walk_props(&self, v: Vec<Prop>) -> (r: (Vec<Prop>, Findings))
        ensures
            self.r_props(v@, r.0@),
            r.1 == self.f_props(v@),
        decreases v,
    {
        let ghost gv = v;
        let ghost orig = v@;
        let n = v.len();
        let mut rest = v;
        let mut out: Vec<Prop> = Vec::new();
        let mut found = none_found();
        let mut k: usize = 0;
        while k < n
            invariant
                n == orig.len(),
                orig == gv@,
                k <= n,
                rest@ == orig.subrange(k as int, n as int),
                self.r_props(orig.subrange(0, k as int), out@),
                found == self.f_props(orig.subrange(0, k as int)),
            decreases n - k,
        {
            let ghost pre_out = out@;
            let x = rest.remove(0);
            proof {
                assert(x == orig[k as int]);
                assert(decreases_to!(gv => gv[k as int]));
                assert(decreases_to!(gv[k as int] => gv[k as int].value));
            }
            let Prop { key, value } = x;
            let (v2, f) = self.walk_expr(value);
            out.push(Prop { key, value: v2 });
            found = merge(found, f);
            proof {
                assert(orig.subrange(0, k + 1).drop_last() =~= orig.subrange(0, k as int));
                assert(out@.drop_last() =~= pre_out);
                assert(rest@ =~= orig.subrange(k + 1, n as int));
            }
            k += 1;
        }
        assert(orig.subrange(0, n as int) =~= orig);
        (out, found)
    }

    pub fn walk_arrow_body(&self, b: ArrowBody) -> (r: (ArrowBody, Findings))
        ensures
            self.r_arrow_body(b, r.0),
            r.1 == self.f_arrow_body(b),
        decreases b,
    {
        match b {
            ArrowBody::Block(st) => {
                let (s2, f) = self.walk_stmts(st);
                (ArrowBody::Block(s2), f)
            },
            ArrowBody::Expr(x) => {
                let (x2, f) = self.walk_expr(*x);
                (ArrowBody::Expr(Box::new(x2)), f)
            },
        }
    }

    /// Walks a function whose findings stay with the function around it.
    pub fn walk_function(&self, f: Function) -> (r: (Function, Findings))
        ensures
            self.r_function(f, r.0),
            r.1 == self.f_function(f),
        decreases f,
    {
        let Function { lo, params, body } = f;
        let reads = pats_read_value(&params);
        let (b2, found) = match body {
            None => (None, none_found()),
            Some(b) => {
                let (b2, fb) = self.walk_stmts(b);
                (Some(b2), fb)
            },
        };
        (Function { lo, params, body: b2 }, merge(sig_found(reads), found))
    }

    pub fn walk_stmt(&self, s: Stmt) -> (r: (Stmt, Findings))
        ensures
            self.r_stmt(s, r.0),
            r.1 == self.f_stmt(s),
        decreases s,
    {
        match s {
            Stmt::Expr(e) => {
                let (e2, f) = self.walk_expr(e);
                (Stmt::Expr(e2), f)
            },
            Stmt::Return(x) => match x {
                None => (Stmt::Return(None), none_found()),
                Some(e) => {
                    let (e2, f) = self.walk_expr(e);
                    (Stmt::Return(Some(e2)), f)
                },
            },
            Stmt::Var(d) => {
                let VarDecl { kind, decls } = d;
                let (d2, f) = self.walk_decls(decls);
                (Stmt::Var(VarDecl { kind, decls: d2 }), f)
            },
            Stmt::FnDecl(fd) => {
                let (fd2, f) = self.walk_fn_decl(fd);
                (Stmt::FnDecl(fd2), f)
            },
            Stmt::Block(b) => {
                let (b2, f) = self.walk_stmts(b);
                (Stmt::Block(b2), f)
            },
            Stmt::If { test, cons, alt } => {
                let (t2, f1) = self.walk_expr(test);
                let (c2, f2) = self.walk_stmt(*cons);
                let (a2, f3) = match alt {
                    None => (None, none_found()),
                    Some(a) => {
                        let (x, fa) = self.walk_stmt(*a);
                        (Some(Box::new(x)), fa)
                    },
                };
                (Stmt::If { test: t2, cons: Box::new(c2), alt: a2 }, merge(f1, merge(f2, f3)))
            },
            Stmt::Throw(e) => {
                let (e2, f) = self.walk_expr(e);
                (Stmt::Throw(e2), f)
            },
            Stmt::Other { kind, exprs, body } => {
                let (e2, f1) = self.walk_exprs(exprs);
                let (b2, f2) = self.walk_stmts(body);
                (Stmt::Other { kind, exprs: e2, body: b2 }, merge(f1, f2))
            },
            Stmt::Try { block, handler, finalizer } => {
                let (h2, fh) = match handler {
                    None => (None, none_found()),
                    Some(h) => {
                        let ghost gh = h;
                        let CatchClause { param, body } = h;
                        let reads = match &param {
                            None => false,
                            Some(p) => pat_reads_value(p),
                        };
                        let (body2, fb) = self.walk_stmts(body);
                        let fc = merge(sig_found(reads), fb);
                        assert(fc == self.f_catch(gh));
                        (Some(CatchClause { param, body: body2 }), fc)
                    },
                };
                let (b2, f1) = self.walk_stmts(block);
                let (fin2, f2) = match finalizer {
                    None => (None, none_found()),
                    Some(fin) => {
                        let (x, ff) = self.walk_stmts(fin);
                        (Some(x), ff)
                    },
                };
                (Stmt::Try { block: b2, handler: h2, finalizer: fin2 }, merge(f1, merge(fh, f2)))
            },
        }
    }

    #[verifier::loop_isolation(false)]
    pub fn walk_stmts(&self, v: Vec<Stmt>) -> (r: (Vec<Stmt>, Findings))
        ensures
            self.r_stmts(v@, r.0@),
            r.1 == self.f_stmts(v@),
        decreases v,
    {
        let ghost gv = v;
        let ghost orig = v@;
        let n = v.len();
        let mut rest = v;
        let mut out: Vec<Stmt> = Vec::new();
        let mut found = none_found();
        let mut k: usize = 0;
        while k < n
            invariant
                n == orig.len(),
                orig == gv@,
                k <= n,
                rest@ == orig.subrange(k as int, n as int),
                self.r_stmts(orig.subrange(0, k as int), out@),
                found == self.f_stmts(orig.subrange(0, k as int)),
            decreases n - k,
        {
            let ghost pre_out = out@;
            let x = rest.remove(0);
            proof {
                assert(x == orig[k as int]);
                assert(decreases_to!(gv => gv[k as int]));
            }
            let (x2, f) = self.walk_stmt(x);
            out.push(x2);
            found = merge(found, f);
            proof {
                assert(orig.subrange(0, k + 1).drop_last() =~= orig.subrange(0, k as int));
                assert(out@.drop_last() =~= pre_out);
                assert(rest@ =~= orig.subrange(k + 1, n as int));
            }
            k += 1;
        }
        assert(orig.subrange(0, n as int) =~= orig);
        (out, found)
    }

    #[verifier::loop_isolation(false)]
    pub fn walk_decls(&self, v: Vec<VarDeclarator>) -> (r: (Vec<VarDeclarator>, Findings))
        ensures
            self.r_decls(v@, r.0@),
            r.1 == self.f_decls(v@),
        decreases v,
    {
        let ghost gv = v;
        let ghost orig = v@;
        let n = v.len();
        let mut rest = v;
        let mut out: Vec<VarDeclarator> = Vec::new();
        let mut found = none_found();
        let mut k: usize = 0;
        while k < n
            invariant
                n == orig.len(),
                orig == gv@,
                k <= n,
                rest@ == orig.subrange(k as int, n as int),
                self.r_decls(orig.subrange(0, k as int), out@),
                found == self.f_decls(orig.subrange(0, k as int)),
            decreases n - k,
        {
            let ghost pre_out = out@;
            let x = rest.remove(0);
            proof {
                assert(x == orig[k as int]);
                assert(decreases_to!(gv => gv[k as int]));
            }
            let (x2, f) = self.walk_decl(x);
            out.push(x2);
            found = merge(found, f);
            proof {
                assert(orig.subrange(0, k + 1).drop_last() =~= orig.subrange(0, k as int));
                assert(out@.drop_last() =~= pre_out);
                assert(rest@ =~= orig.subrange(k + 1, n as int));
            }
            k += 1;
        }
        assert(orig.subrange(0, n as int) =~= orig);
        (out, found)
    }

    /// Walks one declarator; an arrow function bound to a plain name is a
    /// function of its own.
    pub fn walk_decl(&self, d: VarDeclarator) -> (r: (VarDeclarator, Findings))
        ensures
            self.r_decl(d, r.0),
            r.1 == self.f_decl(d),
        decreases d,
    {
        let VarDeclarator { name, init } = d;
        let reads = pat_reads_value(&name);
        match init {
            None => (VarDeclarator { name, init: None }, sig_found(reads)),
            Some(e) => {
                match name {
                    Pat::Ident(n) => match e {
                        Expr::Arrow(a) => {
                            let (a2, f) = self.walk_bound_arrow(&n, a);
                            (VarDeclarator { name: Pat::Ident(n), init: Some(Expr::Arrow(a2)) }, f)
                        },
                        other => {
                            let (e2, f) = self.walk_expr(other);
                            (VarDeclarator { name: Pat::Ident(n), init: Some(e2) }, merge(sig_found(reads), f))
                        },
                    },
                    other_name => {
                        let (e2, f) = self.walk_expr(e);
                        (VarDeclarator { name: other_name, init: Some(e2) }, merge(sig_found(reads), f))
                    },
                }
            },
        }
    }

    /// Walks an arrow function bound to `name`, and instruments it when the
    /// decision says so.
    pub fn walk_bound_arrow(&self, name: &String, a: ArrowExpr) -> (r: (ArrowExpr, Findings))
        ensures
            self.r_bound_arrow(name@, a, r.0),
            r.1 == self.f_bound_arrow(name@, a),
        decreases a,
    {
        let ghost ga = a;
        let ArrowExpr { lo, params, body } = a;
        let reads = pats_read_value(&params);
        let (b2, fb) = self.walk_arrow_body(body);
        let own = merge(sig_found(reads), fb);
        let info = self.function_info(name, lo, own);
        if self.should_transform(&info) {
            let ghost w = b2;
            let block: Vec<Stmt> = match b2 {
                ArrowBody::Block(st) => st,
                ArrowBody::Expr(x) => {
                    let mut st: Vec<Stmt> = Vec::new();
                    st.push(Stmt::Return(Some(*x)));
                    proof {
                        assert(st@ =~= as_block(w));
                    }
                    st
                },
            };
            proof {
                assert(block@ == as_block(w));
            }
            let nb = instrument_body(block, info.is_hook, self.options.uses_try_finally());
            let out = ArrowExpr { lo, params, body: ArrowBody::Block(nb) };
            proof {
                assert(self.r_arrow_body(ga.body, w));
                assert(self.r_arrow_block(ga.body, as_block(w)));
            }
            (out, sealed_found(true))
        } else {
            let out = ArrowExpr { lo, params, body: b2 };
            proof {
                assert(self.r_arrow_body(ga.body, out.body));
            }
            (out, sealed_found(own.instrumented))
        }
    }

    /// Walks a function declaration, and instruments it when the decision
    /// says so.
    pub fn walk_fn_decl(&self, fd: FnDecl) -> (r: (FnDecl, Findings))
        ensures
            self.r_fn_decl(fd, r.0),
            r.1 == self.f_fn_decl(fd),
        decreases fd,
    {
        let ghost gfd = fd;
        let FnDecl { ident, function } = fd;
        let Function { lo, params, body } = function;
        let reads = pats_read_value(&params);
        let (b2, fb) = match body {
            None => (None, none_found()),
            Some(b) => {
                let (x, f) = self.walk_stmts(b);
                (Some(x), f)
            },
        };
        let own = merge(sig_found(reads), fb);
        let info = self.function_info(&ident, lo, own);
        if self.should_transform(&info) {
            let w: Vec<Stmt> = match b2 {
                None => Vec::new(),
                Some(x) => x,
            };
            proof {
                assert(self.r_body(gfd.function.body, w@));
            }
            let nb = instrument_body(w, info.is_hook, self.options.uses_try_finally());
            let out = FnDecl { ident, function: Function { lo, params, body: Some(nb) } };
            (out, sealed_found(true))
        } else {
            let out = FnDecl { ident, function: Function { lo, params, body: b2 } };
            proof {
                assert(own == self.f_function(gfd.function));
            }
            (out, sealed_found(own.instrumented))
        }
    }
}


impl Pass {
    /// The module as the pass leaves it: its items walked, and the runtime
    /// import added when some function needs the entry point.
    pub open spec fn module_result(
        self,
        before: Seq<ModuleItem>,
        after: Seq<ModuleItem>,
        import_needed: bool,
    ) -> bool {
        exists|mid: Seq<ModuleItem>|
            #[trigger] self.r_items(before, mid) && if import_needed {
                with_runtime_import(mid, after, self.options.spec_import_source())
            } else {
                after == mid
            }
    }

    /// Walks the top-level items of a module.
    pub fn walk_items(&self, v: Vec<ModuleItem>) -> (r: (Vec<ModuleItem>, Findings))
        ensures
            self.r_items(v@, r.0@),
            r.1 == self.f_items(v@),
    {
        let ghost orig = v@;
        let n = v.len();
        let mut rest = v;
        let mut out: Vec<ModuleItem> = Vec::new();
        let mut found = none_found();
        let mut k: usize = 0;
        while k < n
            invariant
                n == orig.len(),
                k <= n,
                rest@ == orig.subrange(k as int, n as int),
                self.r_items(orig.subrange(0, k as int), out@),
                found == self.f_items(orig.subrange(0, k as int)),
            decreases n - k,
        {
            let ghost pre_out = out@;
            let x = rest.remove(0);
            proof {
                assert(x == orig[k as int]);
            }
            let (x2, f) = match x {
                ModuleItem::Import(d) => (ModuleItem::Import(d), none_found()),
                ModuleItem::Export(st) => {
                    let (s2, f) = self.walk_stmt(st);
                    (ModuleItem::Export(s2), f)
                },
                ModuleItem::Stmt(st) => {
                    let (s2, f) = self.walk_stmt(st);
                    (ModuleItem::Stmt(s2), f)
                },
            };
            out.push(x2);
            found = merge(found, f);
            proof {
                assert(orig.subrange(0, k + 1).drop_last() =~= orig.subrange(0, k as int));
                assert(out@.drop_last() =~= pre_out);
                assert(rest@ =~= orig.subrange(k + 1, n as int));
            }
            k += 1;
        }
        assert(orig.subrange(0, n as int) =~= orig);
        (out, found)
    }

}

impl TransformVisitor {
    /// Runs the pass over a module: learns the JSX factories when asked to,
    /// walks every item, and imports the runtime entry point when some
    /// function was instrumented.
    pub fn visit_mut_module(&mut self, module: &mut Module)
        ensures
            final(self).pass.options == old(self).pass.options,
            final(self).pass.comments == old(self).pass.comments,
            final(self).pass.opt_in == old(self).pass.opt_in,
            final(self).pass.opt_out == old(self).pass.opt_out,
            old(self).pass.options.spec_detect_jsx() ==> (forall|n: Seq<char>|
                #![trigger final(self).pass.jsx.has_ident(n)]
                final(self).pass.jsx.has_ident(n) <==> old(self).pass.jsx.has_ident(n)
                    || declares_jsx_ident(old(module).body@, n)),
            old(self).pass.options.spec_detect_jsx() ==> (forall|o: Seq<char>, m: Seq<char>|
                #![trigger final(self).pass.jsx.has_member(o, m)]
                final(self).pass.jsx.has_member(o, m) <==> old(self).pass.jsx.has_member(o, m)
                    || declares_jsx_object(old(module).body@, o, m)),
            !old(self).pass.options.spec_detect_jsx() ==> final(self).pass.jsx == old(self).pass.jsx,
            final(self).use_signals_ident is Some <==> (old(self).use_signals_ident is Some
                || final(self).pass.f_items(old(module).body@).instrumented),
            old(self).use_signals_ident is None && final(self).use_signals_ident is Some
                ==> final(self).use_signals_ident->Some_0@ == ENTRY_LOCAL@,
            final(self).pass.module_result(
                old(module).body@,
                final(module).body@,
                final(self).use_signals_ident is Some,
            ),
    {
        if self.pass.options.detects_jsx() {
            self.detect_jsx_imports(module);
        }
        let mut items: Vec<ModuleItem> = Vec::new();
        std::mem::swap(&mut items, &mut module.body);
        let ghost before = items@;
        let (out, found) = self.pass.walk_items(items);
        let ghost mid = out@;
        module.body = out;
        if found.instrumented && self.use_signals_ident.is_none() {
            self.use_signals_ident = Some(String::from_str(ENTRY_LOCAL));
        }
        if self.use_signals_ident.is_some() {
            let src = self.pass.options.resolved_import_source();
            add_runtime_import(&mut module.body, src);
        }
        assert(self.pass.r_items(before, mid));
    }
}

/// Runs the pass with `options` over `program`, with no comments at hand.
pub fn process_transform(program: Module, options: PluginOptions) -> (r: Module)
    ensures
        exists|p: Pass|
            {
                &&& p.options == options
                &&& p.comments is None
                &&& p.opt_in.pattern() == OPT_IN_COMMENT@
                &&& p.opt_out.pattern() == OPT_OUT_COMMENT@
                &&& forall|n: Seq<char>|
                    #![trigger p.jsx.has_ident(n)]
                    p.jsx.has_ident(n) <==> options.spec_detect_jsx() && declares_jsx_ident(
                        program.body@,
                        n,
                    )
                &&& forall|o: Seq<char>, m: Seq<char>|
                    #![trigger p.jsx.has_member(o, m)]
                    p.jsx.has_member(o, m) <==> options.spec_detect_jsx() && declares_jsx_object(
                        program.body@,
                        o,
                        m,
                    )
                &&& #[trigger] p.module_result(
                    program.body@,
                    r.body@,
                    p.f_items(program.body@).instrumented,
                )
            },
{
    let ghost items = program.body@;
    let mut visitor = TransformVisitor::new(options);
    let mut module = program;
    visitor.visit_mut_module(&mut module);
    let ghost p = visitor.pass;
    assert(p.module_result(items, module.body@, p.f_items(items).instrumented));
    assert forall|n: Seq<char>|
        #![trigger p.jsx.has_ident(n)]
        p.jsx.has_ident(n) <==> options.spec_detect_jsx() && declares_jsx_ident(items, n) by {}
    assert forall|o: Seq<char>, m: Seq<char>|
        #![trigger p.jsx.has_member(o, m)]
        p.jsx.has_member(o, m) <==> options.spec_detect_jsx() && declares_jsx_object(items, o, m) by {}
    module
}

/// A function declaration keeps what its own body reads and produces: the
/// function around it learns only whether something was instrumented.
pub proof fn declaration_findings_stay_inside(p: Pass, fd: FnDecl)
    ensures
        !p.f_fn_decl(fd).uses_signals,
        !p.f_fn_decl(fd).has_jsx,
{
}

/// An arrow function bound to a name keeps what its own body reads and
/// produces, as a declaration does.
pub proof fn bound_arrow_findings_stay_inside(p: Pass, name: Seq<char>, a: ArrowExpr)
    ensures
        !p.f_bound_arrow(name, a).uses_signals,
        !p.f_bound_arrow(name, a).has_jsx,
{
}

/// A function declaration with an opt-out comment is not instrumented: the
/// walk only walks its body, whatever the mode and the evidence.
pub proof fn opt_out_declaration_is_only_walked(p: Pass, fd: FnDecl, o: FnDecl)
    requires
        marked(p.comments, fd.function.lo, p.opt_out.pattern()),
        p.r_fn_decl(fd, o),
    ensures
        o.ident == fd.ident,
        p.r_function(fd.function, o.function),
{
}

/// In `manual` mode, a function declaration with an opt-in comment and no
/// opt-out comment is instrumented, whatever it reads.
pub proof fn opt_in_declaration_is_instrumented(p: Pass, fd: FnDecl, o: FnDecl)
    requires
        p.options.spec_mode() == Mode::Manual,
        marked(p.comments, fd.function.lo, p.opt_in.pattern()),
        !marked(p.comments, fd.function.lo, p.opt_out.pattern()),
        p.r_fn_decl(fd, o),
    ensures
        o.ident == fd.ident,
        o.function.lo == fd.function.lo,
        o.function.params == fd.function.params,
        o.function.body is Some,
        instrumented(
            wrapped_body(o.function.body->Some_0@, p.options.spec_try_finally()),
            o.function.body->Some_0@,
            hook_name(fd.ident@),
            p.options.spec_try_finally(),
        ),
        p.r_body(
            fd.function.body,
            wrapped_body(o.function.body->Some_0@, p.options.spec_try_finally()),
        ),
{
}

/// An arrow function bound to a name keeps its binding form: the declarator
/// keeps its name, and its initializer stays an arrow with the same position
/// and parameters.
pub proof fn bound_arrow_keeps_binding(p: Pass, d: VarDeclarator, o: VarDeclarator)
    requires
        d.name is Ident,
        d.init is Some,
        d.init->Some_0 is Arrow,
        p.r_decl(d, o),
    ensures
        o.name == d.name,
        o.init is Some,
        o.init->Some_0 is Arrow,
        o.init->Some_0->Arrow_0.lo == d.init->Some_0->Arrow_0.lo,
        o.init->Some_0->Arrow_0.params == d.init->Some_0->Arrow_0.params,
{
}

/// Walking keeps every top-level import as it is.
pub proof fn walk_keeps_imports(p: Pass, s: Seq<ModuleItem>, t: Seq<ModuleItem>, src: Seq<char>)
    requires
        p.r_items(s, t),
        imports_from(s, src),
    ensures
        imports_from(t, src),
    decreases s.len(),
{
    let i = choose|i: int| 0 <= i < s.len() && #[trigger] import_source_is(s[i], src);
    if i == s.len() - 1 {
        assert(import_source_is(t[i], src));
    } else {
        assert(s.drop_last()[i] == s[i]);
        walk_keeps_imports(p, s.drop_last(), t.drop_last(), src);
        let j = choose|j: int|
            0 <= j < t.drop_last().len() && #[trigger] import_source_is(t.drop_last()[j], src);
        assert(t.drop_last()[j] == t[j]);
    }
}

/// Running the pass on a module that already imports from the runtime's
/// source adds no second import: the module keeps its number of items.
pub proof fn pass_adds_no_second_import(
    p: Pass,
    before: Seq<ModuleItem>,
    after: Seq<ModuleItem>,
    needed: bool,
)
    requires
        p.module_result(before, after, needed),
        imports_from(before, p.options.spec_import_source()),
    ensures
        after.len() == before.len(),
{
    let mid = choose|mid: Seq<ModuleItem>|
        #[trigger] p.r_items(before, mid) && if needed {
            with_runtime_import(mid, after, p.options.spec_import_source())
        } else {
            after == mid
        };
    walk_keeps_imports(p, before, mid, p.options.spec_import_source());
}

/// After a run that needed the entry point, the module imports from the
/// runtime's source; so a second run (by `pass_adds_no_second_import`) adds
/// no second import.
pub proof fn pass_leaves_runtime_import(p: Pass, before: Seq<ModuleItem>, after: Seq<ModuleItem>)
    requires
        p.module_result(before, after, true),
    ensures
        imports_from(after, p.options.spec_import_source()),
{
    let src = p.options.spec_import_source();
    let mid = choose|mid: Seq<ModuleItem>|
        #[trigger] p.r_items(before, mid) && with_runtime_import(mid, after, src);
    if !imports_from(mid, src) {
        assert(import_source_is(after[0], src));
    }
}

} // verus!
