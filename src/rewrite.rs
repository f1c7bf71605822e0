//! The instrumented shape of a function body, and the import of the runtime
//! entry point.
use vstd::prelude::*;
use crate::ast::{
    Expr, ImportDecl, ImportSpecifier, Lit, MemberProp, ModuleItem, Pat, Stmt, VarDecl,
    VarDeclKind, VarDeclarator,
};
use crate::options::IMPORT_NAME;
use crate::text::str_eq;

verus! {

/// The local name of the runtime entry point.
pub const ENTRY_LOCAL: &'static str = "_useSignals";

/// The local name that holds the tracking scope in a guarded body.
pub const EFFECT_LOCAL: &'static str = "_effect";

/// `e` names the runtime entry point.
pub open spec fn is_entry_ident(e: Expr) -> bool {
    match e {
        Expr::Ident(s) => s@ == ENTRY_LOCAL@,
        _ => false,
    }
}

/// `e` names the local tracking scope.
pub open spec fn is_effect_ident(e: Expr) -> bool {
    match e {
        Expr::Ident(s) => s@ == EFFECT_LOCAL@,
        _ => false,
    }
}

/// The argument that tells the runtime what kind of function it serves:
/// `"2"` for a hook, `"1"` for anything else.
pub open spec fn usage_tag(is_hook: bool) -> Seq<char> {
    if is_hook {
        "2"@
    } else {
        "1"@
    }
}

/// `_useSignals();`
pub open spec fn is_bare_call(s: Stmt) -> bool {
    match s {
        Stmt::Expr(Expr::Call { callee, args }) => is_entry_ident(*callee) && args@.len() == 0,
        _ => false,
    }
}

/// `_useSignals("1")` or `_useSignals("2")`.
pub open spec fn is_tagged_call(e: Expr, is_hook: bool) -> bool {
    match e {
        Expr::Call { callee, args } => is_entry_ident(*callee) && args@.len() == 1 && match args@[0] {
            Expr::Lit(Lit::Str(t)) => t@ == usage_tag(is_hook),
            _ => false,
        },
        _ => false,
    }
}

/// `var _effect = _useSignals(tag);`
pub open spec fn is_effect_decl(s: Stmt, is_hook: bool) -> bool {
    match s {
        Stmt::Var(d) => d.kind == VarDeclKind::Var && d.decls@.len() == 1 && match d.decls@[0].name {
            Pat::Ident(n) => n@ == EFFECT_LOCAL@,
            _ => false,
        } && match d.decls@[0].init {
            Some(e) => is_tagged_call(e, is_hook),
            None => false,
        },
        _ => false,
    }
}

/// `_effect.f();`
pub open spec fn is_effect_finish(s: Stmt) -> bool {
    match s {
        Stmt::Expr(Expr::Call { callee, args }) => args@.len() == 0 && match *callee {
            Expr::Member { obj, prop } => is_effect_ident(*obj) && match prop {
                MemberProp::Ident(p) => p@ == "f"@,
                _ => false,
            },
            _ => false,
        },
        _ => false,
    }
}

/// `try { body } finally { _effect.f(); }`
pub open spec fn is_guard(s: Stmt, body: Seq<Stmt>) -> bool {
    match s {
        Stmt::Try { block, handler, finalizer } => block@ == body && handler is None && match finalizer {
            Some(f) => f@.len() == 1 && is_effect_finish(f@[0]),
            None => false,
        },
        _ => false,
    }
}

/// `out` is `body` instrumented: guarded by try/finally, or with a bare call
/// in front.
pub open spec fn instrumented(body: Seq<Stmt>, out: Seq<Stmt>, is_hook: bool, guarded: bool) -> bool {
    if guarded {
        out.len() == 2 && is_effect_decl(out[0], is_hook) && is_guard(out[1], body)
    } else {
        out.len() == body.len() + 1 && is_bare_call(out[0]) && out.subrange(1, out.len() as int)
            == body
    }
}

/// The body that an instrumented `out` wraps.
pub open spec fn wrapped_body(out: Seq<Stmt>, guarded: bool) -> Seq<Stmt> {
    if guarded {
        match out[1] {
            Stmt::Try { block, handler, finalizer } => block@,
            _ => Seq::empty(),
        }
    } else {
        out.subrange(1, out.len() as int)
    }
}

fn entry_ident() -> (r: Expr)
    ensures
        is_entry_ident(r),
{
    Expr::Ident(String::from_str(ENTRY_LOCAL))
}

fn effect_ident() -> (r: Expr)
    ensures
        is_effect_ident(r),
{
    Expr::Ident(String::from_str(EFFECT_LOCAL))
}

/// Instruments a function body: with `guarded`, binds a tracking scope and
/// closes it in a `finally`; else calls the entry point before the body.
pub fn instrument_body(body: Vec<Stmt>, is_hook: bool, guarded: bool) -> (r: Vec<Stmt>)
    ensures
        instrumented(body@, r@, is_hook, guarded),
        wrapped_body(r@, guarded) == body@,
{
    let ghost b = body@;
    let mut out: Vec<Stmt> = Vec::new();
    if guarded {
        let tag = if is_hook {
            "2"
        } else {
            "1"
        };
        let mut args: Vec<Expr> = Vec::new();
        args.push(Expr::Lit(Lit::Str(String::from_str(tag))));
        let call = Expr::Call { callee: Box::new(entry_ident()), args };
        let mut decls: Vec<VarDeclarator> = Vec::new();
        decls.push(
            VarDeclarator { name: Pat::Ident(String::from_str(EFFECT_LOCAL)), init: Some(call) },
        );
        out.push(Stmt::Var(VarDecl { kind: VarDeclKind::Var, decls }));
        let finish = Stmt::Expr(
            Expr::Call {
                callee: Box::new(
                    Expr::Member {
                        obj: Box::new(effect_ident()),
                        prop: MemberProp::Ident(String::from_str("f")),
                    },
                ),
                args: Vec::new(),
            },
        );
        let mut fin: Vec<Stmt> = Vec::new();
        fin.push(finish);
        out.push(Stmt::Try { block: body, handler: None, finalizer: Some(fin) });
    } else {
        out.push(Stmt::Expr(Expr::Call { callee: Box::new(entry_ident()), args: Vec::new() }));
        let mut rest = body;
        out.append(&mut rest);
        assert(out@.subrange(1, out@.len() as int) =~= b);
    }
    out
}

/// Some top-level import of `items` comes from `src`.
pub open spec fn imports_from(items: Seq<ModuleItem>, src: Seq<char>) -> bool {
    exists|i: int| 0 <= i < items.len() && #[trigger] import_source_is(items[i], src)
}

pub open spec fn import_source_is(it: ModuleItem, src: Seq<char>) -> bool {
    match it {
        ModuleItem::Import(d) => d.src@ == src,
        _ => false,
    }
}

/// `import { useSignals as _useSignals } from "src";`
pub open spec fn is_runtime_import(it: ModuleItem, src: Seq<char>) -> bool {
    match it {
        ModuleItem::Import(d) => d.src@ == src && d.specifiers@.len() == 1 && match d.specifiers@[0] {
            ImportSpecifier::Named { local, imported } => local@ == ENTRY_LOCAL@ && match imported {
                Some(i) => i@ == IMPORT_NAME@,
                None => false,
            },
            _ => false,
        },
        _ => false,
    }
}

/// `after` is `before` with the runtime import at its head, unless `before`
/// already imports from `src`.
pub open spec fn with_runtime_import(before: Seq<ModuleItem>, after: Seq<ModuleItem>, src: Seq<char>) -> bool {
    if imports_from(before, src) {
        after == before
    } else {
        after.len() == before.len() + 1 && is_runtime_import(after[0], src) && after.subrange(
            1,
            after.len() as int,
        ) == before
    }
}

/// Whether some top-level import of `items` comes from `src`.
pub fn has_import_from(items: &Vec<ModuleItem>, src: &str) -> (r: bool)
    ensures
        r == imports_from(items@, src@),
{
    let mut i: usize = 0;
    while i < items.len()
        invariant
            i <= items@.len(),
            forall|q: int| 0 <= q < i ==> !#[trigger] import_source_is(items@[q], src@),
        decreases items.len() - i,
    {
        match &items[i] {
            ModuleItem::Import(d) => {
                if str_eq(d.src.as_str(), src) {
                    assert(import_source_is(items@[i as int], src@));
                    return true;
                }
            },
            _ => {},
        }
        i += 1;
    }
    false
}

/// Puts the import of the runtime entry point at the head of `items`, unless
/// some import from `src` is there already.
pub fn add_runtime_import(items: &mut Vec<ModuleItem>, src: &str)
    ensures
        with_runtime_import(old(items)@, final(items)@, src@),
{
    if has_import_from(items, src) {
        return;
    }
    let mut specifiers: Vec<ImportSpecifier> = Vec::new();
    specifiers.push(
        ImportSpecifier::Named {
            local: String::from_str(ENTRY_LOCAL),
            imported: Some(String::from_str(IMPORT_NAME)),
        },
    );
    let decl = ImportDecl { specifiers, src: src.to_owned() };
    items.insert(0, ModuleItem::Import(decl));
    assert(final(items)@.subrange(1, final(items)@.len() as int) =~= old(items)@);
}

/// Adding the runtime import to a module that has had it added already
/// changes nothing: a module never holds two of them.
pub proof fn runtime_import_once(
    a: Seq<ModuleItem>,
    b: Seq<ModuleItem>,
    c: Seq<ModuleItem>,
    src: Seq<char>,
)
    requires
        with_runtime_import(a, b, src),
        with_runtime_import(b, c, src),
    ensures
        c == b,
{
    if !imports_from(a, src) {
        assert(import_source_is(b[0], src));
    } else {
        let i = choose|i: int| 0 <= i < a.len() && #[trigger] import_source_is(a[i], src);
        assert(import_source_is(b[i], src));
    }
}

} // verus!
