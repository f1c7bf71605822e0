//! Which imported names build JSX elements when the markup was already
//! compiled to calls.
use vstd::prelude::*;
use crate::ast::{ImportDecl, ImportSpecifier, ModuleItem};
use crate::text::str_eq;

verus! {

/// The JSX factories that each known source exports: `jsx` and `jsxs` from
/// the JSX runtime, `jsxDEV` from its development build, `createElement`
/// from the library itself.
pub open spec fn jsx_source_method(src: Seq<char>, name: Seq<char>) -> bool {
    ||| src == "react/jsx-runtime"@ && (name == "jsx"@ || name == "jsxs"@)
    ||| src == "react/jsx-dev-runtime"@ && name == "jsxDEV"@
    ||| src == "react"@ && name == "createElement"@
}

/// Whether `name`, exported by `src`, builds JSX elements.
pub fn is_jsx_source_method(src: &str, name: &str) -> (r: bool)
    ensures
        r == jsx_source_method(src@, name@),
{
    proof {
        reveal_strlit("react/jsx-runtime");
        reveal_strlit("react/jsx-dev-runtime");
        reveal_strlit("react");
        assert("react/jsx-runtime"@.len() == 17);
        assert("react/jsx-dev-runtime"@.len() == 21);
        assert("react"@.len() == 5);
    }
    if str_eq(src, "react/jsx-runtime") {
        str_eq(name, "jsx") || str_eq(name, "jsxs")
    } else if str_eq(src, "react/jsx-dev-runtime") {
        str_eq(name, "jsxDEV")
    } else if str_eq(src, "react") {
        str_eq(name, "createElement")
    } else {
        false
    }
}

/// Whether `src` is one of the known sources of JSX factories.
pub open spec fn jsx_source(src: Seq<char>) -> bool {
    src == "react/jsx-runtime"@ || src == "react/jsx-dev-runtime"@ || src == "react"@
}

/// The name that a named import takes from its module.
pub open spec fn imported_name(local: String, imported: Option<String>) -> Seq<char> {
    match imported {
        Some(i) => i@,
        None => local@,
    }
}

/// Binding `j` of `d` imports a JSX factory under the local name `name`.
pub open spec fn named_jsx(d: ImportDecl, j: int, name: Seq<char>) -> bool {
    0 <= j < d.specifiers@.len() && match d.specifiers@[j] {
        ImportSpecifier::Named { local, imported } => local@ == name && jsx_source_method(
            d.src@,
            imported_name(local, imported),
        ),
        _ => false,
    }
}

/// Binding `j` of `d` imports a module of JSX factories as the object `obj`,
/// and `method` is one of those factories.
pub open spec fn object_jsx(d: ImportDecl, j: int, obj: Seq<char>, method: Seq<char>) -> bool {
    0 <= j < d.specifiers@.len() && match d.specifiers@[j] {
        ImportSpecifier::Default(l) => l@ == obj && jsx_source_method(d.src@, method),
        ImportSpecifier::Namespace(l) => l@ == obj && jsx_source_method(d.src@, method),
        _ => false,
    }
}

pub open spec fn item_named_jsx(it: ModuleItem, j: int, name: Seq<char>) -> bool {
    match it {
        ModuleItem::Import(d) => named_jsx(d, j, name),
        _ => false,
    }
}

pub open spec fn item_object_jsx(it: ModuleItem, j: int, obj: Seq<char>, method: Seq<char>) -> bool {
    match it {
        ModuleItem::Import(d) => object_jsx(d, j, obj, method),
        _ => false,
    }
}

/// Some top-level import of `items` binds `name` to a JSX factory.
pub open spec fn declares_jsx_ident(items: Seq<ModuleItem>, name: Seq<char>) -> bool {
    exists|i: int, j: int| 0 <= i < items.len() && #[trigger] item_named_jsx(items[i], j, name)
}

/// Some top-level import of `items` binds `obj` to a module whose `method`
/// builds JSX elements.
pub open spec fn declares_jsx_object(items: Seq<ModuleItem>, obj: Seq<char>, method: Seq<char>) -> bool {
    exists|i: int, j: int|
        0 <= i < items.len() && #[trigger] item_object_jsx(items[i], j, obj, method)
}

/// The local names and `object.method` pairs known to build JSX elements.
#[derive(Clone, Debug)]
pub struct JsxRegistry {
    pub identifiers: Vec<String>,
    pub members: Vec<(String, String)>,
}

impl JsxRegistry {
    pub open spec fn has_ident(&self, name: Seq<char>) -> bool {
        exists|k: int| 0 <= k < self.identifiers@.len() && #[trigger] self.identifiers@[k]@ == name
    }

    pub open spec fn has_member(&self, obj: Seq<char>, method: Seq<char>) -> bool {
        exists|k: int|
            0 <= k < self.members@.len() && #[trigger] self.members@[k].0@ == obj
                && self.members@[k].1@ == method
    }

    pub fn new() -> (r: JsxRegistry)
        ensures
            forall|n: Seq<char>| !r.has_ident(n),
            forall|o: Seq<char>, m: Seq<char>| !r.has_member(o, m),
    {
        JsxRegistry { identifiers: Vec::new(), members: Vec::new() }
    }

    /// Whether `name` is a local name of a JSX factory.
    pub fn contains_ident(&self, name: &str) -> (r: bool)
        ensures
            r == self.has_ident(name@),
    {
        let mut k: usize = 0;
        while k < self.identifiers.len()
            invariant
                k <= self.identifiers@.len(),
                forall|q: int| 0 <= q < k ==> self.identifiers@[q]@ != name@,
            decreases self.identifiers.len() - k,
        {
            if str_eq(self.identifiers[k].as_str(), name) {
                return true;
            }
            k += 1;
        }
        false
    }

    /// Whether `obj.method` builds JSX elements.
    pub fn contains_member(&self, obj: &str, method: &str) -> (r: bool)
        ensures
            r == self.has_member(obj@, method@),
    {
        let mut k: usize = 0;
        while k < self.members.len()
            invariant
                k <= self.members@.len(),
                forall|q: int|
                    0 <= q < k ==> !(self.members@[q].0@ == obj@ && self.members@[q].1@ == method@),
            decreases self.members.len() - k,
        {
            if str_eq(self.members[k].0.as_str(), obj) && str_eq(self.members[k].1.as_str(), method) {
                return true;
            }
            k += 1;
        }
        false
    }

    fn add_ident(&mut self, name: &String)
        ensures
            forall|n: Seq<char>| #![trigger final(self).has_ident(n)] final(self).has_ident(n) <==> old(self).has_ident(n) || n == name@,
            forall|o: Seq<char>, m: Seq<char>|
                #![trigger final(self).has_member(o, m)]
                final(self).has_member(o, m) <==> old(self).has_member(o, m),
    {
        let ghost pre = *self;
        self.identifiers.push(name.clone());
        assert forall|n: Seq<char>| #![trigger self.has_ident(n)] self.has_ident(n) <==> pre.has_ident(n) || n == name@ by {
            if pre.has_ident(n) {
                let k = choose|k: int| 0 <= k < pre.identifiers@.len() && #[trigger] pre.identifiers@[k]@ == n;
                assert(self.identifiers@[k]@ == n);
            }
            if n == name@ {
                assert(self.identifiers@[pre.identifiers@.len() as int]@ == n);
            }
            if self.has_ident(n) {
                let k = choose|k: int| 0 <= k < self.identifiers@.len() && #[trigger] self.identifiers@[k]@ == n;
                if k < pre.identifiers@.len() {
                    assert(pre.identifiers@[k]@ == n);
                }
            }
        }
        assert forall|o: Seq<char>, m: Seq<char>| #![trigger self.has_member(o, m)] self.has_member(o, m) <==> pre.has_member(o, m) by {
            assert(self.members@ == pre.members@);
        }
    }

    fn add_member(&mut self, obj: &String, method: &str)
        ensures
            forall|n: Seq<char>| #![trigger final(self).has_ident(n)] final(self).has_ident(n) <==> old(self).has_ident(n),
            forall|o: Seq<char>, m: Seq<char>|
                #![trigger final(self).has_member(o, m)]
                final(self).has_member(o, m) <==> old(self).has_member(o, m) || (o == obj@ && m
                    == method@),
    {
        let ghost pre = *self;
        self.members.push((obj.clone(), method.to_owned()));
        assert forall|o: Seq<char>, m: Seq<char>|
            #![trigger self.has_member(o, m)]
            self.has_member(o, m) <==> pre.has_member(o, m) || (o == obj@ && m == method@) by {
            if pre.has_member(o, m) {
                let k = choose|k: int|
                    0 <= k < pre.members@.len() && #[trigger] pre.members@[k].0@ == o
                        && pre.members@[k].1@ == m;
                assert(self.members@[k] == pre.members@[k]);
            }
            if o == obj@ && m == method@ {
                assert(self.members@[pre.members@.len() as int].0@ == o);
            }
            if self.has_member(o, m) {
                let k = choose|k: int|
                    0 <= k < self.members@.len() && #[trigger] self.members@[k].0@ == o
                        && self.members@[k].1@ == m;
                if k < pre.members@.len() {
                    assert(pre.members@[k] == self.members@[k]);
                }
            }
        }
        assert forall|n: Seq<char>| #![trigger self.has_ident(n)] self.has_ident(n) <==> pre.has_ident(n) by {
            assert(self.identifiers@ == pre.identifiers@);
        }
    }
}


/// The JSX factories that `src` exports.
fn source_methods(src: &str) -> (r: Vec<&'static str>)
    ensures
        forall|m: Seq<char>|
            (exists|k: int| 0 <= k < r@.len() && #[trigger] r@[k]@ == m) <==> jsx_source_method(
                src@,
                m,
            ),
{
    proof {
        reveal_strlit("react/jsx-runtime");
        reveal_strlit("react/jsx-dev-runtime");
        reveal_strlit("react");
        assert("react/jsx-runtime"@.len() == 17);
        assert("react/jsx-dev-runtime"@.len() == 21);
        assert("react"@.len() == 5);
    }
    let mut r: Vec<&'static str> = Vec::new();
    if str_eq(src, "react/jsx-runtime") {
        r.push("jsx");
        r.push("jsxs");
        assert forall|m: Seq<char>|
            (exists|k: int| 0 <= k < r@.len() && #[trigger] r@[k]@ == m) <==> jsx_source_method(
                src@,
                m,
            ) by {
            if m == "jsx"@ {
                assert(r@[0]@ == m);
            }
            if m == "jsxs"@ {
                assert(r@[1]@ == m);
            }
        }
    } else if str_eq(src, "react/jsx-dev-runtime") {
        r.push("jsxDEV");
        assert forall|m: Seq<char>|
            (exists|k: int| 0 <= k < r@.len() && #[trigger] r@[k]@ == m) <==> jsx_source_method(
                src@,
                m,
            ) by {
            if m == "jsxDEV"@ {
                assert(r@[0]@ == m);
            }
        }
    } else if str_eq(src, "react") {
        r.push("createElement");
        assert forall|m: Seq<char>|
            (exists|k: int| 0 <= k < r@.len() && #[trigger] r@[k]@ == m) <==> jsx_source_method(
                src@,
                m,
            ) by {
            if m == "createElement"@ {
                assert(r@[0]@ == m);
            }
        }
    }
    r
}

impl JsxRegistry {
    fn add_object(&mut self, obj: &String, methods: &Vec<&'static str>)
        ensures
            forall|n: Seq<char>| #![trigger final(self).has_ident(n)] final(self).has_ident(n) <==> old(self).has_ident(n),
            forall|o: Seq<char>, m: Seq<char>|
                #![trigger final(self).has_member(o, m)]
                final(self).has_member(o, m) <==> old(self).has_member(o, m) || (o == obj@ && exists|
                    k: int,
                | 0 <= k < methods@.len() && #[trigger] methods@[k]@ == m),
    {
        let ghost pre = *self;
        let mut t: usize = 0;
        while t < methods.len()
            invariant
                t <= methods@.len(),
                forall|n: Seq<char>| #![trigger self.has_ident(n)] self.has_ident(n) <==> pre.has_ident(n),
                forall|o: Seq<char>, m: Seq<char>|
                    #![trigger self.has_member(o, m)]
                    self.has_member(o, m) <==> pre.has_member(o, m) || (o == obj@ && exists|k: int|
                        0 <= k < t && #[trigger] methods@[k]@ == m),
            decreases methods.len() - t,
        {
            let ghost mid = *self;
            self.add_member(obj, methods[t]);
            assert forall|o: Seq<char>, m: Seq<char>|
                #![trigger self.has_member(o, m)]
                self.has_member(o, m) <==> pre.has_member(o, m) || (o == obj@ && exists|k: int|
                    0 <= k < t + 1 && #[trigger] methods@[k]@ == m) by {
                if o == obj@ && m == methods@[t as int]@ {
                    assert(methods@[t as int]@ == m);
                }
                if o == obj@ && exists|k: int| 0 <= k < t + 1 && #[trigger] methods@[k]@ == m {
                    let k = choose|k: int| 0 <= k < t + 1 && #[trigger] methods@[k]@ == m;
                    if k < t {
                        assert(mid.has_member(o, m));
                    }
                }
                if mid.has_member(o, m) && !pre.has_member(o, m) {
                    let k = choose|k: int| 0 <= k < t && #[trigger] methods@[k]@ == m;
                    assert(0 <= k < t + 1 && methods@[k]@ == m);
                }
            }
            t += 1;
        }
    }

    /// Records the JSX factories that one import declaration binds.
    pub fn register_import(&mut self, d: &ImportDecl)
        ensures
            forall|n: Seq<char>|
                #![trigger final(self).has_ident(n)]
                final(self).has_ident(n) <==> old(self).has_ident(n) || exists|j: int|
                    #[trigger] named_jsx(*d, j, n),
            forall|o: Seq<char>, m: Seq<char>|
                #![trigger final(self).has_member(o, m)]
                final(self).has_member(o, m) <==> old(self).has_member(o, m) || exists|j: int|
                    #[trigger] object_jsx(*d, j, o, m),
    {
        let ghost pre = *self;
        let methods = source_methods(d.src.as_str());
        let mut j: usize = 0;
        while j < d.specifiers.len()
            invariant
                j <= d.specifiers@.len(),
                forall|m: Seq<char>|
                    (exists|k: int| 0 <= k < methods@.len() && #[trigger] methods@[k]@ == m)
                        <==> jsx_source_method(d.src@, m),
                forall|n: Seq<char>|
                    #![trigger self.has_ident(n)]
                    self.has_ident(n) <==> pre.has_ident(n) || exists|q: int|
                        0 <= q < j && #[trigger] named_jsx(*d, q, n),
                forall|o: Seq<char>, m: Seq<char>|
                    #![trigger self.has_member(o, m)]
                    self.has_member(o, m) <==> pre.has_member(o, m) || exists|q: int|
                        0 <= q < j && #[trigger] object_jsx(*d, q, o, m),
            decreases d.specifiers.len() - j,
        {
            let ghost mid = *self;
            match &d.specifiers[j] {
                ImportSpecifier::Named { local, imported } => {
                    let name: &str = match imported {
                        Some(i) => i.as_str(),
                        None => local.as_str(),
                    };
                    if is_jsx_source_method(d.src.as_str(), name) {
                        self.add_ident(local);
                    }
                },
                ImportSpecifier::Default(l) => {
                    self.add_object(l, &methods);
                },
                ImportSpecifier::Namespace(l) => {
                    self.add_object(l, &methods);
                },
            }
            assert forall|n: Seq<char>|
                #![trigger self.has_ident(n)]
                self.has_ident(n) <==> pre.has_ident(n) || exists|q: int|
                    0 <= q < j + 1 && #[trigger] named_jsx(*d, q, n) by {
                if exists|q: int| 0 <= q < j + 1 && #[trigger] named_jsx(*d, q, n) {
                    let q = choose|q: int| 0 <= q < j + 1 && #[trigger] named_jsx(*d, q, n);
                    if q < j {
                        assert(mid.has_ident(n));
                    }
                }
                if mid.has_ident(n) && !pre.has_ident(n) {
                    let q = choose|q: int| 0 <= q < j && #[trigger] named_jsx(*d, q, n);
                    assert(0 <= q < j + 1 && named_jsx(*d, q, n));
                }
                if self.has_ident(n) && !mid.has_ident(n) {
                    assert(named_jsx(*d, j as int, n));
                }
            }
            assert forall|o: Seq<char>, m: Seq<char>|
                #![trigger self.has_member(o, m)]
                self.has_member(o, m) <==> pre.has_member(o, m) || exists|q: int|
                    0 <= q < j + 1 && #[trigger] object_jsx(*d, q, o, m) by {
                if exists|q: int| 0 <= q < j + 1 && #[trigger] object_jsx(*d, q, o, m) {
                    let q = choose|q: int| 0 <= q < j + 1 && #[trigger] object_jsx(*d, q, o, m);
                    if q < j {
                        assert(mid.has_member(o, m));
                    } else {
                        let k = choose|k: int|
                            0 <= k < methods@.len() && #[trigger] methods@[k]@ == m;
                    }
                }
                if mid.has_member(o, m) && !pre.has_member(o, m) {
                    let q = choose|q: int| 0 <= q < j && #[trigger] object_jsx(*d, q, o, m);
                    assert(0 <= q < j + 1 && object_jsx(*d, q, o, m));
                }
                if self.has_member(o, m) && !mid.has_member(o, m) {
                    assert(object_jsx(*d, j as int, o, m));
                }
            }
            j += 1;
        }
    }

    /// Records the JSX factories that the top-level imports of `items` bind.
    pub fn register_module(&mut self, items: &Vec<ModuleItem>)
        ensures
            forall|n: Seq<char>|
                #![trigger final(self).has_ident(n)]
                final(self).has_ident(n) <==> old(self).has_ident(n) || declares_jsx_ident(items@, n),
            forall|o: Seq<char>, m: Seq<char>|
                #![trigger final(self).has_member(o, m)]
                final(self).has_member(o, m) <==> old(self).has_member(o, m) || declares_jsx_object(
                    items@,
                    o,
                    m,
                ),
    {
        let ghost pre = *self;
        let mut i: usize = 0;
        while i < items.len()
            invariant
                i <= items@.len(),
                forall|n: Seq<char>|
                    #![trigger self.has_ident(n)]
                    self.has_ident(n) <==> pre.has_ident(n) || declares_jsx_ident(
                        items@.subrange(0, i as int),
                        n,
                    ),
                forall|o: Seq<char>, m: Seq<char>|
                    #![trigger self.has_member(o, m)]
                    self.has_member(o, m) <==> pre.has_member(o, m) || declares_jsx_object(
                        items@.subrange(0, i as int),
                        o,
                        m,
                    ),
            decreases items.len() - i,
        {
            let ghost before = items@.subrange(0, i as int);
            let ghost after = items@.subrange(0, i + 1);
            let ghost mid = *self;
            match &items[i] {
                ModuleItem::Import(d) => {
                    self.register_import(d);
                },
                _ => {},
            }
            assert forall|n: Seq<char>|
                #![trigger self.has_ident(n)]
                self.has_ident(n) <==> pre.has_ident(n) || declares_jsx_ident(after, n) by {
                if declares_jsx_ident(before, n) {
                    let (a, b) = choose|a: int, b: int|
                        0 <= a < before.len() && #[trigger] item_named_jsx(before[a], b, n);
                    assert(after[a] == before[a]);
                }
                if declares_jsx_ident(after, n) {
                    let (a, b) = choose|a: int, b: int|
                        0 <= a < after.len() && #[trigger] item_named_jsx(after[a], b, n);
                    if a < i {
                        assert(after[a] == before[a]);
                    } else {
                        assert(after[a] == items@[i as int]);
                    }
                }
                if mid.has_ident(n) != self.has_ident(n) {
                    let d = items@[i as int]->Import_0;
                    let b = choose|b: int| #[trigger] named_jsx(d, b, n);
                    assert(item_named_jsx(after[i as int], b, n));
                }
            }
            assert forall|o: Seq<char>, m: Seq<char>|
                #![trigger self.has_member(o, m)]
                self.has_member(o, m) <==> pre.has_member(o, m) || declares_jsx_object(after, o, m) by {
                if declares_jsx_object(before, o, m) {
                    let (a, b) = choose|a: int, b: int|
                        0 <= a < before.len() && #[trigger] item_object_jsx(before[a], b, o, m);
                    assert(after[a] == before[a]);
                }
                if declares_jsx_object(after, o, m) {
                    let (a, b) = choose|a: int, b: int|
                        0 <= a < after.len() && #[trigger] item_object_jsx(after[a], b, o, m);
                    if a < i {
                        assert(after[a] == before[a]);
                    } else {
                        assert(after[a] == items@[i as int]);
                    }
                }
                if mid.has_member(o, m) != self.has_member(o, m) {
                    let d = items@[i as int]->Import_0;
                    let b = choose|b: int| #[trigger] object_jsx(d, b, o, m);
                    assert(item_object_jsx(after[i as int], b, o, m));
                }
            }
            i += 1;
        }
        assert(items@.subrange(0, items@.len() as int) == items@);
    }
}

} // verus!
