//! The shapes that count as reading a reactive value, and as producing markup.
use vstd::prelude::*;
use crate::ast::{Expr, Lit, MemberProp, ObjectPat, ObjectPatProp, Pat, PropName};
use crate::text::str_eq;

verus! {

/// A member access reads `value`, by name or by a constant string key.
pub open spec fn reads_value_prop(prop: MemberProp) -> bool {
    match prop {
        MemberProp::Ident(s) => s@ == "value"@,
        MemberProp::Computed(e) => match *e {
            Expr::Lit(Lit::Str(s)) => s@ == "value"@,
            _ => false,
        },
        MemberProp::Private(_) => false,
    }
}

/// `e` is a member access that reads `value`.
pub open spec fn reads_value_member(e: Expr) -> bool {
    match e {
        Expr::Member { obj, prop } => reads_value_prop(prop),
        _ => false,
    }
}

pub fn is_value_prop(prop: &MemberProp) -> (r: bool)
    ensures
        r == reads_value_prop(*prop),
{
    match prop {
        MemberProp::Ident(s) => str_eq(s.as_str(), "value"),
        MemberProp::Computed(e) => match &**e {
            Expr::Lit(Lit::Str(s)) => str_eq(s.as_str(), "value"),
            _ => false,
        },
        MemberProp::Private(_) => false,
    }
}

/// A destructuring key names `value`.
pub open spec fn value_key(k: PropName) -> bool {
    match k {
        PropName::Ident(s) => s@ == "value"@,
        PropName::Str(s) => s@ == "value"@,
        _ => false,
    }
}

pub open spec fn prop_binds_value(p: ObjectPatProp) -> bool {
    match p {
        ObjectPatProp::KeyValue { key, value } => value_key(key),
        ObjectPatProp::Shorthand(name) => name@ == "value"@,
        ObjectPatProp::Rest(_) => false,
    }
}

/// An object pattern takes the property `value` out of an object: by a
/// `value` or `"value"` key, or by the shorthand `{ value }`.
pub open spec fn binds_value(op: ObjectPat) -> bool {
    exists|i: int| 0 <= i < op.props@.len() && #[trigger] prop_binds_value(op.props@[i])
}

pub fn object_pat_binds_value(op: &ObjectPat) -> (r: bool)
    ensures
        r == binds_value(*op),
{
    let mut i: usize = 0;
    while i < op.props.len()
        invariant
            i <= op.props@.len(),
            forall|q: int| 0 <= q < i ==> !#[trigger] prop_binds_value(op.props@[q]),
        decreases op.props.len() - i,
    {
        match &op.props[i] {
            ObjectPatProp::KeyValue { key, value } => {
                let hit = match key {
                    PropName::Ident(s) => str_eq(s.as_str(), "value"),
                    PropName::Str(s) => str_eq(s.as_str(), "value"),
                    _ => false,
                };
                if hit {
                    assert(prop_binds_value(op.props@[i as int]));
                    return true;
                }
            },
            ObjectPatProp::Shorthand(name) => {
                if str_eq(name.as_str(), "value") {
                    assert(prop_binds_value(op.props@[i as int]));
                    return true;
                }
            },
            ObjectPatProp::Rest(_) => {},
        }
        i += 1;
    }
    false
}

/// Some object pattern nested in `p` takes out `value`.
pub open spec fn pat_reads(p: Pat) -> bool
    decreases p,
{
    match p {
        Pat::Ident(_) => false,
        Pat::Object(op) => binds_value(op) || obj_props_read(op.props@),
        Pat::Array(ps) => pats_read(ps@),
    }
}

pub open spec fn obj_props_read(s: Seq<ObjectPatProp>) -> bool
    decreases s,
{
    if s.len() == 0 {
        false
    } else {
        obj_props_read(s.drop_last()) || match s.last() {
            ObjectPatProp::KeyValue { key, value } => pat_reads(*value),
            _ => false,
        }
    }
}

pub open spec fn pats_read(s: Seq<Pat>) -> bool
    decreases s,
{
    if s.len() == 0 {
        false
    } else {
        pats_read(s.drop_last()) || pat_reads(s.last())
    }
}

/// Whether some object pattern nested in `p` takes out `value`.
pub fn pat_reads_value(p: &Pat) -> (r: bool)
    ensures
        r == pat_reads(*p),
    decreases p,
{
    match p {
        Pat::Ident(_) => false,
        Pat::Object(op) => {
            if object_pat_binds_value(op) {
                return true;
            }
            proof {
                assert(decreases_to!(*p => (*p)->Object_0));
                assert(decreases_to!((*p)->Object_0 => (*p)->Object_0.props));
            }
            obj_props_read_value(&op.props)
        },
        Pat::Array(ps) => pats_read_value(ps),
    }
}

/// Whether the pattern of one of `props` reads `value`.
pub fn obj_props_read_value(props: &Vec<ObjectPatProp>) -> (r: bool)
    ensures
        r == obj_props_read(props@),
    decreases props,
{
    let mut acc = false;
    let mut i: usize = 0;
    while i < props.len()
        invariant
            i <= props@.len(),
            acc == obj_props_read(props@.subrange(0, i as int)),
        decreases props.len() - i,
    {
        let ghost pre = props@.subrange(0, i as int);
        let hit = match &props[i] {
            ObjectPatProp::KeyValue { key, value } => {
                proof {
                    assert(decreases_to!(props => props[i as int]));
                    assert(decreases_to!(props[i as int] => props[i as int]->KeyValue_value));
                }
                pat_reads_value(&**value)
            },
            _ => false,
        };
        acc = acc || hit;
        assert(props@.subrange(0, i + 1).drop_last() =~= pre);
        i += 1;
    }
    assert(props@.subrange(0, props@.len() as int) =~= props@);
    acc
}

/// Whether one of `ps` reads `value`.
pub fn pats_read_value(ps: &Vec<Pat>) -> (r: bool)
    ensures
        r == pats_read(ps@),
    decreases ps,
{
    let mut acc = false;
    let mut i: usize = 0;
    while i < ps.len()
        invariant
            i <= ps@.len(),
            acc == pats_read(ps@.subrange(0, i as int)),
        decreases ps.len() - i,
    {
        let ghost pre = ps@.subrange(0, i as int);
        let hit = pat_reads_value(&ps[i]);
        acc = acc || hit;
        assert(ps@.subrange(0, i + 1).drop_last() =~= pre);
        i += 1;
    }
    assert(ps@.subrange(0, ps@.len() as int) =~= ps@);
    acc
}

} // verus!
