//! What the generated code does, stated over its fixed pieces: which node
//! each field is written to and read from, what an absent node gives, and
//! where the generated `from_kdl` code gives up.
use vstd::prelude::*;

use crate::expand::{
    assigns_text, field_from_text, field_let_text, field_to_text, fields_to_text,
    from_kdl_text, lets_text, push_text, to_kdl_text,
};
use crate::model::{Container, Field, FieldKind};
use crate::template as t;

verus! {

/// `s` begins with `p`.
pub open spec fn starts_with(s: Seq<char>, p: Seq<char>) -> bool {
    p.len() <= s.len() && s.subrange(0, p.len() as int) == p
}

/// `s` ends with `q`.
pub open spec fn ends_with(s: Seq<char>, q: Seq<char>) -> bool {
    q.len() <= s.len() && s.subrange(s.len() - q.len(), s.len() as int) == q
}

/// `q` occurs in `s`.
pub open spec fn contains(s: Seq<char>, q: Seq<char>) -> bool {
    exists|i: int| 0 <= i && i + q.len() <= s.len() && #[trigger] s.subrange(i, i + q.len()) == q
}

proof fn starts_self(p: Seq<char>)
    ensures
        starts_with(p, p),
{
    assert(p.subrange(0, p.len() as int) =~= p);
}

proof fn starts_more(s: Seq<char>, p: Seq<char>, r: Seq<char>)
    requires
        starts_with(s, p),
    ensures
        starts_with(s + r, p),
{
    assert((s + r).subrange(0, p.len() as int) =~= s.subrange(0, p.len() as int));
}

proof fn ends_self(q: Seq<char>)
    ensures
        ends_with(q, q),
{
    assert(q.subrange(0, q.len() as int) =~= q);
}

proof fn ends_more(s: Seq<char>, q: Seq<char>, r: Seq<char>)
    requires
        ends_with(s, q),
    ensures
        ends_with(s + r, q + r),
{
    let sr = s + r;
    assert(sr.subrange(sr.len() - (q + r).len(), sr.len() as int) =~= s.subrange(
        s.len() - q.len(),
        s.len() as int,
    ) + r);
}

proof fn ends_after(p: Seq<char>, q: Seq<char>)
    ensures
        ends_with(p + q, q),
{
    ends_self(q);
    assert((p + q).subrange((p + q).len() - q.len(), (p + q).len() as int) =~= q);
}

proof fn contains_at(s: Seq<char>, q: Seq<char>, i: int)
    requires
        0 <= i,
        i + q.len() <= s.len(),
        s.subrange(i, i + q.len()) == q,
    ensures
        contains(s, q),
{
}

proof fn contains_start(s: Seq<char>, q: Seq<char>)
    requires
        starts_with(s, q),
    ensures
        contains(s, q),
{
    contains_at(s, q, 0);
}

proof fn contains_end(s: Seq<char>, q: Seq<char>)
    requires
        ends_with(s, q),
    ensures
        contains(s, q),
{
    contains_at(s, q, s.len() - q.len());
}

proof fn contains_left(s: Seq<char>, r: Seq<char>, q: Seq<char>)
    requires
        contains(s, q),
    ensures
        contains(s + r, q),
{
    let i = choose|i: int| 0 <= i && i + q.len() <= s.len() && #[trigger] s.subrange(i, i + q.len()) == q;
    assert((s + r).subrange(i, i + q.len()) =~= s.subrange(i, i + q.len()));
    contains_at(s + r, q, i);
}

proof fn contains_right(p: Seq<char>, s: Seq<char>, q: Seq<char>)
    requires
        contains(s, q),
    ensures
        contains(p + s, q),
{
    let i = choose|i: int| 0 <= i && i + q.len() <= s.len() && #[trigger] s.subrange(i, i + q.len()) == q;
    assert((p + s).subrange(p.len() + i, p.len() + i + q.len()) =~= s.subrange(i, i + q.len()));
    contains_at(p + s, q, p.len() + i);
}

/// The statements that build the node(s) of a field of kind `kind` named
/// by `lit`, before they are pushed onto the document.
pub open spec fn node_build(kind: FieldKind, lit: Seq<char>) -> Seq<char> {
    match kind {
        FieldKind::Scalar => t::NODE_NEW@ + lit + t::SCALAR_ENTRY@,
        FieldKind::ScalarVec => t::NODE_NEW@ + lit + t::SCALAR_VEC_ENTRIES@,
        FieldKind::Child => t::NODE_NEW@ + lit + t::CHILD_BLOCK@,
        FieldKind::ChildVec => t::FOR_EACH_ITEM@ + t::NODE_NEW@ + lit + t::CHILD_ITEM_BLOCK@,
    }
}

proof fn push_text_parts(kind: FieldKind, lit: Seq<char>)
    ensures
        starts_with(push_text(kind, lit), node_build(kind, lit) + t::NODE_PUSH@),
        contains(push_text(kind, lit), t::NODE_NEW@ + lit),
        contains(push_text(kind, lit), t::NODE_PUSH@),
{
    let b = node_build(kind, lit);
    let p = push_text(kind, lit);
    let nl = t::NODE_NEW@ + lit;
    starts_self(b + t::NODE_PUSH@);
    ends_after(b, t::NODE_PUSH@);
    contains_end(b + t::NODE_PUSH@, t::NODE_PUSH@);
    if kind == FieldKind::ChildVec {
        starts_more(b + t::NODE_PUSH@, b + t::NODE_PUSH@, t::LOOP_END@);
        contains_left(b + t::NODE_PUSH@, t::LOOP_END@, t::NODE_PUSH@);
        ends_after(t::FOR_EACH_ITEM@, t::NODE_NEW@);
        ends_more(t::FOR_EACH_ITEM@ + t::NODE_NEW@, t::NODE_NEW@, lit);
        contains_end(t::FOR_EACH_ITEM@ + t::NODE_NEW@ + lit, nl);
        contains_left(t::FOR_EACH_ITEM@ + t::NODE_NEW@ + lit, t::CHILD_ITEM_BLOCK@, nl);
        contains_left(b, t::NODE_PUSH@, nl);
        contains_left(b + t::NODE_PUSH@, t::LOOP_END@, nl);
    } else {
        starts_self(nl);
        let mid = match kind {
            FieldKind::Scalar => t::SCALAR_ENTRY@,
            FieldKind::ScalarVec => t::SCALAR_VEC_ENTRIES@,
            _ => t::CHILD_BLOCK@,
        };
        assert(b == nl + mid);
        starts_more(nl, nl, mid);
        starts_more(b, nl, t::NODE_PUSH@);
        contains_start(p, nl);
    }
}

/// Writing a field: an optional field is written only inside `if let
/// Some(..)`, any other field unconditionally, the field's value (`__v`) or
/// list (`__list`) being taken from `self.<ident>`; either way its code ends
/// with the statements that build its node(s), named by the literal, and
/// push them onto the document.  A scalar's node holds the value as an
/// argument, a scalar list's node one argument per item, a child's node
/// the value's document as its children block, and a child list gets one
/// such node per item.
pub proof fn lemma_field_written(f: Field, lit: Seq<char>)
    ensures
        starts_with(
            field_to_text(f, lit),
            if f.optional {
                t::IF_SOME@
            } else {
                t::LET_OPEN@
            },
        ),
        starts_with(
            field_to_text(f, lit),
            (if f.optional {
                t::IF_SOME@
            } else {
                t::LET_OPEN@
            }) + (if f.kind == FieldKind::Scalar || f.kind == FieldKind::Child {
                "__v"@
            } else {
                "__list"@
            }) + (if f.optional {
                t::IF_SOME_SELF@
            } else {
                t::LET_SELF@
            }) + f.ident@,
        ),
        ends_with(field_to_text(f, lit), push_text(f.kind, lit) + t::BLOCK_CLOSE@),
        starts_with(push_text(f.kind, lit), node_build(f.kind, lit) + t::NODE_PUSH@),
        contains(field_to_text(f, lit), t::NODE_NEW@ + lit),
        contains(field_to_text(f, lit), t::NODE_PUSH@),
{
    let p = push_text(f.kind, lit);
    push_text_parts(f.kind, lit);
    if f.optional {
        let a = t::IF_SOME@ + super::expand::binding_of(f.kind) + t::IF_SOME_SELF@ + f.ident@
            + t::BLOCK_OPEN@;
        starts_self(t::IF_SOME@);
        starts_more(t::IF_SOME@, t::IF_SOME@, super::expand::binding_of(f.kind));
        starts_more(t::IF_SOME@ + super::expand::binding_of(f.kind), t::IF_SOME@, t::IF_SOME_SELF@);
        starts_more(t::IF_SOME@ + super::expand::binding_of(f.kind) + t::IF_SOME_SELF@, t::IF_SOME@, f.ident@);
        starts_more(t::IF_SOME@ + super::expand::binding_of(f.kind) + t::IF_SOME_SELF@ + f.ident@, t::IF_SOME@, t::BLOCK_OPEN@);
        let q = t::IF_SOME@ + super::expand::binding_of(f.kind) + t::IF_SOME_SELF@ + f.ident@;
        starts_self(q);
        starts_more(q, q, t::BLOCK_OPEN@);
        starts_more(a, q, p);
        starts_more(a + p, q, t::BLOCK_CLOSE@);
        starts_more(a, t::IF_SOME@, p);
        starts_more(a + p, t::IF_SOME@, t::BLOCK_CLOSE@);
        ends_after(a, p);
        ends_more(a + p, p, t::BLOCK_CLOSE@);
        contains_right(a, p, t::NODE_NEW@ + lit);
        contains_right(a, p, t::NODE_PUSH@);
        contains_left(a + p, t::BLOCK_CLOSE@, t::NODE_NEW@ + lit);
        contains_left(a + p, t::BLOCK_CLOSE@, t::NODE_PUSH@);
    } else {
        let a = t::LET_OPEN@ + super::expand::binding_of(f.kind) + t::LET_SELF@ + f.ident@
            + t::LET_END@;
        starts_self(t::LET_OPEN@);
        starts_more(t::LET_OPEN@, t::LET_OPEN@, super::expand::binding_of(f.kind));
        starts_more(t::LET_OPEN@ + super::expand::binding_of(f.kind), t::LET_OPEN@, t::LET_SELF@);
        starts_more(t::LET_OPEN@ + super::expand::binding_of(f.kind) + t::LET_SELF@, t::LET_OPEN@, f.ident@);
        starts_more(t::LET_OPEN@ + super::expand::binding_of(f.kind) + t::LET_SELF@ + f.ident@, t::LET_OPEN@, t::LET_END@);
        let q = t::LET_OPEN@ + super::expand::binding_of(f.kind) + t::LET_SELF@ + f.ident@;
        starts_self(q);
        starts_more(q, q, t::LET_END@);
        starts_more(a, q, p);
        starts_more(a + p, q, t::BLOCK_CLOSE@);
        starts_more(a, t::LET_OPEN@, p);
        starts_more(a + p, t::LET_OPEN@, t::BLOCK_CLOSE@);
        ends_after(a, p);
        ends_more(a + p, p, t::BLOCK_CLOSE@);
        contains_right(a, p, t::NODE_NEW@ + lit);
        contains_right(a, p, t::NODE_PUSH@);
        contains_left(a + p, t::BLOCK_CLOSE@, t::NODE_NEW@ + lit);
        contains_left(a + p, t::BLOCK_CLOSE@, t::NODE_PUSH@);
    }
}

/// The shape of reading a field held in a single node: look the node up
/// by name, convert what was found, and say what an absent node gives.
proof fn single_node_shape(
    lit: Seq<char>,
    find: Seq<char>,
    ty: Seq<char>,
    convert: Seq<char>,
    found: Seq<char>,
    no_value: Seq<char>,
    absent: Seq<char>,
)
    ensures
        ({
            let s = t::GET_NODE@ + lit + find + ty + convert + found + no_value + lit
                + t::NODE_MISSING@ + absent + t::MATCH_END@;
            &&& starts_with(s, t::GET_NODE@ + lit)
            &&& starts_with(s, t::GET_NODE@ + lit + find + ty)
            &&& ends_with(s, t::NODE_MISSING@ + absent + t::MATCH_END@)
            &&& contains(s, convert + found)
        }),
{
    let a0 = t::GET_NODE@ + lit;
    let a1 = a0 + find;
    let a2 = a1 + ty;
    let a3 = a2 + convert;
    let a4 = a3 + found;
    let a5 = a4 + no_value;
    let a6 = a5 + lit;
    let a7 = a6 + t::NODE_MISSING@;
    let a8 = a7 + absent;
    let s = a8 + t::MATCH_END@;
    starts_self(a0);
    starts_more(a0, a0, find);
    starts_more(a1, a0, ty);
    starts_more(a2, a0, convert);
    starts_more(a3, a0, found);
    starts_more(a4, a0, no_value);
    starts_more(a5, a0, lit);
    starts_more(a6, a0, t::NODE_MISSING@);
    starts_more(a7, a0, absent);
    starts_more(a8, a0, t::MATCH_END@);
    starts_self(a2);
    starts_more(a2, a2, convert);
    starts_more(a3, a2, found);
    starts_more(a4, a2, no_value);
    starts_more(a5, a2, lit);
    starts_more(a6, a2, t::NODE_MISSING@);
    starts_more(a7, a2, absent);
    starts_more(a8, a2, t::MATCH_END@);
    ends_after(a6, t::NODE_MISSING@);
    ends_more(a7, t::NODE_MISSING@, absent);
    ends_more(a8, t::NODE_MISSING@ + absent, t::MATCH_END@);
    ends_after(a2, convert);
    ends_more(a3, convert, found);
    contains_end(a4, convert + found);
    contains_left(a4, no_value, convert + found);
    contains_left(a5, lit, convert + found);
    contains_left(a6, t::NODE_MISSING@, convert + found);
    contains_left(a7, absent, convert + found);
    contains_left(a8, t::MATCH_END@, convert + found);
}

/// Reading a field held in a single node (a scalar or a child): the code
/// looks the node up under the field's literal and converts what it finds
/// as the field's inner type; a node that was read gives
/// `Some(value)` for a required field and `Some(Some(value))` for an
/// optional one; an absent node gives `Some(None)` for an optional field,
/// with no diagnostic, and for a required field pushes the diagnostic
/// "missing required node" naming the literal and gives `None`.
pub proof fn lemma_single_node_read(f: Field, lit: Seq<char>)
    requires
        f.kind == FieldKind::Scalar || f.kind == FieldKind::Child,
    ensures
        starts_with(field_from_text(f, lit), t::GET_NODE@ + lit),
        starts_with(
            field_from_text(f, lit),
            t::GET_NODE@ + lit + (if f.kind == FieldKind::Scalar {
                t::SCALAR_FIND@
            } else {
                t::CHILD_FIND@
            }) + f.inner_ty.text@,
        ),
        f.optional ==> ends_with(
            field_from_text(f, lit),
            t::NODE_MISSING@ + t::ABSENT_NONE@ + t::MATCH_END@,
        ),
        !f.optional ==> ends_with(
            field_from_text(f, lit),
            t::NODE_MISSING@ + (t::ABSENT_REQUIRED@ + lit + t::ABSENT_REQUIRED_END@)
                + t::MATCH_END@,
        ),
        contains(
            field_from_text(f, lit),
            (if f.kind == FieldKind::Scalar {
                t::SCALAR_CONVERT@
            } else {
                t::CHILD_CONVERT@
            }) + (if f.optional {
                t::FOUND_SOME_SOME@
            } else {
                t::FOUND_SOME@
            }),
        ),
{
    let ty = f.inner_ty.text@;
    let found = if f.optional {
        t::FOUND_SOME_SOME@
    } else {
        t::FOUND_SOME@
    };
    let absent = if f.optional {
        t::ABSENT_NONE@
    } else {
        t::ABSENT_REQUIRED@ + lit + t::ABSENT_REQUIRED_END@
    };
    if f.kind == FieldKind::Scalar {
        single_node_shape(lit, t::SCALAR_FIND@, ty, t::SCALAR_CONVERT@, found, t::SCALAR_NO_ARG@, absent);
    } else {
        single_node_shape(lit, t::CHILD_FIND@, ty, t::CHILD_CONVERT@, found, t::CHILD_NO_BLOCK@, absent);
    }
}

/// Reading a list field: a scalar list is read from the arguments of the
/// node named by the literal, a child list from every node of that name.
/// When nothing could be read the result depends on optionality: a
/// required scalar list with no node is an empty `Vec`, an optional one
/// `Some(None)`; an optional child list gives `Some(None)` unless a node of
/// its name was found, a required one always its (possibly empty) `Vec`.
pub proof fn lemma_list_read(f: Field, lit: Seq<char>)
    requires
        f.kind == FieldKind::ScalarVec || f.kind == FieldKind::ChildVec,
    ensures
        f.kind == FieldKind::ScalarVec ==> starts_with(field_from_text(f, lit), t::GET_NODE@ + lit)
            && ends_with(
            field_from_text(f, lit),
            if f.optional {
                t::SCALAR_VEC_OPTIONAL@
            } else {
                t::SCALAR_VEC_REQUIRED@
            },
        ),
        f.kind == FieldKind::ChildVec ==> starts_with(
            field_from_text(f, lit),
            t::CHILD_VEC_SCAN@ + lit,
        ) && ends_with(
            field_from_text(f, lit),
            if f.optional {
                t::CHILD_VEC_OPTIONAL@
            } else {
                t::CHILD_VEC_REQUIRED@
            },
        ),
{
    let ty = f.inner_ty.text@;
    if f.kind == FieldKind::ScalarVec {
        let a0 = t::GET_NODE@ + lit;
        let tail = if f.optional {
            t::SCALAR_VEC_OPTIONAL@
        } else {
            t::SCALAR_VEC_REQUIRED@
        };
        starts_self(a0);
        starts_more(a0, a0, t::SCALAR_VEC_FIND@);
        starts_more(a0 + t::SCALAR_VEC_FIND@, a0, ty);
        starts_more(a0 + t::SCALAR_VEC_FIND@ + ty, a0, t::SCALAR_VEC_CONVERT@);
        starts_more(a0 + t::SCALAR_VEC_FIND@ + ty + t::SCALAR_VEC_CONVERT@, a0, tail);
        ends_after(a0 + t::SCALAR_VEC_FIND@ + ty + t::SCALAR_VEC_CONVERT@, tail);
    } else {
        let a0 = t::CHILD_VEC_SCAN@ + lit;
        let tail = if f.optional {
            t::CHILD_VEC_OPTIONAL@
        } else {
            t::CHILD_VEC_REQUIRED@
        };
        let a1 = a0 + t::CHILD_VEC_MATCH@;
        let a2 = a1 + ty;
        let a3 = a2 + t::CHILD_VEC_CONVERT@;
        let a4 = a3 + lit;
        let a5 = a4 + t::CHILD_VEC_NO_BLOCK@;
        starts_self(a0);
        starts_more(a0, a0, t::CHILD_VEC_MATCH@);
        starts_more(a1, a0, ty);
        starts_more(a2, a0, t::CHILD_VEC_CONVERT@);
        starts_more(a3, a0, lit);
        starts_more(a4, a0, t::CHILD_VEC_NO_BLOCK@);
        starts_more(a5, a0, tail);
        ends_after(a5, tail);
    }
}

proof fn fields_hold(fields: Seq<Field>, lits: Seq<String>, n: int, i: int)
    requires
        0 <= i < n,
    ensures
        contains(fields_to_text(fields, lits, n), field_to_text(fields[i], lits[i]@)),
    decreases n,
{
    let prev = fields_to_text(fields, lits, n - 1);
    let last = field_to_text(fields[n - 1], lits[n - 1]@);
    if i == n - 1 {
        ends_after(prev, last);
        contains_end(prev + last, last);
    } else {
        fields_hold(fields, lits, n - 1, i);
        contains_left(prev, last, field_to_text(fields[i], lits[i]@));
    }
}

proof fn lets_hold(fields: Seq<Field>, lits: Seq<String>, n: int, i: int)
    requires
        0 <= i < n,
    ensures
        contains(lets_text(fields, lits, n), field_let_text(fields[i], lits[i]@)),
    decreases n,
{
    let prev = lets_text(fields, lits, n - 1);
    let last = field_let_text(fields[n - 1], lits[n - 1]@);
    if i == n - 1 {
        ends_after(prev, last);
        contains_end(prev + last, last);
    } else {
        lets_hold(fields, lits, n - 1, i);
        contains_left(prev, last, field_let_text(fields[i], lits[i]@));
    }
}

proof fn assigns_hold(fields: Seq<Field>, n: int, i: int)
    requires
        0 <= i < n,
    ensures
        contains(assigns_text(fields, n), crate::expand::field_assign_text(fields[i])),
    decreases n,
{
    let last = crate::expand::field_assign_text(fields[n - 1]);
    if n == 1 {
        starts_self(last);
        contains_start(last, last);
    } else {
        let prev = assigns_text(fields, n - 1) + t::FIELD_SEPARATOR@;
        if i == n - 1 {
            ends_after(prev, last);
            contains_end(prev + last, last);
        } else {
            assigns_hold(fields, n - 1, i);
            contains_left(assigns_text(fields, n - 1), t::FIELD_SEPARATOR@, crate::expand::field_assign_text(fields[i]));
            contains_left(prev, last, crate::expand::field_assign_text(fields[i]));
        }
    }
}

/// The `ToKdl` expansion: after its fixed head, the document is built by
/// the writing code of every field, in order, and only then formatted and
/// returned; the writing code of each field (see `lemma_field_written`) is
/// part of it under that field's literal.
pub proof fn lemma_to_kdl_layout(c: Container, lits: Seq<String>)
    ensures
        starts_with(to_kdl_text(c, lits), t::TO_KDL_HEAD@),
        ends_with(
            to_kdl_text(c, lits),
            fields_to_text(c.fields@, lits, c.fields@.len() as int) + t::TO_KDL_TAIL@,
        ),
        forall|i: int|
            0 <= i < c.fields@.len() ==> contains(
                to_kdl_text(c, lits),
                #[trigger] field_to_text(c.fields@[i], lits[i]@),
            ),
{
    let n = c.fields@.len() as int;
    let h = crate::expand::impl_header(c);
    let a = t::TO_KDL_HEAD@ + h + t::TO_KDL_OPEN@;
    let b = fields_to_text(c.fields@, lits, n);
    starts_self(t::TO_KDL_HEAD@);
    starts_more(t::TO_KDL_HEAD@, t::TO_KDL_HEAD@, h);
    starts_more(t::TO_KDL_HEAD@ + h, t::TO_KDL_HEAD@, t::TO_KDL_OPEN@);
    starts_more(a, t::TO_KDL_HEAD@, b);
    starts_more(a + b, t::TO_KDL_HEAD@, t::TO_KDL_TAIL@);
    ends_after(a, b);
    ends_more(a + b, b, t::TO_KDL_TAIL@);
    assert forall|i: int| 0 <= i < n implies contains(
        to_kdl_text(c, lits),
        #[trigger] field_to_text(c.fields@[i], lits[i]@),
    ) by {
        fields_hold(c.fields@, lits, n, i);
        contains_right(a, b, field_to_text(c.fields@[i], lits[i]@));
        contains_left(a + b, t::TO_KDL_TAIL@, field_to_text(c.fields@[i], lits[i]@));
    }
}

/// The `FromKdl` expansion: after its fixed head come the reads of every
/// field, then the check that returns `Err` with the collected diagnostics
/// when any was pushed, and only then the struct built from the fields'
/// values; each field's read is part of it under that field's literal,
/// and each field is initialised from its own temporary.
pub proof fn lemma_from_kdl_layout(c: Container, lits: Seq<String>)
    ensures
        starts_with(from_kdl_text(c, lits), t::FROM_KDL_HEAD@),
        ends_with(
            from_kdl_text(c, lits),
            lets_text(c.fields@, lits, c.fields@.len() as int) + t::DIAGNOSTICS_CHECK@
                + t::BUILD_SELF@ + assigns_text(c.fields@, c.fields@.len() as int)
                + t::FROM_KDL_TAIL@,
        ),
        forall|i: int|
            0 <= i < c.fields@.len() ==> contains(
                lets_text(c.fields@, lits, c.fields@.len() as int),
                #[trigger] field_let_text(c.fields@[i], lits[i]@),
            ) && contains(
                assigns_text(c.fields@, c.fields@.len() as int),
                crate::expand::field_assign_text(c.fields@[i]),
            ),
{
    let n = c.fields@.len() as int;
    let h = crate::expand::impl_header(c);
    let a = t::FROM_KDL_HEAD@ + h + t::FROM_KDL_OPEN@;
    let l = lets_text(c.fields@, lits, n);
    let g = assigns_text(c.fields@, n);
    starts_self(t::FROM_KDL_HEAD@);
    starts_more(t::FROM_KDL_HEAD@, t::FROM_KDL_HEAD@, h);
    starts_more(t::FROM_KDL_HEAD@ + h, t::FROM_KDL_HEAD@, t::FROM_KDL_OPEN@);
    starts_more(a, t::FROM_KDL_HEAD@, l);
    starts_more(a + l, t::FROM_KDL_HEAD@, t::DIAGNOSTICS_CHECK@);
    starts_more(a + l + t::DIAGNOSTICS_CHECK@, t::FROM_KDL_HEAD@, t::BUILD_SELF@);
    starts_more(a + l + t::DIAGNOSTICS_CHECK@ + t::BUILD_SELF@, t::FROM_KDL_HEAD@, g);
    starts_more(a + l + t::DIAGNOSTICS_CHECK@ + t::BUILD_SELF@ + g, t::FROM_KDL_HEAD@, t::FROM_KDL_TAIL@);
    ends_after(a, l);
    ends_more(a + l, l, t::DIAGNOSTICS_CHECK@);
    ends_more(a + l + t::DIAGNOSTICS_CHECK@, l + t::DIAGNOSTICS_CHECK@, t::BUILD_SELF@);
    ends_more(a + l + t::DIAGNOSTICS_CHECK@ + t::BUILD_SELF@, l + t::DIAGNOSTICS_CHECK@ + t::BUILD_SELF@, g);
    ends_more(a + l + t::DIAGNOSTICS_CHECK@ + t::BUILD_SELF@ + g, l + t::DIAGNOSTICS_CHECK@ + t::BUILD_SELF@ + g, t::FROM_KDL_TAIL@);
    assert forall|i: int| 0 <= i < n implies contains(l, #[trigger] field_let_text(c.fields@[i], lits[i]@))
        && contains(g, crate::expand::field_assign_text(c.fields@[i])) by {
        lets_hold(c.fields@, lits, n, i);
        assigns_hold(c.fields@, n, i);
    }
}

/// A field's reading statement binds the field's temporary to its read
/// expression, and its initialiser takes the value out of that same
/// temporary.
pub proof fn lemma_field_temporaries(f: Field, lit: Seq<char>)
    ensures
        starts_with(
            field_let_text(f, lit),
            t::LET@ + crate::expand::field_temp(f) + t::ASSIGN@,
        ),
        ends_with(field_let_text(f, lit), field_from_text(f, lit) + t::STMT_END@),
        starts_with(crate::expand::field_assign_text(f), f.ident@ + t::COLON@),
        ends_with(crate::expand::field_assign_text(f), crate::expand::field_temp(f) + t::UNWRAP@),
{
    let d = f.ident@ + t::COLON@;
    starts_self(d);
    starts_more(d, d, crate::expand::field_temp(f));
    starts_more(d + crate::expand::field_temp(f), d, t::UNWRAP@);
    ends_after(d, crate::expand::field_temp(f));
    ends_more(d + crate::expand::field_temp(f), crate::expand::field_temp(f), t::UNWRAP@);
    let a = t::LET@ + crate::expand::field_temp(f) + t::ASSIGN@;
    let e = field_from_text(f, lit);
    starts_self(a);
    starts_more(a, a, e);
    starts_more(a + e, a, t::STMT_END@);
    ends_after(a, e);
    ends_more(a + e, e, t::STMT_END@);
}

} // verus!
