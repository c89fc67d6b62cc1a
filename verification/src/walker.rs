//! The shared traversal over a field arrangement: per-field keys (the
//! declared name, or the decimal position), binding lists and match patterns.
//! Every renderer draws its field order and its binding names from here, so
//! the rules stay single-sourced.

use vstd::prelude::*;
use vstd::string::StringExecFns;
use crate::shape::FieldList;
use crate::text::{dec_str, dec_string, spec_join, views_of, join_strings};

verus! {

/// The key of field `i`: its declared name for named fields, its decimal
/// position for positional fields.  The key is both the access path after
/// `self.` and the stem of every synthesized binding name.
pub open spec fn field_key(fields: FieldList, i: int) -> Seq<char> {
    match fields {
        FieldList::Named(names) => names@[i]@,
        FieldList::Positional(_) => dec_str(i),
        FieldList::Empty => Seq::empty(),
    }
}

/// The keys of all fields, in declaration order.
pub fn field_keys(fields: &FieldList) -> (r: Vec<String>)
    ensures
        r@.len() == fields.spec_len(),
        forall|i: int| 0 <= i < r@.len() ==> r@[i]@ == field_key(*fields, i),
{
    let mut keys: Vec<String> = Vec::new();
    match fields {
        FieldList::Named(names) => {
            let n = names.len();
            for j in 0..n
                invariant
                    n == names@.len(),
                    keys@.len() == j,
                    forall|i: int| 0 <= i < j ==> keys@[i]@ == names@[i]@,
            {
                keys.push(names[j].clone());
            }
        },
        FieldList::Positional(n) => {
            let count = *n;
            for j in 0..count
                invariant
                    keys@.len() == j,
                    forall|i: int| 0 <= i < j ==> keys@[i]@ == dec_str(i),
            {
                keys.push(dec_string(j));
            }
        },
        FieldList::Empty => {},
    }
    keys
}

/// One entry of a pattern's binding list: `key: prefixkey,` when named
/// fields are rebound, `key,` when they are bound bare, and `prefixkey,`
/// for positional fields.
pub open spec fn binding_frag(fields: FieldList, prefix: Seq<char>, rename: bool, i: int) -> Seq<
    char,
> {
    match fields {
        FieldList::Named(_) => if rename {
            field_key(fields, i) + ": "@ + prefix + field_key(fields, i) + ","@
        } else {
            field_key(fields, i) + ","@
        },
        FieldList::Positional(_) => prefix + field_key(fields, i) + ","@,
        FieldList::Empty => Seq::empty(),
    }
}

/// The match pattern destructuring variant `vname` with the given field
/// arrangement.  Named fields are rebound to `prefix`-prefixed variables when
/// `rename` is set and bound bare otherwise; positional fields are always
/// bound to `prefix`-prefixed position names.
pub open spec fn variant_pattern(
    vname: Seq<char>,
    fields: FieldList,
    prefix: Seq<char>,
    rename: bool,
) -> Seq<char> {
    match fields {
        FieldList::Named(names) => if names@.len() == 0 {
            "Self::"@ + vname + " {}"@
        } else {
            "Self::"@ + vname + " { "@ + spec_join(
                Seq::new(names@.len(), |i: int| binding_frag(fields, prefix, rename, i)),
                " "@,
            ) + " }"@
        },
        FieldList::Positional(n) => if n == 0 {
            "Self::"@ + vname + "()"@
        } else {
            "Self::"@ + vname + "("@ + spec_join(
                Seq::new(n as nat, |i: int| binding_frag(fields, prefix, rename, i)),
                " "@,
            ) + ")"@
        },
        FieldList::Empty => "Self::"@ + vname,
    }
}

/// A construction expression `head { .. }`, `head(..)` or bare `head`,
/// filled with the given fragments.
pub open spec fn construction(head: Seq<char>, fields: FieldList, frags: Seq<Seq<char>>) -> Seq<
    char,
> {
    match fields {
        FieldList::Named(names) => if names@.len() == 0 {
            head + " {}"@
        } else {
            head + " { "@ + spec_join(frags, " "@) + " }"@
        },
        FieldList::Positional(n) => if n == 0 {
            head + "()"@
        } else {
            head + "("@ + spec_join(frags, " "@) + ")"@
        },
        FieldList::Empty => head,
    }
}

/// Renders a construction expression; see [`construction`].
pub fn render_construction(head: String, fields: &FieldList, parts: &Vec<String>) -> (r: String)
    requires
        views_of(parts@).len() == fields.spec_len(),
    ensures
        r@ == construction(head@, *fields, views_of(parts@)),
{
    let mut out = head;
    match fields {
        FieldList::Named(_) => {
            if parts.len() == 0 {
                out.append(" {}");
            } else {
                out.append(" { ");
                let joined = join_strings(parts, " ");
                out.append(joined.as_str());
                out.append(" }");
            }
        },
        FieldList::Positional(_) => {
            if parts.len() == 0 {
                out.append("()");
            } else {
                out.append("(");
                let joined = join_strings(parts, " ");
                out.append(joined.as_str());
                out.append(")");
            }
        },
        FieldList::Empty => {},
    }
    out
}

/// Renders the match pattern for variant `vname`; see [`variant_pattern`].
pub fn render_pattern(vname: &String, fields: &FieldList, prefix: &str, rename: bool) -> (r:
    String)
    ensures
        r@ == variant_pattern(vname@, *fields, prefix@, rename),
{
    let keys = field_keys(fields);
    let n = keys.len();
    let mut parts: Vec<String> = Vec::new();
    for j in 0..n
        invariant
            n == keys@.len(),
            n as nat == fields.spec_len(),
            forall|i: int| 0 <= i < n ==> keys@[i]@ == field_key(*fields, i),
            parts@.len() == j,
            forall|i: int| 0 <= i < j ==> parts@[i]@ == binding_frag(*fields, prefix@, rename, i),
    {
        let mut p = String::new();
        match fields {
            FieldList::Named(_) => {
                if rename {
                    p.append(keys[j].as_str());
                    p.append(": ");
                    p.append(prefix);
                    p.append(keys[j].as_str());
                    p.append(",");
                } else {
                    p.append(keys[j].as_str());
                    p.append(",");
                }
            },
            FieldList::Positional(_) => {
                p.append(prefix);
                p.append(keys[j].as_str());
                p.append(",");
            },
            FieldList::Empty => {},
        }
        parts.push(p);
    }
    let mut out = "Self::".to_owned();
    out.append(vname.as_str());
    match fields {
        FieldList::Named(_) => {
            if n == 0 {
                out.append(" {}");
            } else {
                out.append(" { ");
                let joined = join_strings(&parts, " ");
                out.append(joined.as_str());
                out.append(" }");
                proof {
                    assert(views_of(parts@) =~= Seq::new(
                        fields.spec_len(),
                        |i: int| binding_frag(*fields, prefix@, rename, i),
                    ));
                }
            }
        },
        FieldList::Positional(_) => {
            if n == 0 {
                out.append("()");
            } else {
                out.append("(");
                let joined = join_strings(&parts, " ");
                out.append(joined.as_str());
                out.append(")");
                proof {
                    assert(views_of(parts@) =~= Seq::new(
                        fields.spec_len(),
                        |i: int| binding_frag(*fields, prefix@, rename, i),
                    ));
                }
            }
        },
        FieldList::Empty => {},
    }
    out
}

} // verus!
