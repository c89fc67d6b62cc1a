//! The shared implementation-header assembler: given a trait path and a type
//! shape, renders `impl<..> Trait for Name<..> where ..`, with the generic
//! parameter names and the where-constraints round-tripped verbatim.

use vstd::prelude::*;
use vstd::string::StringExecFns;
use crate::shape::TypeShape;
use crate::text::{spec_join, views_of, join_strings};

verus! {

/// `<p1, p2, ..>`, or nothing when there are no generic parameters.
pub open spec fn generics_text(params: Seq<String>) -> Seq<char> {
    if params.len() == 0 {
        Seq::empty()
    } else {
        "<"@ + spec_join(views_of(params), ", "@) + ">"@
    }
}

/// ` where c1, c2, ..`, or nothing when there are no constraints.
pub open spec fn where_text(clauses: Seq<String>) -> Seq<char> {
    if clauses.len() == 0 {
        Seq::empty()
    } else {
        " where "@ + spec_join(views_of(clauses), ", "@) + ","@
    }
}

/// The header of a generated implementation block, up to but not including
/// the braces.
pub open spec fn impl_header(trait_path: Seq<char>, input: TypeShape) -> Seq<char> {
    "#[automatically_derived] impl"@ + generics_text(input.generics.params@) + " "@ + trait_path
        + " for "@ + input.name@ + generics_text(input.generics.params@) + where_text(
        input.generics.where_clauses@,
    )
}

/// A whole implementation block whose body is the given text.
pub open spec fn impl_block(trait_path: Seq<char>, input: TypeShape, body: Seq<char>) -> Seq<
    char,
> {
    if body.len() == 0 {
        impl_header(trait_path, input) + " {}"@
    } else {
        impl_header(trait_path, input) + " { "@ + body + " }"@
    }
}

/// Renders `<p1, p2, ..>`; see [`generics_text`].
fn render_generics(params: &Vec<String>) -> (r: String)
    ensures
        r@ == generics_text(params@),
{
    if params.len() == 0 {
        String::new()
    } else {
        let mut out = "<".to_owned();
        let joined = join_strings(params, ", ");
        out.append(joined.as_str());
        out.append(">");
        out
    }
}

/// Renders the implementation block around `body`; see [`impl_block`].
pub fn render_impl_block(trait_path: &str, input: &TypeShape, body: &String) -> (r: String)
    ensures
        r@ == impl_block(trait_path@, *input, body@),
{
    let generics = render_generics(&input.generics.params);
    let mut out = "#[automatically_derived] impl".to_owned();
    out.append(generics.as_str());
    out.append(" ");
    out.append(trait_path);
    out.append(" for ");
    out.append(input.name.as_str());
    out.append(generics.as_str());
    if input.generics.where_clauses.len() > 0 {
        out.append(" where ");
        let clauses = join_strings(&input.generics.where_clauses, ", ");
        out.append(clauses.as_str());
        out.append(",");
    }
    if body.as_str().is_empty() {
        out.append(" {}");
    } else {
        out.append(" { ");
        out.append(body.as_str());
        out.append(" }");
    }
    out
}

} // verus!
