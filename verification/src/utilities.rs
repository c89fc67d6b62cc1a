//! Synthesis of collision-safe identifiers for positional fields.  Every
//! synthesized name lies in the reserved `field_` namespace and carries the
//! field's decimal position, so distinct positions always get distinct
//! names.

use vstd::prelude::*;
use vstd::string::StringExecFns;
use crate::shape::FieldList;
use crate::text::{dec_digit, dec_str, dec_string};
use crate::walker::binding_frag;

verus! {

/// The name synthesized for the positional field at position `i`.
pub open spec fn synthesized_name(i: int) -> Seq<char> {
    "field_"@ + dec_str(i)
}

/// The `n` synthesized identifiers `field_0`, `field_1`, .., in order,
/// pairwise distinct.
pub fn get_field_identifiers(n: usize) -> (r: Vec<String>)
    ensures
        r@.len() == n,
        forall|i: int| 0 <= i < n ==> r@[i]@ == synthesized_name(i),
        forall|i: int, j: int| 0 <= i < j < n ==> r@[i]@ != r@[j]@,
{
    let mut out: Vec<String> = Vec::new();
    for j in 0..n
        invariant
            out@.len() == j,
            forall|i: int| 0 <= i < j ==> out@[i]@ == synthesized_name(i),
    {
        let mut name = "field_".to_owned();
        let position = dec_string(j);
        name.append(position.as_str());
        out.push(name);
    }
    proof {
        assert forall|i: int, j: int| 0 <= i < j < n implies out@[i]@ != out@[j]@ by {
            lemma_synthesized_names_distinct(i, j);
        }
    }
    out
}

/// A decimal digit is one character long.
proof fn lemma_digit_len(d: int)
    requires
        0 <= d < 10,
    ensures
        dec_digit(d).len() == 1,
{
    reveal_strlit("0");
    reveal_strlit("1");
    reveal_strlit("2");
    reveal_strlit("3");
    reveal_strlit("4");
    reveal_strlit("5");
    reveal_strlit("6");
    reveal_strlit("7");
    reveal_strlit("8");
    reveal_strlit("9");
}

/// The character denoting the decimal digit `d`.
pub open spec fn digit_char(d: int) -> char {
    if d == 0 {
        '0'
    } else if d == 1 {
        '1'
    } else if d == 2 {
        '2'
    } else if d == 3 {
        '3'
    } else if d == 4 {
        '4'
    } else if d == 5 {
        '5'
    } else if d == 6 {
        '6'
    } else if d == 7 {
        '7'
    } else if d == 8 {
        '8'
    } else {
        '9'
    }
}

/// A decimal digit renders as its one character.
proof fn lemma_digit_char(d: int)
    requires
        0 <= d < 10,
    ensures
        dec_digit(d)[0] == digit_char(d),
{
    reveal_strlit("0");
    reveal_strlit("1");
    reveal_strlit("2");
    reveal_strlit("3");
    reveal_strlit("4");
    reveal_strlit("5");
    reveal_strlit("6");
    reveal_strlit("7");
    reveal_strlit("8");
    reveal_strlit("9");
}

/// Distinct decimal digits render as distinct characters.
proof fn lemma_digit_injective(d1: int, d2: int)
    requires
        0 <= d1 < 10,
        0 <= d2 < 10,
        dec_digit(d1) == dec_digit(d2),
    ensures
        d1 == d2,
{
    lemma_digit_char(d1);
    lemma_digit_char(d2);
    assert(digit_char(d1) == digit_char(d2));
}

/// A decimal rendering is never empty, and numbers of ten and more render
/// with at least two characters.
proof fn lemma_dec_str_len(n: int)
    requires
        n >= 0,
    ensures
        dec_str(n).len() >= 1,
        n >= 10 ==> dec_str(n).len() >= 2,
    decreases n,
{
    if n < 10 {
        lemma_digit_len(n);
    } else {
        lemma_dec_str_len(n / 10);
        lemma_digit_len(n % 10);
    }
}

/// Distinct numbers have distinct decimal renderings.
pub proof fn lemma_dec_str_injective(a: int, b: int)
    requires
        a >= 0,
        b >= 0,
        dec_str(a) == dec_str(b),
    ensures
        a == b,
    decreases a,
{
    lemma_dec_str_len(a);
    lemma_dec_str_len(b);
    if a < 10 && b < 10 {
        lemma_digit_injective(a, b);
    } else if a < 10 {
        lemma_digit_len(a);
        assert(false);
    } else if b < 10 {
        lemma_digit_len(b);
        assert(false);
    } else {
        lemma_dec_str_len(a / 10);
        lemma_dec_str_len(b / 10);
        lemma_digit_len(a % 10);
        lemma_digit_len(b % 10);
        let la = dec_str(a / 10).len() as int;
        let lb = dec_str(b / 10).len() as int;
        assert(dec_str(a) == dec_str(a / 10) + dec_digit(a % 10));
        assert(dec_str(b) == dec_str(b / 10) + dec_digit(b % 10));
        assert(la == lb);
        assert(dec_digit(a % 10)[0] == dec_str(a)[la]);
        assert(dec_digit(b % 10)[0] == dec_str(b)[la]);
        assert(dec_digit(a % 10) =~= dec_digit(b % 10));
        lemma_digit_injective(a % 10, b % 10);
        assert forall|k: int| 0 <= k < la implies #[trigger] dec_str(a / 10)[k] == dec_str(
            b / 10,
        )[k] by {
            assert(dec_str(a / 10)[k] == dec_str(a)[k]);
            assert(dec_str(b / 10)[k] == dec_str(b)[k]);
        }
        assert(dec_str(a / 10) =~= dec_str(b / 10));
        lemma_dec_str_injective(a / 10, b / 10);
        assert(a == (a / 10) * 10 + a % 10);
        assert(b == (b / 10) * 10 + b % 10);
    }
}

/// Distinct positions get distinct synthesized names.
pub proof fn lemma_synthesized_names_distinct(i: int, j: int)
    requires
        i >= 0,
        j >= 0,
        i != j,
    ensures
        synthesized_name(i) != synthesized_name(j),
{
    if synthesized_name(i) == synthesized_name(j) {
        reveal_strlit("field_");
        lemma_dec_str_len(i);
        lemma_dec_str_len(j);
        assert(synthesized_name(i).len() == "field_"@.len() + dec_str(i).len());
        assert(synthesized_name(j).len() == "field_"@.len() + dec_str(j).len());
        assert(dec_str(i).len() == dec_str(j).len());
        assert forall|k: int| 0 <= k < dec_str(i).len() implies dec_str(i)[k] == dec_str(j)[k] by {
            assert(dec_str(i)[k] == synthesized_name(i)[6 + k]);
            assert(dec_str(j)[k] == synthesized_name(j)[6 + k]);
        }
        assert(dec_str(i) =~= dec_str(j));
        lemma_dec_str_injective(i, j);
        assert(false);
    }
}

/// Every synthesized name starts with the reserved `field_` prefix, so it
/// can never collide with a user-chosen name, which is barred from that
/// namespace.
pub proof fn lemma_synthesized_name_reserved(i: int)
    requires
        i >= 0,
    ensures
        synthesized_name(i).len() > 6,
        synthesized_name(i).subrange(0, 6) == "field_"@,
{
    reveal_strlit("field_");
    lemma_dec_str_len(i);
    assert(synthesized_name(i).subrange(0, 6) =~= "field_"@);
}

/// The walker binds positional fields to exactly the synthesized
/// identifiers, so their distinctness and reserved prefix carry over to
/// every pattern the renderers emit.
pub proof fn lemma_positional_bindings_synthesized(fields: FieldList, rename: bool, i: int)
    requires
        fields matches FieldList::Positional(_),
    ensures
        binding_frag(fields, "field_"@, rename, i) == synthesized_name(i) + ","@,
{
}

} // verus!
