//! Small string helpers shared by the pipeline modules.

use vstd::prelude::*;

verus! {

/// Relies on `str`'s `PartialEq`: two string slices compare equal exactly
/// when their character sequences are equal.
#[verifier::external_body]
pub(crate) fn str_eq(a: &str, b: &str) -> (r: bool)
    ensures
        r == (a@ == b@),
{
    a == b
}

/// The items joined by `sep`: empty for no items, and no trailing
/// separator.
pub open spec fn spec_join(items: Seq<String>, sep: Seq<char>) -> Seq<char>
    decreases items.len(),
{
    if items.len() == 0 {
        Seq::empty()
    } else if items.len() == 1 {
        items[0]@
    } else {
        items[0]@ + sep + spec_join(items.drop_first(), sep)
    }
}

/// Appending one item to a join appends a separator (when the join was
/// non-empty) and the item.
proof fn lemma_join_push(items: Seq<String>, sep: Seq<char>, item: String)
    ensures
        spec_join(items.push(item), sep) == if items.len() == 0 {
            item@
        } else {
            spec_join(items, sep) + sep + item@
        },
    decreases items.len(),
{
    let pushed = items.push(item);
    if items.len() == 0 {
        assert(pushed.len() == 1);
        assert(pushed[0] == item);
        assert(spec_join(pushed, sep) == pushed[0]@);
    } else if items.len() == 1 {
        assert(pushed.len() == 2);
        assert(pushed.drop_first() =~= seq![item]);
        assert(seq![item].len() == 1 && seq![item][0] == item);
        assert(spec_join(seq![item], sep) == item@);
        assert(pushed[0] == items[0]);
        assert(spec_join(pushed, sep) == pushed[0]@ + sep + spec_join(pushed.drop_first(), sep));
        assert(spec_join(items, sep) == items[0]@);
    } else {
        assert(pushed.drop_first() =~= items.drop_first().push(item));
        lemma_join_push(items.drop_first(), sep, item);
        assert(pushed[0] == items[0]);
        assert(spec_join(pushed, sep) == pushed[0]@ + sep + spec_join(pushed.drop_first(), sep));
        assert(spec_join(items, sep) == items[0]@ + sep + spec_join(items.drop_first(), sep));
        assert((items[0]@ + sep + spec_join(items.drop_first(), sep)) + sep + item@ =~= items[0]@
            + sep + (spec_join(items.drop_first(), sep) + sep + item@));
    }
}

/// Joins the items with the separator.
pub fn join_with(items: &Vec<String>, sep: &str) -> (r: String)
    ensures
        r@ == spec_join(items@, sep@),
{
    let mut out = String::new();
    let mut i: usize = 0;
    while i < items.len()
        invariant
            i <= items.len(),
            out@ == spec_join(items@.take(i as int), sep@),
        decreases items.len() - i,
    {
        if i > 0 {
            out.append(sep);
        }
        out.append(items[i].as_str());
        proof {
            assert(items@.take(i as int).push(items@[i as int]) =~= items@.take(i as int + 1));
            lemma_join_push(items@.take(i as int), sep@, items@[i as int]);
        }
        i += 1;
    }
    proof {
        assert(items@.take(items@.len() as int) =~= items@);
    }
    out
}

} // verus!
