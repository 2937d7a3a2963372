//! Small verified string utilities: character-wise equality of string
//! slices and comma-joining, used by lookups and diagnostic messages.

use vstd::prelude::*;
use vstd::string::StrSliceExecFns;
use vstd::string::StringExecFns;

verus! {

/// Character-wise equality of two string slices.
pub fn str_eq(a: &str, b: &str) -> (r: bool)
    ensures
        r == (a@ == b@),
{
    let la = a.unicode_len();
    let lb = b.unicode_len();
    if la != lb {
        return false;
    }
    let mut i: usize = 0;
    while i < la
        invariant
            la == a@.len(),
            la == b@.len(),
            i <= la,
            forall|j: int| 0 <= j < i ==> a@[j] == b@[j],
        decreases la - i,
    {
        if a.get_char(i) != b.get_char(i) {
            return false;
        }
        i = i + 1;
    }
    proof {
        assert(a@ =~= b@);
    }
    true
}

/// The names joined with `", "` between neighbours, empty for none.
pub open spec fn comma_joined(s: Seq<Seq<char>>) -> Seq<char>
    decreases s.len(),
{
    if s.len() == 0 {
        Seq::empty()
    } else if s.len() == 1 {
        s[0]
    } else {
        comma_joined(s.drop_last()) + ", "@ + s.last()
    }
}

/// Join the strings with `", "`, in order.
pub fn join_comma(items: &Vec<String>) -> (r: String)
    ensures
        r@ == comma_joined(items.deep_view()),
{
    let ghost all = items.deep_view();
    let mut acc = String::new();
    let mut i: usize = 0;
    while i < items.len()
        invariant
            all == items.deep_view(),
            all.len() == items.len(),
            i <= items.len(),
            acc@ == comma_joined(all.take(i as int)),
        decreases items.len() - i,
    {
        if i > 0 {
            acc.append(", ");
        }
        acc.append(items[i].as_str());
        proof {
            assert(all.take(i + 1).drop_last() =~= all.take(i as int));
            assert(all.take(i + 1).last() == all[i as int]);
            assert(items.deep_view()[i as int] == items[i as int]@);
        }
        i = i + 1;
    }
    proof {
        assert(all.take(items.len() as int) =~= all);
    }
    acc
}

} // verus!
