//! The order of names: sequences of characters compared position by
//! position, a proper prefix coming before what extends it.

use vstd::prelude::*;
use vstd::std_specs::iter::IteratorSpec;

verus! {

broadcast use vstd::string::group_string_axioms;

/// `a` comes strictly before `b`: at the first position where they differ
/// `a` holds the smaller character, or `a` ends there and `b` goes on.
pub open spec fn name_lt(a: Seq<char>, b: Seq<char>) -> bool
    decreases a.len(),
{
    if b.len() == 0 {
        false
    } else if a.len() == 0 {
        true
    } else if a[0] != b[0] {
        (a[0] as u32) < (b[0] as u32)
    } else {
        name_lt(a.drop_first(), b.drop_first())
    }
}

/// No name comes before itself.
pub proof fn lemma_name_lt_irreflexive(a: Seq<char>)
    ensures
        !name_lt(a, a),
    decreases a.len(),
{
    if a.len() > 0 {
        lemma_name_lt_irreflexive(a.drop_first());
    }
}

/// The order is transitive.
pub proof fn lemma_name_lt_transitive(a: Seq<char>, b: Seq<char>, c: Seq<char>)
    requires
        name_lt(a, b),
        name_lt(b, c),
    ensures
        name_lt(a, c),
    decreases a.len(),
{
    if a.len() > 0 && a[0] == b[0] && b[0] == c[0] {
        lemma_name_lt_transitive(a.drop_first(), b.drop_first(), c.drop_first());
    }
}

/// Each name of the sequence comes strictly before every later one.
pub open spec fn ascending(names: Seq<Seq<char>>) -> bool {
    forall|i: int, j: int|
        0 <= i < j < names.len() ==> name_lt(#[trigger] names[i], #[trigger] names[j])
}

/// An ascending sequence holds no name twice.
pub proof fn lemma_ascending_no_duplicates(names: Seq<Seq<char>>)
    requires
        ascending(names),
    ensures
        names.no_duplicates(),
{
    assert forall|i: int, j: int|
        0 <= i < names.len() && 0 <= j < names.len() && i != j implies names[i] != names[j] by {
        lemma_name_lt_irreflexive(names[i]);
        if i < j {
            assert(name_lt(names[i], names[j]));
        } else {
            assert(name_lt(names[j], names[i]));
        }
    }
}

/// A sequence in which each name comes strictly before the next is
/// ascending.
pub proof fn lemma_neighbours_ascend(names: Seq<Seq<char>>)
    requires
        forall|i: int| 0 <= i < names.len() - 1 ==> name_lt(#[trigger] names[i], names[i + 1]),
    ensures
        ascending(names),
    decreases names.len(),
{
    if names.len() > 1 {
        let front = names.drop_last();
        assert forall|i: int| 0 <= i < front.len() - 1 implies name_lt(
            #[trigger] front[i],
            front[i + 1],
        ) by {
            assert(name_lt(names[i], names[i + 1]));
        }
        lemma_neighbours_ascend(front);
        assert forall|i: int, j: int| 0 <= i < j < names.len() implies name_lt(
            #[trigger] names[i],
            #[trigger] names[j],
        ) by {
            let last = names.len() - 1;
            if j < last {
                assert(name_lt(front[i], front[j]));
            } else if i < last - 1 {
                assert(name_lt(front[i], front[last - 1]));
                assert(name_lt(names[last - 1], names[last - 1 + 1]));
                lemma_name_lt_transitive(names[i], names[last - 1], names[last]);
            } else {
                assert(name_lt(names[i], names[i + 1]));
            }
        }
    }
}

/// The order looks only at what follows a common beginning.
proof fn lemma_name_lt_skip(a: Seq<char>, b: Seq<char>, at: int)
    requires
        0 <= at <= a.len(),
        at <= b.len(),
        forall|i: int| 0 <= i < at ==> a[i] == b[i],
    ensures
        name_lt(a, b) == name_lt(a.skip(at), b.skip(at)),
    decreases at,
{
    if at == 0 {
        assert(a.skip(0) =~= a);
        assert(b.skip(0) =~= b);
    } else {
        let ta = a.drop_first();
        let tb = b.drop_first();
        assert forall|i: int| 0 <= i < at - 1 implies ta[i] == tb[i] by {
            assert(a[i + 1] == b[i + 1]);
        }
        lemma_name_lt_skip(ta, tb, at - 1);
        assert(ta.skip(at - 1) =~= a.skip(at));
        assert(tb.skip(at - 1) =~= b.skip(at));
        assert(a[0] == b[0]);
    }
}

/// The characters of a string.
pub fn chars_of(text: &str) -> (chars: Vec<char>)
    ensures
        chars@ == text@,
{
    let mut chars: Vec<char> = Vec::new();
    for c in it: text.chars()
        invariant
            it.seq() == text@,
            chars@ == text@.take(it.index() as int),
    {
        chars.push(c);
        proof {
            assert(text@.take(it.index() + 1) =~= text@.take(it.index() as int).push(c));
        }
    }
    proof {
        assert(text@.take(text@.len() as int) =~= text@);
    }
    chars
}

/// Whether `a` comes strictly before `b`.
pub fn chars_before(a: &Vec<char>, b: &Vec<char>) -> (before: bool)
    ensures
        before == name_lt(a@, b@),
{
    let mut i: usize = 0;
    while i < a.len() && i < b.len()
        invariant
            i <= a.len(),
            i <= b.len(),
            forall|k: int| 0 <= k < i ==> a@[k] == b@[k],
        decreases a.len() - i,
    {
        if a[i] != b[i] {
            proof {
                lemma_name_lt_skip(a@, b@, i as int);
                assert(a@.skip(i as int)[0] == a@[i as int]);
                assert(b@.skip(i as int)[0] == b@[i as int]);
            }
            return (a[i] as u32) < (b[i] as u32);
        }
        i += 1;
    }
    proof {
        lemma_name_lt_skip(a@, b@, i as int);
    }
    i < b.len()
}

} // verus!
