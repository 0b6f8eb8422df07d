//! Joining strings with a separator.

use vstd::prelude::*;
use vstd::string::StringExecFns;
use crate::record::texts;

verus! {

/// The parts in order, with the separator between each two neighbours.
pub open spec fn join(parts: Seq<Seq<char>>, sep: Seq<char>) -> Seq<char>
    decreases parts.len(),
{
    if parts.len() == 0 {
        Seq::empty()
    } else if parts.len() == 1 {
        parts[0]
    } else {
        join(parts.drop_last(), sep) + sep + parts.last()
    }
}

/// Joining one part more appends the separator and the part.
pub proof fn lemma_join_push(parts: Seq<Seq<char>>, sep: Seq<char>, part: Seq<char>)
    ensures
        join(parts.push(part), sep) == if parts.len() == 0 {
            part
        } else {
            join(parts, sep) + sep + part
        },
{
    assert(parts.push(part).drop_last() =~= parts);
}

/// Concatenates the strings, putting `sep` between each two neighbours.
pub fn join_strings(parts: &Vec<String>, sep: &str) -> (out: String)
    ensures
        out@ == join(texts(parts@), sep@),
{
    let mut out = String::new();
    let mut i: usize = 0;
    while i < parts.len()
        invariant
            i <= parts.len(),
            out@ == join(texts(parts@).take(i as int), sep@),
        decreases parts.len() - i,
    {
        proof {
            let done = texts(parts@).take(i as int);
            lemma_join_push(done, sep@, parts@[i as int]@);
            assert(texts(parts@).take(i + 1) =~= done.push(parts@[i as int]@));
            if i == 0 {
                assert(Seq::<char>::empty() + parts@[i as int]@ =~= parts@[i as int]@);
            }
        }
        if i > 0 {
            out.append(sep);
        }
        out.append(parts[i].as_str());
        i += 1;
    }
    proof {
        assert(texts(parts@).take(i as int) =~= texts(parts@));
    }
    out
}

} // verus!
