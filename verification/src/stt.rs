//! Turning the segments that speech recognition produces into a transcript.
use vstd::prelude::*;
use vstd::string::StringExecFns;
use crate::text::{trim, trim_ws};

verus! {

/// The texts of `parts` one after the other.
pub open spec fn concat_all(parts: Seq<Seq<char>>) -> Seq<char>
    decreases parts.len(),
{
    if parts.len() == 0 {
        Seq::<char>::empty()
    } else {
        concat_all(parts.drop_last()) + parts.last()
    }
}

/// The views of a sequence of strings.
pub open spec fn strings_view(s: Seq<String>) -> Seq<Seq<char>> {
    s.map_values(|t: String| t@)
}

/// The transcript that recognised segments make: their texts joined in
/// order, without leading and trailing whitespace.
pub fn transcript_from_segments(segments: &Vec<String>) -> (r: String)
    ensures
        r@ == trim_ws(concat_all(strings_view(segments@))),
{
    let mut out = String::new();
    let n = segments.len();
    for i in 0..n
        invariant
            n == segments@.len(),
            out@ == concat_all(strings_view(segments@.subrange(0, i as int))),
    {
        let ghost before = segments@.subrange(0, i as int);
        out.append(segments[i].as_str());
        assert(strings_view(segments@.subrange(0, i + 1)).drop_last() =~= strings_view(before));
    }
    assert(segments@.subrange(0, n as int) =~= segments@);
    trim(out.as_str())
}

/// Law: joining keeps every segment, in order, with nothing added: no
/// segments join to nothing, one more segment adds exactly its text at the
/// end, joining two runs of segments is joining each and putting the
/// results one after the other, and the joined length is the sum of the
/// segments' lengths.
pub proof fn lemma_concat_all_keeps_every_segment(parts: Seq<Seq<char>>, more: Seq<Seq<char>>, p: Seq<char>)
    ensures
        concat_all(Seq::<Seq<char>>::empty()) == Seq::<char>::empty(),
        concat_all(parts.push(p)) == concat_all(parts) + p,
        concat_all(parts + more) == concat_all(parts) + concat_all(more),
        concat_all(parts).len() == parts.fold_left(0int, |acc: int, t: Seq<char>| acc + t.len()),
    decreases more.len() + parts.len(),
{
    assert(parts.push(p).drop_last() =~= parts);
    if more.len() > 0 {
        lemma_concat_all_keeps_every_segment(parts, more.drop_last(), p);
        assert((parts + more).drop_last() =~= parts + more.drop_last());
        assert((parts + more).last() == more.last());
    } else {
        assert(parts + more =~= parts);
    }
    if parts.len() > 0 {
        lemma_concat_all_keeps_every_segment(parts.drop_last(), Seq::<Seq<char>>::empty(), p);
    }
}

/// Law: the views of a sequence of strings are the strings' views one by
/// one, nothing dropped or reordered.
pub proof fn lemma_strings_view_pointwise(s: Seq<String>)
    ensures
        strings_view(s).len() == s.len(),
        forall|i: int| 0 <= i < s.len() ==> #[trigger] strings_view(s)[i] == s[i]@,
{
}

} // verus!
