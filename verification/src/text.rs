//! Building and comparing the texts that errors and requests carry.
use vstd::prelude::*;

verus! {

/// The pieces in order, with the separator between each two of them.
pub open spec fn joined(pieces: Seq<Seq<char>>, separator: Seq<char>) -> Seq<char>
    decreases pieces.len(),
{
    if pieces.len() == 0 {
        Seq::empty()
    } else if pieces.len() == 1 {
        pieces[0]
    } else {
        joined(pieces.drop_last(), separator) + separator + pieces.last()
    }
}

/// Whether both texts hold the same characters.
pub fn same_text(left: &str, right: &str) -> (same: bool)
    ensures
        same == (left@ == right@),
{
    left.to_owned() == right.to_owned()
}

/// Whether `wanted` is one of `texts`.
pub fn contains_text(texts: &Vec<String>, wanted: &str) -> (found: bool)
    ensures
        found == texts.deep_view().contains(wanted@),
{
    let ghost views = texts.deep_view();
    for i in 0..texts.len()
        invariant
            views == texts.deep_view(),
            forall|j: int| 0 <= j < i ==> views[j] != wanted@,
    {
        if same_text(texts[i].as_str(), wanted) {
            assert(views[i as int] == wanted@);
            return true;
        }
    }
    false
}

/// `left` followed by `right`.
pub fn followed_by(left: &str, right: &str) -> (whole: String)
    ensures
        whole@ == left@ + right@,
{
    let mut whole = left.to_owned();
    whole.append(right);
    whole
}

/// Joins `pieces` with `separator` between them.
pub fn join(pieces: &Vec<String>, separator: &str) -> (whole: String)
    ensures
        whole@ == joined(pieces.deep_view(), separator@),
{
    let mut whole = String::new();
    let ghost views = pieces.deep_view();
    for i in 0..pieces.len()
        invariant
            views == pieces.deep_view(),
            whole@ == joined(views.take(i as int), separator@),
    {
        proof {
            assert(views.take(i + 1).drop_last() =~= views.take(i as int));
            assert(views.take(i + 1).last() == pieces[i as int]@);
            if i == 0 {
                assert(views.take(0) =~= Seq::empty());
            }
        }
        if i > 0 {
            whole.append(separator);
        }
        whole.append(pieces[i].as_str());
        assert(whole@ =~= joined(views.take(i + 1), separator@));
    }
    assert(views.take(views.len() as int) =~= views);
    whole
}

} // verus!
