//! The system notice that describes the interests both sides listed.
//!
//! When the pairing server reports common interests, the controller appends
//! one system entry naming them all, in the order they were delivered,
//! separated by a comma and a space.

use vstd::prelude::*;
use vstd::string::*;

verus! {

/// The likes joined with `", "` between them.
pub open spec fn joined_likes(ls: Seq<Seq<char>>) -> Seq<char>
    decreases ls.len(),
{
    if ls.len() == 0 {
        Seq::<char>::empty()
    } else if ls.len() == 1 {
        ls[0]
    } else {
        ls[0] + ", "@ + joined_likes(ls.drop_first())
    }
}

/// The full text of the common-interests notice.
pub open spec fn common_likes_text(ls: Seq<Seq<char>>) -> Seq<char> {
    "Looks like you have stuff in common: "@ + joined_likes(ls)
}

/// Joining one more like appends a separator (unless nothing was joined
/// yet) and the like itself.
pub proof fn lemma_joined_likes_push(ls: Seq<Seq<char>>, x: Seq<char>)
    ensures
        ls.len() == 0 ==> joined_likes(ls.push(x)) =~= x,
        ls.len() > 0 ==> joined_likes(ls.push(x)) =~= joined_likes(ls) + ", "@ + x,
    decreases ls.len(),
{
    if ls.len() == 0 {
        assert(ls.push(x)[0] == x);
    } else {
        lemma_joined_likes_push(ls.drop_first(), x);
        assert(ls.push(x).drop_first() =~= ls.drop_first().push(x));
        if ls.len() == 1 {
            assert(ls.drop_first().len() == 0);
        } else {
            assert(ls[0] + ", "@ + (joined_likes(ls.drop_first()) + ", "@ + x) =~= (ls[0] + ", "@
                + joined_likes(ls.drop_first())) + ", "@ + x);
        }
    }
}

/// Builds the common-interests notice for the given likes.
pub fn common_likes_notice(likes: &Vec<String>) -> (r: String)
    ensures
        r@ == common_likes_text(likes.deep_view()),
{
    let ghost ls = likes.deep_view();
    let mut r = "Looks like you have stuff in common: ".to_owned();
    let mut i: usize = 0;
    proof {
        assert(ls.take(0) =~= Seq::<Seq<char>>::empty());
        assert(r@ + Seq::<char>::empty() =~= r@);
    }
    while i < likes.len()
        invariant
            i <= likes.len(),
            ls == likes.deep_view(),
            r@ == "Looks like you have stuff in common: "@ + joined_likes(ls.take(i as int)),
        decreases likes.len() - i,
    {
        if i > 0 {
            r.append(", ");
        }
        r.append(likes[i].as_str());
        proof {
            lemma_joined_likes_push(ls.take(i as int), ls[i as int]);
            assert(ls.take(i + 1) =~= ls.take(i as int).push(ls[i as int]));
            assert(r@ =~= "Looks like you have stuff in common: "@ + joined_likes(ls.take(i + 1)));
        }
        i = i + 1;
    }
    proof {
        assert(ls.take(likes.len() as int) =~= ls);
    }
    r
}

} // verus!
