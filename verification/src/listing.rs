//! The list of posts: its order, and how a slug finds a post in it.
//!
//! The list runs from the newest post to the oldest, and posts with the same
//! instant keep the order in which they came. A slug names the last post of
//! the list that has it; posts that share a slug all stay in the list.

use crate::blog::{BlogPost, BlogPostView};
use crate::dates::{epoch, Timestamp};
use vstd::multiset::Multiset;
use vstd::prelude::*;
use vstd::seq_lib::to_multiset_build;

verus! {

/// The contents of a sequence of posts.
pub open spec fn views(posts: Seq<BlogPost>) -> Seq<BlogPostView> {
    Seq::new(posts.len(), |i: int| posts[i]@)
}

/// The test that a post has the instant `t`.
pub open spec fn stamped(t: Timestamp) -> spec_fn(BlogPostView) -> bool {
    |p: BlogPostView| p.published_at == t
}

/// Whether no post stands before a newer one.
pub open spec fn newest_first(posts: Seq<BlogPostView>) -> bool {
    forall|i: int, j: int|
        0 <= i < j < posts.len() ==> !(#[trigger] posts[i]).published_at.before(
            (#[trigger] posts[j]).published_at,
        )
}

/// Whether `out` is `input` put in order: newest first, and for every instant
/// the posts with that instant are the same and in the same order as in
/// `input`. There is one such sequence for each input.
pub open spec fn in_order_of(out: Seq<BlogPostView>, input: Seq<BlogPostView>) -> bool {
    &&& newest_first(out)
    &&& out.len() == input.len()
    &&& forall|t: Timestamp| #[trigger] out.filter(stamped(t)) == input.filter(stamped(t))
}

/// The place of the post that a slug names: the last post of the list with
/// that slug. Two posts may share a slug; both stay in the list, and the one
/// that stands later is the one found.
pub open spec fn lookup(posts: Seq<BlogPostView>, slug: Seq<char>) -> Option<int>
    decreases posts.len(),
{
    if posts.len() == 0 {
        None
    } else if posts.last().slug == slug {
        Some(posts.len() - 1)
    } else {
        lookup(posts.drop_last(), slug)
    }
}

/// A filter passes over a new last element that fails its test and keeps one
/// that meets it.
pub proof fn lemma_filter_push<A>(s: Seq<A>, x: A, pred: spec_fn(A) -> bool)
    ensures
        s.push(x).filter(pred) == if pred(x) {
            s.filter(pred).push(x)
        } else {
            s.filter(pred)
        },
{
    reveal(Seq::filter);
    assert(s.push(x).drop_last() == s);
}

/// A filter leaves nothing of a sequence in which nothing meets its test.
pub proof fn lemma_filter_none<A>(s: Seq<A>, pred: spec_fn(A) -> bool)
    requires
        forall|i: int| 0 <= i < s.len() ==> !pred(#[trigger] s[i]),
    ensures
        s.filter(pred) == Seq::<A>::empty(),
    decreases s.len(),
{
    reveal(Seq::filter);
    if s.len() > 0 {
        lemma_filter_none(s.drop_last(), pred);
    }
}

/// What a filter sees of a sequence after an insertion at `k`, where nothing
/// from `k` on meets the test: with an `x` that meets it, what it saw before
/// and then `x`; with another `x`, what it saw before.
pub proof fn lemma_filter_insert<A>(s: Seq<A>, k: int, x: A, pred: spec_fn(A) -> bool)
    requires
        0 <= k <= s.len(),
        pred(x) ==> forall|i: int| k <= i < s.len() ==> !pred(#[trigger] s[i]),
    ensures
        s.insert(k, x).filter(pred) == if pred(x) {
            s.filter(pred).push(x)
        } else {
            s.filter(pred)
        },
{
    let head = s.take(k);
    let tail = s.skip(k);
    assert(s.insert(k, x) == head.push(x) + tail);
    assert(s == head + tail);
    Seq::filter_distributes_over_add(head.push(x), tail, pred);
    Seq::filter_distributes_over_add(head, tail, pred);
    lemma_filter_push(head, x, pred);
    if pred(x) {
        lemma_filter_none(tail, pred);
    }
}

/// A list that runs newest first still does after a post was put in at `k`,
/// where no post before `k` is older than the new one and the post at `k`, if
/// there is one, is. Every post from `k` on is then older than the new one.
pub proof fn lemma_insert_keeps_order(before: Seq<BlogPostView>, k: int, post: BlogPostView)
    requires
        newest_first(before),
        0 <= k <= before.len(),
        forall|j: int| 0 <= j < k ==> !(#[trigger] before[j]).published_at.before(post.published_at),
        k < before.len() ==> before[k].published_at.before(post.published_at),
    ensures
        newest_first(before.insert(k, post)),
        forall|j: int|
            k <= j < before.len() ==> (#[trigger] before[j]).published_at.before(post.published_at),
{
    let after = before.insert(k, post);
    assert forall|j: int| k <= j < before.len() implies (#[trigger] before[j]).published_at.before(
        post.published_at,
    ) by {
        if k < j {
            assert(!before[k].published_at.before(before[j].published_at));
        }
    }
    assert forall|i: int, j: int| 0 <= i < j < after.len() implies !(#[trigger] after[i]).published_at.before(
        (#[trigger] after[j]).published_at,
    ) by {
        if i < k {
            assert(after[i] == before[i]);
        } else if i > k {
            assert(after[i] == before[i - 1]);
        }
        if j < k {
            assert(after[j] == before[j]);
        } else if j > k {
            assert(after[j] == before[j - 1]);
        }
    }
}

/// Puts posts in order: newest first, posts with the same instant as they came.
pub fn sort_newest_first(posts: Vec<BlogPost>) -> (sorted: Vec<BlogPost>)
    ensures
        in_order_of(views(sorted@), views(posts@)),
{
    let ghost input = views(posts@);
    let mut sorted: Vec<BlogPost> = Vec::new();
    let mut rest = posts;
    let ghost mut done: int = 0;
    proof {
        assert(input.skip(0) == input);
    }
    while rest.len() > 0
        invariant
            0 <= done <= input.len(),
            views(rest@) == input.skip(done),
            sorted.len() == done,
            newest_first(views(sorted@)),
            forall|t: Timestamp| #[trigger]
                views(sorted@).filter(stamped(t)) == input.take(done).filter(stamped(t)),
        decreases rest.len(),
    {
        let ghost waiting = views(rest@);
        let post = rest.remove(0);
        assert(views(rest@) == waiting.skip(1));
        assert(post@ == waiting[0]);
        let mut k: usize = 0;
        while k < sorted.len() && !sorted[k].published_at.is_before(&post.published_at)
            invariant
                k <= sorted.len(),
                forall|j: int|
                    0 <= j < k ==> !(#[trigger] views(sorted@)[j]).published_at.before(
                        post.published_at,
                    ),
            decreases sorted.len() - k,
        {
            k += 1;
        }
        let ghost before = views(sorted@);
        sorted.insert(k, post);
        proof {
            assert(views(sorted@) == before.insert(k as int, post@));
            assert(input.take(done + 1) == input.take(done).push(post@));
            lemma_insert_keeps_order(before, k as int, post@);
            assert forall|t: Timestamp| #[trigger]
                views(sorted@).filter(stamped(t)) == input.take(done + 1).filter(stamped(t)) by {
                lemma_filter_insert(before, k as int, post@, stamped(t));
                lemma_filter_push(input.take(done), post@, stamped(t));
            }
            done = done + 1;
        }
    }
    sorted
}

/// Finds the post that a slug names.
pub fn find_post(posts: &Vec<BlogPost>, slug: &String) -> (r: Option<usize>)
    ensures
        match r {
            Some(i) => lookup(views(posts@), slug@) == Some(i as int) && i < posts.len(),
            None => lookup(views(posts@), slug@) is None,
        },
{
    let mut i: usize = posts.len();
    assert(views(posts@).take(i as int) == views(posts@));
    while i > 0
        invariant
            i <= posts.len(),
            lookup(views(posts@), slug@) == lookup(views(posts@).take(i as int), slug@),
        decreases i,
    {
        let ghost seen = views(posts@).take(i as int);
        assert(seen.drop_last() == views(posts@).take(i - 1));
        if posts[i - 1].slug == *slug {
            return Some(i - 1);
        }
        i -= 1;
    }
    None
}

/// Looking a slug up finds a post with that slug, and none with that slug
/// stands behind the one found. Where no post has the slug, none is found.
pub proof fn lemma_lookup_is_last(posts: Seq<BlogPostView>, slug: Seq<char>)
    ensures
        match lookup(posts, slug) {
            Some(i) => 0 <= i < posts.len() && posts[i].slug == slug && forall|j: int|
                i < j < posts.len() ==> (#[trigger] posts[j]).slug != slug,
            None => forall|j: int| 0 <= j < posts.len() ==> (#[trigger] posts[j]).slug != slug,
        },
    decreases posts.len(),
{
    if posts.len() > 0 && posts.last().slug != slug {
        let rest = posts.drop_last();
        lemma_lookup_is_last(rest, slug);
        match lookup(rest, slug) {
            Some(i) => {
                assert forall|j: int| i < j < posts.len() implies (#[trigger] posts[j]).slug
                    != slug by {
                    if j < rest.len() {
                        assert(posts[j] == rest[j]);
                    }
                }
            },
            None => {
                assert forall|j: int| 0 <= j < posts.len() implies (#[trigger] posts[j]).slug
                    != slug by {
                    if j < rest.len() {
                        assert(posts[j] == rest[j]);
                    }
                }
            },
        }
    }
}

/// Putting `y` into a multiset raises the count of `y` by one and leaves every
/// other count.
proof fn lemma_count_after_insert<A>(m: Multiset<A>, y: A, x: A)
    ensures
        m.insert(y).count(x) == if x == y {
            m.count(x) + 1
        } else {
            m.count(x)
        },
{
    if x == y {
        vstd::multiset::lemma_insert_increases_count_by_1(m, y);
    } else {
        vstd::multiset::lemma_insert_other_elements_unchanged(m, y, x);
    }
}

/// An element that meets the test of a filter occurs behind the filter as
/// often as before it.
pub proof fn lemma_filter_keeps_count<A>(s: Seq<A>, pred: spec_fn(A) -> bool, x: A)
    requires
        pred(x),
    ensures
        s.filter(pred).to_multiset().count(x) == s.to_multiset().count(x),
    decreases s.len(),
{
    if s.len() == 0 {
        lemma_filter_none(s, pred);
        assert(s == Seq::<A>::empty());
    } else {
        let rest = s.drop_last();
        let y = s.last();
        assert(s == rest.push(y));
        lemma_filter_keeps_count(rest, pred, x);
        lemma_filter_push(rest, y, pred);
        to_multiset_build(rest, y);
        lemma_count_after_insert(rest.to_multiset(), y, x);
        if pred(y) {
            to_multiset_build(rest.filter(pred), y);
            lemma_count_after_insert(rest.filter(pred).to_multiset(), y, x);
        }
    }
}

/// Putting posts in order neither drops a post nor adds one: every post
/// occurs in the list as often as it did before.
pub proof fn lemma_in_order_same_posts(out: Seq<BlogPostView>, input: Seq<BlogPostView>)
    requires
        in_order_of(out, input),
    ensures
        out.to_multiset() == input.to_multiset(),
{
    assert forall|x: BlogPostView| out.to_multiset().count(x) == input.to_multiset().count(x) by {
        let test = stamped(x.published_at);
        lemma_filter_keeps_count(out, test, x);
        lemma_filter_keeps_count(input, test, x);
        assert(out.filter(test) == input.filter(test));
    }
    assert(out.to_multiset() =~= input.to_multiset());
}

/// A list that runs newest first is its own order: what is in order of it is
/// equal to it.
pub proof fn lemma_in_order_of_ordered(out: Seq<BlogPostView>, input: Seq<BlogPostView>)
    requires
        in_order_of(out, input),
        newest_first(input),
    ensures
        out == input,
    decreases out.len(),
{
    if out.len() > 0 {
        let x = out.last();
        let y = input.last();
        lemma_in_order_same_posts(out, input);
        out.to_multiset_ensures();
        input.to_multiset_ensures();
        assert(out.contains(x)) by {
            assert(out[out.len() - 1] == x);
        }
        assert(input.contains(y)) by {
            assert(input[input.len() - 1] == y);
        }
        assert(input.contains(x)) by {
            assert(out.to_multiset().count(x) > 0);
        }
        assert(out.contains(y)) by {
            assert(input.to_multiset().count(y) > 0);
        }
        let k = choose|k: int| 0 <= k < input.len() && input[k] == x;
        let l = choose|l: int| 0 <= l < out.len() && out[l] == y;
        assert(!x.published_at.before(y.published_at)) by {
            if k < input.len() - 1 {
                assert(!input[k].published_at.before(input[input.len() - 1].published_at));
            }
        }
        assert(!y.published_at.before(x.published_at)) by {
            if l < out.len() - 1 {
                assert(!out[l].published_at.before(out[out.len() - 1].published_at));
            }
        }
        assert(x.published_at == y.published_at);
        let shorter = out.drop_last();
        let other = input.drop_last();
        assert(out == shorter.push(x));
        assert(input == other.push(y));
        assert forall|t: Timestamp| #[trigger]
            shorter.filter(stamped(t)) == other.filter(stamped(t)) by {
            lemma_filter_push(shorter, x, stamped(t));
            lemma_filter_push(other, y, stamped(t));
            assert(out.filter(stamped(t)) == input.filter(stamped(t)));
            if t == x.published_at {
                let a = shorter.filter(stamped(t));
                let b = other.filter(stamped(t));
                assert(a.push(x) == b.push(y));
                assert(a == a.push(x).drop_last());
                assert(b == b.push(y).drop_last());
            }
        }
        assert(x == y) by {
            let t = x.published_at;
            lemma_filter_push(shorter, x, stamped(t));
            lemma_filter_push(other, y, stamped(t));
            assert(out.filter(stamped(t)) == input.filter(stamped(t)));
            assert(shorter.filter(stamped(t)).push(x).last() == x);
            assert(other.filter(stamped(t)).push(y).last() == y);
        }
        assert(newest_first(shorter)) by {
            assert forall|i: int, j: int| 0 <= i < j < shorter.len() implies !(
            #[trigger] shorter[i]).published_at.before((#[trigger] shorter[j]).published_at) by {
                assert(shorter[i] == out[i]);
                assert(shorter[j] == out[j]);
            }
        }
        assert(newest_first(other)) by {
            assert forall|i: int, j: int| 0 <= i < j < other.len() implies !(
            #[trigger] other[i]).published_at.before((#[trigger] other[j]).published_at) by {
                assert(other[i] == input[i]);
                assert(other[j] == input[j]);
            }
        }
        lemma_in_order_of_ordered(shorter, other);
    } else {
        assert(out == input);
    }
}

/// The order is settled by the posts: two lists in order of the same posts
/// are the same list.
pub proof fn lemma_in_order_unique(
    one: Seq<BlogPostView>,
    other: Seq<BlogPostView>,
    input: Seq<BlogPostView>,
)
    requires
        in_order_of(one, input),
        in_order_of(other, input),
    ensures
        one == other,
{
    assert forall|t: Timestamp| #[trigger]
        one.filter(stamped(t)) == other.filter(stamped(t)) by {
        assert(one.filter(stamped(t)) == input.filter(stamped(t)));
        assert(other.filter(stamped(t)) == input.filter(stamped(t)));
    }
    lemma_in_order_of_ordered(one, other);
}

/// The later date comes first: in a list put in order, a post stands before
/// every post whose instant is earlier than its own, wherever the two stood
/// among the files.
pub proof fn law_later_date_first(
    out: Seq<BlogPostView>,
    input: Seq<BlogPostView>,
    i: int,
    j: int,
)
    requires
        in_order_of(out, input),
        0 <= i < out.len(),
        0 <= j < out.len(),
        out[j].published_at.before(out[i].published_at),
    ensures
        i < j,
        out.to_multiset() == input.to_multiset(),
{
    lemma_in_order_same_posts(out, input);
    if j < i {
        assert(!out[j].published_at.before(out[i].published_at));
    }
}

/// A post with the instant of the epoch, which a post without a date has,
/// comes last: in a list put in order in which no post is dated before the
/// epoch, only posts with that same instant stand behind it.
pub proof fn law_epoch_comes_last(out: Seq<BlogPostView>, input: Seq<BlogPostView>, i: int)
    requires
        in_order_of(out, input),
        0 <= i < out.len(),
        out[i].published_at == epoch(),
        forall|k: int| 0 <= k < out.len() ==> !(#[trigger] out[k]).published_at.before(epoch()),
    ensures
        forall|j: int| i < j < out.len() ==> (#[trigger] out[j]).published_at == epoch(),
{
    assert forall|j: int| i < j < out.len() implies (#[trigger] out[j]).published_at == epoch() by {
        assert(!out[i].published_at.before(out[j].published_at));
        assert(!out[j].published_at.before(epoch()));
    }
}

/// Posts that share a slug are not merged: the list put in order holds every
/// post as often as the files gave it. A slug then names the last post of the
/// list that has it; where `i` is the place of any post with the slug, the post
/// found stands at `i` or behind it.
pub proof fn law_slug_collision(
    out: Seq<BlogPostView>,
    input: Seq<BlogPostView>,
    slug: Seq<char>,
    i: int,
)
    requires
        in_order_of(out, input),
        0 <= i < out.len(),
        out[i].slug == slug,
    ensures
        out.to_multiset() == input.to_multiset(),
        out.len() == input.len(),
        lookup(out, slug) matches Some(found) && i <= found < out.len() && out[found].slug == slug
            && forall|j: int| found < j < out.len() ==> (#[trigger] out[j]).slug != slug,
{
    lemma_in_order_same_posts(out, input);
    lemma_lookup_is_last(out, slug);
}

} // verus!
