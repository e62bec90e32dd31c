//! Blog posts: what a post is, and how one is read from a text.

use crate::dates::{
    date_text, epoch, layout_display, rfc3339_moment, Dating, DatingView, Timestamp,
};
use crate::frontmatter::{split, split_frontmatter, texts_of, Frontmatter, FrontmatterView};
use crate::text::{chars_of, string_of};
use vstd::prelude::*;
use vstd::string::*;

verus! {

/// A post of the blog.
#[derive(Clone, Debug)]
pub struct BlogPost {
    /// The title, "Untitled" where the text names none.
    pub title: String,
    /// The date as the post shows it, "Unknown" where the text names none.
    pub date_display: String,
    /// The body: the text without its frontmatter.
    pub content: String,
    /// The name by which a URL refers to the post.
    pub slug: String,
    /// The instant by which posts are ordered.
    pub published_at: Timestamp,
}

/// The mathematical content of a [`BlogPost`].
pub struct BlogPostView {
    pub title: Seq<char>,
    pub date_display: Seq<char>,
    pub content: Seq<char>,
    pub slug: Seq<char>,
    pub published_at: Timestamp,
}

impl View for BlogPost {
    type V = BlogPostView;

    open spec fn view(&self) -> BlogPostView {
        BlogPostView {
            title: self.title@,
            date_display: self.date_display@,
            content: self.content@,
            slug: self.slug@,
            published_at: self.published_at,
        }
    }
}

/// The post that a frontmatter, a body and the slug of the file make. The
/// frontmatter's title and slug stand where it has them; "Untitled" and the
/// file's slug stand in otherwise. The date lines are taken in one after the
/// other.
pub open spec fn assembled(fm: FrontmatterView, body: Seq<char>, slug: Seq<char>) -> BlogPostView {
    let dating = DatingView::unknown().dated_all(fm.dates);
    BlogPostView {
        title: match fm.title {
            Some(t) => t,
            None => "Untitled"@,
        },
        date_display: dating.display,
        content: body,
        slug: match fm.slug {
            Some(s) => s,
            None => slug,
        },
        published_at: dating.published_at,
    }
}

/// What the block of a text says; nothing, where the text has no block.
pub open spec fn frontmatter_of(content: Seq<char>) -> FrontmatterView {
    match split(content).0 {
        Some(block) => FrontmatterView::empty().with_lines(block),
        None => FrontmatterView::empty(),
    }
}

/// The post that the text `content` of a file with the slug `slug` makes.
pub open spec fn post_of(content: Seq<char>, slug: Seq<char>) -> BlogPostView {
    assembled(frontmatter_of(content), split(content).1, slug)
}

impl BlogPost {
    /// Makes a post of a frontmatter, a body and the slug of the file.
    pub fn assemble(fm: Frontmatter, body: String, slug: String) -> (post: BlogPost)
        ensures
            post@ == assembled(fm@, body@, slug@),
    {
        let mut dating = Dating::unknown();
        let mut i: usize = 0;
        while i < fm.dates.len()
            invariant
                i <= fm.dates.len(),
                dating@ == DatingView::unknown().dated_all(texts_of(fm.dates@).take(i as int)),
            decreases fm.dates.len() - i,
        {
            let ghost seen = texts_of(fm.dates@).take(i + 1);
            assert(seen.drop_last() == texts_of(fm.dates@).take(i as int));
            dating = dating.read(fm.dates[i].as_str());
            i += 1;
        }
        assert(texts_of(fm.dates@).take(i as int) == texts_of(fm.dates@));
        let title = match fm.title {
            Some(t) => t,
            None => String::from_str("Untitled"),
        };
        let slug = match fm.slug {
            Some(s) => s,
            None => slug,
        };
        BlogPost {
            title,
            date_display: dating.display,
            content: body,
            slug,
            published_at: dating.published_at,
        }
    }
}

/// Reads a post from the text of a file. `slug` is the slug that the file's
/// name gives; a `slug` line in the frontmatter overrides it.
pub fn parse_blog_post(content: &str, slug: String) -> (post: BlogPost)
    ensures
        post@ == post_of(content@, slug@),
{
    let text = chars_of(content);
    let (block, body) = split_frontmatter(text.as_slice());
    let fm = match block {
        Some(b) => Frontmatter::scan(b),
        None => Frontmatter::empty(),
    };
    BlogPost::assemble(fm, string_of(body), slug)
}

/// A post whose frontmatter has no date line, and so every post without a
/// frontmatter, shows "Unknown" and has the instant of the epoch.
pub proof fn law_undated_post_has_epoch(content: Seq<char>, slug: Seq<char>)
    requires
        frontmatter_of(content).dates.len() == 0,
    ensures
        post_of(content, slug).published_at == epoch(),
        post_of(content, slug).date_display == "Unknown"@,
{
}

/// A post whose last date line holds a date of RFC 3339 has the instant of
/// that date and shows its day, in the date's own offset, as `chrono` writes
/// it in the display layout: month name, day, year.
pub proof fn law_rfc3339_date_shown(content: Seq<char>, slug: Seq<char>)
    requires
        frontmatter_of(content).dates.len() > 0,
    ensures
        rfc3339_moment(frontmatter_of(content).dates.last()) matches Some(read) ==> {
            let post = post_of(content, slug);
            &&& post.published_at == read.stamp
            &&& date_text(read.year as int, read.month as int, read.day as int, layout_display())
                matches Some(label) ==> post.date_display == label
        },
{
}

} // verus!
