//! From the files of a directory to the list of posts: which files count and
//! what slug the name of a file gives.
//!
//! A file counts when its name ends in `.md` behind at least one more
//! character and its contents are valid UTF-8. The slug is the name without
//! that ending. The list is put in order as [`crate::listing`] says.

use crate::blog::{parse_blog_post, post_of, BlogPost, BlogPostView};
use crate::listing::{in_order_of, sort_newest_first, views};
use crate::text::{chars_of, same_text, string_of};
use vstd::prelude::*;
use vstd::slice::slice_subrange;
use vstd::string::*;
use vstd::utf8::{decode_utf8, encode_utf8_decode_utf8, valid_utf8};

verus! {

/// A file as the site finds it: its name, without any directory, and its bytes.
#[derive(Clone, Debug)]
pub struct SourceFile {
    pub name: String,
    pub contents: Vec<u8>,
}

/// The mathematical content of a [`SourceFile`].
pub struct SourceFileView {
    pub name: Seq<char>,
    pub contents: Seq<u8>,
}

impl View for SourceFile {
    type V = SourceFileView;

    open spec fn view(&self) -> SourceFileView {
        SourceFileView { name: self.name@, contents: self.contents@ }
    }
}

/// The ending of the name of a file that holds a post.
pub open spec fn ending() -> Seq<char> {
    ".md"@
}

/// The slug that the name of a file gives: the name without its ending `.md`.
/// A name that does not end so, or that is nothing but the ending, gives none.
pub open spec fn markdown_stem(name: Seq<char>) -> Option<Seq<char>> {
    let n = name.len() - ending().len();
    if n > 0 && name.skip(n) == ending() {
        Some(name.take(n))
    } else {
        None
    }
}

/// The post that a file holds, where it counts.
pub open spec fn post_of_file(file: SourceFileView) -> Option<BlogPostView> {
    match markdown_stem(file.name) {
        Some(slug) => if valid_utf8(file.contents) {
            Some(post_of(decode_utf8(file.contents), slug))
        } else {
            None
        },
        None => None,
    }
}

/// The posts of the files that count, in the order of the files.
pub open spec fn accepted(files: Seq<SourceFileView>) -> Seq<BlogPostView>
    decreases files.len(),
{
    if files.len() == 0 {
        Seq::empty()
    } else {
        let before = accepted(files.drop_last());
        match post_of_file(files.last()) {
            Some(post) => before.push(post),
            None => before,
        }
    }
}

/// The contents of a sequence of files.
pub open spec fn file_views(files: Seq<SourceFile>) -> Seq<SourceFileView> {
    Seq::new(files.len(), |i: int| files[i]@)
}

/// Calls `core::str::from_utf8`. Trusted: the call succeeds on the byte
/// sequences that are valid UTF-8 and on no others, and the text it hands back
/// is encoded by the very bytes it was given.
#[verifier::external_body]
fn utf8_text(bytes: &[u8]) -> (r: Option<&str>)
    ensures
        match r {
            Some(s) => valid_utf8(bytes@) && s.spec_bytes() == bytes@,
            None => !valid_utf8(bytes@),
        },
{
    core::str::from_utf8(bytes).ok()
}

/// Derives the slug from the name of a file.
pub fn markdown_slug(name: &str) -> (r: Option<String>)
    ensures
        match r {
            Some(slug) => markdown_stem(name@) == Some(slug@),
            None => markdown_stem(name@) is None,
        },
{
    let text = chars_of(name);
    let end = chars_of(".md");
    if text.len() <= end.len() {
        return None;
    }
    let n = text.len() - end.len();
    if same_text(slice_subrange(text.as_slice(), n, text.len()), end.as_slice()) {
        Some(string_of(slice_subrange(text.as_slice(), 0, n)))
    } else {
        None
    }
}

/// Reads the post that a file holds, where the file counts.
pub fn post_from_file(file: &SourceFile) -> (r: Option<BlogPost>)
    ensures
        match r {
            Some(post) => post_of_file(file@) == Some(post@),
            None => post_of_file(file@) is None,
        },
{
    match markdown_slug(file.name.as_str()) {
        Some(slug) => match utf8_text(file.contents.as_slice()) {
            Some(text) => {
                proof {
                    encode_utf8_decode_utf8(text@);
                }
                Some(parse_blog_post(text, slug))
            },
            None => None,
        },
        None => None,
    }
}

/// Reads the posts of the files that count and puts them in order.
pub fn create_sample_blog_posts(files: &Vec<SourceFile>) -> (posts: Vec<BlogPost>)
    ensures
        in_order_of(views(posts@), accepted(file_views(files@))),
{
    let mut posts: Vec<BlogPost> = Vec::new();
    let mut i: usize = 0;
    while i < files.len()
        invariant
            i <= files.len(),
            views(posts@) == accepted(file_views(files@).take(i as int)),
        decreases files.len() - i,
    {
        let ghost seen = file_views(files@).take(i + 1);
        assert(seen.drop_last() == file_views(files@).take(i as int));
        if let Some(post) = post_from_file(&files[i]) {
            posts.push(post);
        }
        i += 1;
    }
    assert(file_views(files@).take(i as int) == file_views(files@));
    sort_newest_first(posts)
}

} // verus!
