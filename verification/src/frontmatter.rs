//! The frontmatter of a post: a block of `key: value` lines between two `---`
//! lines at the head of the text.
//!
//! A text has a block when it starts with `---` and a line feed, and a line
//! feed followed by `---` and a line feed comes later. The block is what
//! stands between the two markers, up to the first such closing; the body is
//! what follows the closing. A text without both markers has no block and is
//! all body.
//!
//! Within the block the keys `title`, `date` and `slug` are read; every other
//! line is passed over. This module reads the values as text only: what a date
//! value means is settled in [`crate::dates`].

use crate::text::{
    chars_of, find, find_of, position, position_of, starts_with, string_of, strip_prefix_of, trim,
    trim_of, CharClass,
};
use vstd::prelude::*;
use vstd::slice::slice_subrange;

verus! {

/// The marker that opens a block.
pub open spec fn opening() -> Seq<char> {
    "---\n"@
}

/// The marker that closes a block.
pub open spec fn closing() -> Seq<char> {
    "\n---\n"@
}

/// The block of `content`, where it has one, and its body.
pub open spec fn split(content: Seq<char>) -> (Option<Seq<char>>, Seq<char>) {
    if starts_with(content, opening()) {
        let rest = content.skip(opening().len() as int);
        match find(rest, closing()) {
            Some(end) => (Some(rest.take(end)), rest.skip(end + closing().len())),
            None => (None, content),
        }
    } else {
        (None, content)
    }
}

/// The value that stands behind a key: without the whitespace around it, and
/// then without the double quotes around that.
pub open spec fn field_value(rest: Seq<char>) -> Seq<char> {
    trim(trim(rest, CharClass::Whitespace), CharClass::Exactly('"'))
}

/// What a block says, as text.
pub struct Frontmatter {
    /// The value of the last `title` line.
    pub title: Option<String>,
    /// The values of the `date` lines, in their order.
    pub dates: Vec<String>,
    /// The value of the last `slug` line whose value is not empty.
    pub slug: Option<String>,
}

/// The mathematical content of a [`Frontmatter`].
pub struct FrontmatterView {
    pub title: Option<Seq<char>>,
    pub dates: Seq<Seq<char>>,
    pub slug: Option<Seq<char>>,
}

/// The text of an optional string.
pub open spec fn text_of(s: Option<String>) -> Option<Seq<char>> {
    match s {
        Some(t) => Some(t@),
        None => None,
    }
}

/// The texts of a sequence of strings.
pub open spec fn texts_of(s: Seq<String>) -> Seq<Seq<char>> {
    Seq::new(s.len(), |i: int| s[i]@)
}

impl View for Frontmatter {
    type V = FrontmatterView;

    open spec fn view(&self) -> FrontmatterView {
        FrontmatterView {
            title: text_of(self.title),
            dates: texts_of(self.dates@),
            slug: text_of(self.slug),
        }
    }
}

impl FrontmatterView {
    /// A block that says nothing.
    pub open spec fn empty() -> FrontmatterView {
        FrontmatterView { title: None, dates: Seq::empty(), slug: None }
    }

    /// What is known after one more line. The line is taken without the
    /// whitespace around it; its key decides what it changes.
    pub open spec fn with_line(self, line: Seq<char>) -> FrontmatterView {
        let l = trim(line, CharClass::Whitespace);
        if starts_with(l, "title:"@) {
            FrontmatterView { title: Some(field_value(l.skip("title:"@.len() as int))), ..self }
        } else if starts_with(l, "date:"@) {
            FrontmatterView {
                dates: self.dates.push(field_value(l.skip("date:"@.len() as int))),
                ..self
            }
        } else if starts_with(l, "slug:"@) {
            let candidate = field_value(l.skip("slug:"@.len() as int));
            if candidate.len() > 0 {
                FrontmatterView { slug: Some(candidate), ..self }
            } else {
                self
            }
        } else {
            self
        }
    }

    /// What is known after the lines of `block`, which a line feed separates.
    pub open spec fn with_lines(self, block: Seq<char>) -> FrontmatterView
        decreases block.len(),
    {
        let n = position(block, '\n');
        let next = self.with_line(block.take(n));
        if 0 <= n < block.len() {
            next.with_lines(block.skip(n + 1))
        } else {
            next
        }
    }
}

/// Parts the block from the body.
pub fn split_frontmatter<'a>(content: &'a [char]) -> (r: (Option<&'a [char]>, &'a [char]))
    ensures
        match r.0 {
            Some(block) => split(content@).0 == Some(block@),
            None => split(content@).0 is None,
        },
        r.1@ == split(content@).1,
{
    let open = chars_of("---\n");
    let close = chars_of("\n---\n");
    match strip_prefix_of(content, open.as_slice()) {
        Some(rest) => {
            match find_of(rest, close.as_slice()) {
                Some(end) => {
                    let block = slice_subrange(rest, 0, end);
                    let body = slice_subrange(rest, end + close.len(), rest.len());
                    (Some(block), body)
                },
                None => (None, content),
            }
        },
        None => (None, content),
    }
}

/// Reads the value behind a key.
pub fn field_value_of<'a>(rest: &'a [char]) -> (r: &'a [char])
    ensures
        r@ == field_value(rest@),
{
    trim_of(trim_of(rest, CharClass::Whitespace), CharClass::Exactly('"'))
}

impl Frontmatter {
    /// A block that says nothing.
    pub fn empty() -> (r: Frontmatter)
        ensures
            r@ == FrontmatterView::empty(),
    {
        let r = Frontmatter { title: None, dates: Vec::new(), slug: None };
        assert(r@.dates =~= Seq::<Seq<char>>::empty());
        r
    }

    /// Takes in one line of a block.
    pub fn take_line(&mut self, line: &[char])
        ensures
            final(self)@ == old(self)@.with_line(line@),
    {
        let title_key = chars_of("title:");
        let date_key = chars_of("date:");
        let slug_key = chars_of("slug:");
        let l = trim_of(line, CharClass::Whitespace);
        if let Some(rest) = strip_prefix_of(l, title_key.as_slice()) {
            self.title = Some(string_of(field_value_of(rest)));
        } else if let Some(rest) = strip_prefix_of(l, date_key.as_slice()) {
            let value = string_of(field_value_of(rest));
            self.dates.push(value);
            assert(self@.dates =~= old(self)@.dates.push(value@));
        } else if let Some(rest) = strip_prefix_of(l, slug_key.as_slice()) {
            let candidate = field_value_of(rest);
            if candidate.len() > 0 {
                self.slug = Some(string_of(candidate));
            }
        }
    }

    /// Reads a block line by line.
    pub fn scan(block: &[char]) -> (fm: Frontmatter)
        ensures
            fm@ == FrontmatterView::empty().with_lines(block@),
    {
        let mut fm = Frontmatter::empty();
        let mut rest = block;
        loop
            invariant
                FrontmatterView::empty().with_lines(block@) == fm@.with_lines(rest@),
            decreases rest.len(),
        {
            let n = position_of(rest, '\n');
            fm.take_line(slice_subrange(rest, 0, n));
            if n < rest.len() {
                rest = slice_subrange(rest, n + 1, rest.len());
            } else {
                return fm;
            }
        }
    }
}

} // verus!
