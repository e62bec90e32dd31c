//! Pages and the URL paths that name them.
//!
//! A path is read without the whitespace around it and without the slashes at
//! its head. Its first segment names the section: `projects`, `blog`, or
//! anything else for the home page. Behind `blog` a second segment, where it
//! is not empty, is the slug of a post. Whatever follows is not looked at.

use crate::text::{
    chars_of, is_space, lemma_position_at, lemma_position_is_first, lemma_trim_end_at,
    lemma_trim_end_cut, lemma_trim_start_at, lemma_trim_start_cut, position, position_of,
    same_text, string_of, trim, trim_of, trim_start, trim_start_of, CharClass,
};
use vstd::prelude::*;
use vstd::slice::slice_subrange;
use vstd::string::*;

verus! {

/// A page of the site.
#[derive(Clone, Debug, PartialEq, Eq)]
pub enum Page {
    Home,
    Projects,
    Blog,
    /// The post with the given slug.
    BlogPost(String),
}

/// The mathematical content of a [`Page`].
pub enum PageView {
    Home,
    Projects,
    Blog,
    BlogPost(Seq<char>),
}

impl View for Page {
    type V = PageView;

    open spec fn view(&self) -> PageView {
        match self {
            Page::Home => PageView::Home,
            Page::Projects => PageView::Projects,
            Page::Blog => PageView::Blog,
            Page::BlogPost(slug) => PageView::BlogPost(slug@),
        }
    }
}

/// A path as it is read: without the whitespace around it and without the
/// slashes at its head.
pub open spec fn stripped(path: Seq<char>) -> Seq<char> {
    trim_start(trim(path, CharClass::Whitespace), CharClass::Exactly('/'))
}

/// The first segment of a text: what stands before its first slash.
pub open spec fn segment(text: Seq<char>) -> Seq<char> {
    text.take(position(text, '/'))
}

/// The page that a path names.
pub open spec fn decode(path: Seq<char>) -> PageView {
    let t = stripped(path);
    let n = position(t, '/');
    if segment(t) == "projects"@ {
        PageView::Projects
    } else if segment(t) == "blog"@ {
        if 0 <= n < t.len() && segment(t.skip(n + 1)).len() > 0 {
            PageView::BlogPost(segment(t.skip(n + 1)))
        } else {
            PageView::Blog
        }
    } else {
        PageView::Home
    }
}

/// The path that names a page.
pub open spec fn encode(page: PageView) -> Seq<char> {
    match page {
        PageView::Home => "/"@,
        PageView::Projects => "/projects"@,
        PageView::Blog => "/blog"@,
        PageView::BlogPost(slug) => "/blog/"@ + slug,
    }
}

/// The pages that come back from their own path: every page but a post whose
/// slug is empty, holds a slash, or ends in whitespace.
pub open spec fn round_trips(page: PageView) -> bool {
    match page {
        PageView::BlogPost(slug) => slug.len() > 0 && !slug.contains('/') && !is_space(slug.last()),
        _ => true,
    }
}

impl Page {
    /// Reads the page that a path names. A path that names none gives the
    /// home page.
    pub fn from_path(path: &str) -> (page: Page)
        ensures
            page@ == decode(path@),
    {
        let text = chars_of(path);
        let projects = chars_of("projects");
        let blog = chars_of("blog");
        let t = trim_start_of(
            trim_of(text.as_slice(), CharClass::Whitespace),
            CharClass::Exactly('/'),
        );
        let n = position_of(t, '/');
        let first = slice_subrange(t, 0, n);
        if same_text(first, projects.as_slice()) {
            Page::Projects
        } else if same_text(first, blog.as_slice()) {
            if n < t.len() {
                let rest = slice_subrange(t, n + 1, t.len());
                let m = position_of(rest, '/');
                if m > 0 {
                    Page::BlogPost(string_of(slice_subrange(rest, 0, m)))
                } else {
                    Page::Blog
                }
            } else {
                Page::Blog
            }
        } else {
            Page::Home
        }
    }

    /// Writes the path that names the page.
    pub fn to_url(&self) -> (url: String)
        ensures
            url@ == encode(self@),
    {
        match self {
            Page::Home => String::from_str("/"),
            Page::Projects => String::from_str("/projects"),
            Page::Blog => String::from_str("/blog"),
            Page::BlogPost(slug) => String::from_str("/blog/").concat(slug.as_str()),
        }
    }

    /// Tests whether two pages are the same page.
    pub fn same(&self, other: &Page) -> (r: bool)
        ensures
            r == (self@ == other@),
    {
        match (self, other) {
            (Page::Home, Page::Home) => true,
            (Page::Projects, Page::Projects) => true,
            (Page::Blog, Page::Blog) => true,
            (Page::BlogPost(a), Page::BlogPost(b)) => *a == *b,
            _ => false,
        }
    }

    /// Tests whether the page belongs to the blog: the list or a post.
    pub fn in_blog(&self) -> (r: bool)
        ensures
            r == (self@ is Blog || self@ is BlogPost),
    {
        match self {
            Page::Blog => true,
            Page::BlogPost(_) => true,
            _ => false,
        }
    }

    /// A copy of the page.
    pub fn duplicate(&self) -> (r: Page)
        ensures
            r@ == self@,
    {
        match self {
            Page::Home => Page::Home,
            Page::Projects => Page::Projects,
            Page::Blog => Page::Blog,
            Page::BlogPost(slug) => Page::BlogPost(slug.clone()),
        }
    }
}

/// A path made of one slash and a text that neither starts with a slash nor
/// ends in whitespace is read as that text.
proof fn lemma_stripped_of_slash(body: Seq<char>)
    requires
        body.len() > 0 ==> body[0] != '/' && !is_space(body.last()),
    ensures
        stripped(seq!['/'] + body) == body,
{
    let p = seq!['/'] + body;
    assert(p[0] == '/');
    assert(p.last() == if body.len() > 0 {
        body.last()
    } else {
        '/'
    });
    lemma_trim_start_at(p, CharClass::Whitespace, 0);
    assert(p.skip(0) == p);
    lemma_trim_end_at(p, CharClass::Whitespace, p.len() as int);
    assert(p.take(p.len() as int) == p);
    if body.len() > 0 {
        assert(p[1] == body[0]);
    }
    lemma_trim_start_at(p, CharClass::Exactly('/'), 1);
    assert(p.skip(1) == body);
}

/// A segment holds no slash.
pub proof fn lemma_segment_has_no_slash(text: Seq<char>)
    ensures
        !segment(text).contains('/'),
        segment(text).len() <= text.len(),
{
    lemma_position_is_first(text, '/');
    let s = segment(text);
    assert forall|i: int| 0 <= i < s.len() implies s[i] != '/' by {
        assert(s[i] == text[i]);
    }
}

/// A path names a post only by a slug that is not empty and holds no slash.
pub proof fn lemma_decoded_slug(path: Seq<char>)
    ensures
        decode(path) matches PageView::BlogPost(slug) ==> slug.len() > 0 && !slug.contains('/')
            && slug.len() + 5 <= stripped(path).len(),
{
    reveal_strlit("blog");
    let t = stripped(path);
    let n = position(t, '/');
    if decode(path) is BlogPost {
        lemma_position_is_first(t, '/');
        assert(segment(t).len() == n);
        lemma_segment_has_no_slash(t.skip(n + 1));
    }
}

/// The round trip: the path of a page names that page again, for every page
/// but a post whose slug cannot stand in a path as it is. Such a slug is
/// empty, holds a slash, or ends in whitespace; its path names another page.
pub proof fn law_round_trip(page: PageView)
    ensures
        decode(encode(page)) == page <==> round_trips(page),
{
    reveal_strlit("/");
    reveal_strlit("/projects");
    reveal_strlit("/blog");
    reveal_strlit("/blog/");
    reveal_strlit("projects");
    reveal_strlit("blog");
    match page {
        PageView::Home => {
            let body = Seq::<char>::empty();
            assert(encode(page) == seq!['/'] + body);
            lemma_stripped_of_slash(body);
            lemma_position_at(body, '/', 0);
            assert(segment(body).len() == 0);
        },
        PageView::Projects => {
            let body = "projects"@;
            assert(encode(page) == seq!['/'] + body);
            lemma_stripped_of_slash(body);
            lemma_position_at(body, '/', 8);
            assert(segment(body) == body);
        },
        PageView::Blog => {
            let body = "blog"@;
            assert(encode(page) == seq!['/'] + body);
            lemma_stripped_of_slash(body);
            lemma_position_at(body, '/', 4);
            assert(segment(body) == body);
        },
        PageView::BlogPost(slug) => {
            let body = "blog/"@ + slug;
            reveal_strlit("blog/");
            assert(encode(page) == seq!['/'] + body);
            if round_trips(page) {
                assert(body.last() == slug.last());
                lemma_stripped_of_slash(body);
                lemma_position_at(body, '/', 4);
                assert(segment(body) == "blog"@);
                assert(body.skip(5) == slug);
                assert forall|i: int| 0 <= i < slug.len() implies slug[i] != '/' by {
                    if slug[i] == '/' {
                        assert(slug.contains('/'));
                    }
                }
                lemma_position_at(slug, '/', slug.len() as int);
                assert(segment(slug) == slug);
            } else {
                lemma_decoded_slug(encode(page));
                if slug.len() > 0 && !slug.contains('/') {
                    let p = encode(page);
                    assert(p[0] == '/');
                    assert(p.last() == slug.last());
                    lemma_trim_start_at(p, CharClass::Whitespace, 0);
                    assert(p.skip(0) == p);
                    let n = lemma_trim_end_cut(p, CharClass::Whitespace);
                    assert(n < p.len()) by {
                        if n == p.len() {
                            assert(!is_space(p[n - 1]));
                        }
                    }
                    assert(n > 0) by {
                        if n == 0 {
                            assert(is_space(p[0]));
                        }
                    }
                    let cut = p.take(n);
                    assert(cut[0] == '/');
                    let j = lemma_trim_start_cut(cut, CharClass::Exactly('/'));
                    assert(j > 0);
                    assert(stripped(p) == cut.skip(j));
                }
            }
        },
    }
}

/// A path whose first segment is neither `projects` nor `blog` names the home
/// page, and no other path does.
pub proof fn law_unrecognized_is_home(path: Seq<char>)
    ensures
        decode(path) is Home <==> segment(stripped(path)) != "projects"@ && segment(stripped(path))
            != "blog"@,
{
    reveal_strlit("projects");
    reveal_strlit("blog");
}

} // verus!
