//! The state of the site between two frames, and the steps that change it.
//!
//! The state holds no window, no storage and no browser. Whoever draws the
//! site hands in what was seen there (a click, the path in the address bar,
//! the record in the storage) and is told what to do outside (push a path to
//! the browser's history, apply a style).

use crate::blog::{BlogPost, BlogPostView};
use crate::ingest::{accepted, create_sample_blog_posts, file_views, SourceFile};
use crate::listing::{find_post, in_order_of, lemma_lookup_is_last, lookup, newest_first, views};
use crate::route::{decode, encode, Page, PageView};
use vstd::prelude::*;
use vstd::string::*;

verus! {

/// The part of the state that outlasts a session.
#[derive(Clone, Debug)]
pub struct Saved {
    pub label: String,
    pub current_page: Page,
    pub prefer_dark: bool,
    pub selected_blog: Option<usize>,
}

/// The mathematical content of a [`Saved`].
pub struct SavedView {
    pub label: Seq<char>,
    pub current_page: PageView,
    pub prefer_dark: bool,
    pub selected_blog: Option<usize>,
}

impl View for Saved {
    type V = SavedView;

    open spec fn view(&self) -> SavedView {
        SavedView {
            label: self.label@,
            current_page: self.current_page@,
            prefer_dark: self.prefer_dark,
            selected_blog: self.selected_blog,
        }
    }
}

/// What the storage gave at the start.
#[derive(Clone, Debug)]
pub enum Stored {
    /// There is no storage.
    Unavailable,
    /// There is a storage, and it holds no record that can be read.
    Blank,
    /// The record that the storage holds.
    Record(Saved),
}

/// The mathematical content of a [`Stored`].
pub enum StoredView {
    Unavailable,
    Blank,
    Record(SavedView),
}

impl View for Stored {
    type V = StoredView;

    open spec fn view(&self) -> StoredView {
        match self {
            Stored::Unavailable => StoredView::Unavailable,
            Stored::Blank => StoredView::Blank,
            Stored::Record(saved) => StoredView::Record(saved@),
        }
    }
}

/// What is to be done outside the state after a frame's events were taken in.
#[derive(Clone, Copy, Debug, PartialEq, Eq, Structural)]
pub struct FrameActions {
    /// The text styles are to be set anew, for the compactness the state now has.
    pub restyle: bool,
    /// The path of the current page is to be pushed to the browser's history.
    pub push_route: bool,
}

/// What the blog page shows.
#[derive(Clone, Copy, Debug, PartialEq, Eq, Structural)]
pub enum BlogScreen {
    /// The list of posts.
    List,
    /// The post at this place of the list.
    Post(usize),
    /// Nothing in this frame: the selection pointed outside the list and was
    /// cleared.
    Nothing,
}

/// The state of the site.
pub struct MyApp {
    label: String,
    current_page: Page,
    prefer_dark: bool,
    blog_posts: Vec<BlogPost>,
    selected_blog: Option<usize>,
    show_mobile_menu: bool,
    compact_text_styles: bool,
}

/// The mathematical content of a [`MyApp`].
pub struct MyAppView {
    pub label: Seq<char>,
    pub current_page: PageView,
    pub prefer_dark: bool,
    pub blog_posts: Seq<BlogPostView>,
    pub selected_blog: Option<usize>,
    pub show_mobile_menu: bool,
    pub compact_text_styles: bool,
}

impl View for MyApp {
    type V = MyAppView;

    closed spec fn view(&self) -> MyAppView {
        MyAppView {
            label: self.label@,
            current_page: self.current_page@,
            prefer_dark: self.prefer_dark,
            blog_posts: views(self.blog_posts@),
            selected_blog: self.selected_blog,
            show_mobile_menu: self.show_mobile_menu,
            compact_text_styles: self.compact_text_styles,
        }
    }
}

/// The text of an optional path.
pub open spec fn path_text(path: Option<&str>) -> Option<Seq<char>> {
    match path {
        Some(p) => Some(p@),
        None => None,
    }
}

impl MyAppView {
    /// The state before anything was restored or loaded.
    pub open spec fn initial() -> MyAppView {
        MyAppView {
            label: "Hello World!"@,
            current_page: PageView::Home,
            prefer_dark: true,
            blog_posts: Seq::empty(),
            selected_blog: None,
            show_mobile_menu: false,
            compact_text_styles: false,
        }
    }

    /// The state is in order: the posts run from the newest to the oldest, and
    /// a selection points into the list.
    pub open spec fn wf(self) -> bool {
        &&& newest_first(self.blog_posts)
        &&& self.selected_blog matches Some(i) ==> i < self.blog_posts.len()
    }

    /// The selection agrees with the page: on a post's page the post that the
    /// slug names is selected, and on the list none is.
    pub open spec fn in_step(self) -> bool {
        match self.current_page {
            PageView::BlogPost(slug) => self.selected_blog matches Some(i) && lookup(
                self.blog_posts,
                slug,
            ) == Some(i as int),
            PageView::Blog => self.selected_blog is None,
            _ => true,
        }
    }

    /// The state that a storage gives to start from. Without a storage the
    /// theme follows the system; a storage without a record gives the initial
    /// state.
    pub open spec fn restored(stored: StoredView, system_dark: bool) -> MyAppView {
        match stored {
            StoredView::Unavailable => MyAppView { prefer_dark: system_dark, ..Self::initial() },
            StoredView::Blank => Self::initial(),
            StoredView::Record(saved) => MyAppView {
                label: saved.label,
                current_page: saved.current_page,
                prefer_dark: saved.prefer_dark,
                selected_blog: saved.selected_blog,
                ..Self::initial()
            },
        }
    }

    /// The state with a list of posts put in. A selection that points outside
    /// the list is cleared.
    pub open spec fn loaded(self, posts: Seq<BlogPostView>) -> MyAppView {
        MyAppView {
            blog_posts: posts,
            selected_blog: match self.selected_blog {
                Some(i) => if i < posts.len() {
                    Some(i)
                } else {
                    None
                },
                None => None,
            },
            show_mobile_menu: false,
            compact_text_styles: false,
            ..self
        }
    }

    /// The state after the browser's path was taken in. Without a browser
    /// nothing changes.
    pub open spec fn pulled(self, path: Option<Seq<char>>) -> MyAppView {
        match path {
            Some(p) => MyAppView { current_page: decode(p), ..self },
            None => self,
        }
    }

    /// Whether the page names a post that the list does not hold.
    pub open spec fn names_missing_post(self) -> bool {
        self.current_page matches PageView::BlogPost(slug) && lookup(self.blog_posts, slug) is None
    }

    /// The state with the selection brought in step with the page. On a post's
    /// page the post that the slug names is selected; where the list holds
    /// none, the page becomes the list. On the list nothing is selected.
    pub open spec fn synced(self) -> MyAppView {
        match self.current_page {
            PageView::BlogPost(slug) => match lookup(self.blog_posts, slug) {
                Some(i) => MyAppView { selected_blog: Some(i as usize), ..self },
                None => MyAppView { selected_blog: None, current_page: PageView::Blog, ..self },
            },
            PageView::Blog => MyAppView { selected_blog: None, ..self },
            _ => self,
        }
    }

    /// The state after a request to go to `page`: going elsewhere clears the
    /// selection, going where one is changes nothing.
    pub open spec fn navigated(self, page: PageView) -> MyAppView {
        if self.current_page != page {
            MyAppView { current_page: page, selected_blog: None, ..self }
        } else {
            self
        }
    }

    /// The state at the start of a session.
    pub open spec fn started(
        stored: StoredView,
        system_dark: bool,
        posts: Seq<BlogPostView>,
        path: Option<Seq<char>>,
    ) -> MyAppView {
        Self::restored(stored, system_dark).loaded(posts).pulled(path).synced()
    }

    /// The state after the events of a frame: the compactness of the screen
    /// and the browser's path. The menu overlay exists on a compact screen only.
    pub open spec fn updated(self, compact: bool, path: Option<Seq<char>>) -> MyAppView {
        let routed = self.pulled(path).synced();
        MyAppView {
            compact_text_styles: compact,
            show_mobile_menu: compact && self.show_mobile_menu,
            ..routed
        }
    }
}

impl Default for MyApp {
    /// The state before anything was restored or loaded.
    fn default() -> (r: MyApp)
        ensures
            r@ == MyAppView::initial(),
            r@.wf(),
    {
        let r = MyApp {
            label: String::from_str("Hello World!"),
            current_page: Page::Home,
            prefer_dark: true,
            blog_posts: Vec::new(),
            selected_blog: None,
            show_mobile_menu: false,
            compact_text_styles: false,
        };
        assert(r@.blog_posts =~= Seq::<BlogPostView>::empty());
        r
    }
}

impl MyApp {
    /// Starts a session: restores what the storage gave, reads the posts from
    /// the files, takes in the browser's path and brings the selection in step
    /// with the page. The flag says whether the page was changed on the way
    /// and its path is to be pushed to the browser's history.
    pub fn new(stored: Stored, system_dark: bool, files: &Vec<SourceFile>, path: Option<&str>) -> (r:
        (MyApp, bool))
        ensures
            in_order_of(r.0@.blog_posts, accepted(file_views(files@))),
            r.0@ == MyAppView::started(stored@, system_dark, r.0@.blog_posts, path_text(path)),
            r.1 == MyAppView::restored(stored@, system_dark).loaded(r.0@.blog_posts).pulled(
                path_text(path),
            ).names_missing_post(),
            r.0@.wf(),
            r.0@.in_step(),
    {
        let mut app = match stored {
            Stored::Unavailable => {
                let mut fresh = MyApp::default();
                fresh.prefer_dark = system_dark;
                fresh
            },
            Stored::Blank => MyApp::default(),
            Stored::Record(saved) => {
                let mut fresh = MyApp::default();
                fresh.label = saved.label;
                fresh.current_page = saved.current_page;
                fresh.prefer_dark = saved.prefer_dark;
                fresh.selected_blog = saved.selected_blog;
                fresh
            },
        };
        app.blog_posts = create_sample_blog_posts(files);
        if let Some(selected) = app.selected_blog {
            if selected >= app.blog_posts.len() {
                app.selected_blog = None;
            }
        }
        app.show_mobile_menu = false;
        app.compact_text_styles = false;
        app.pull_route_from_browser(path);
        let push = app.sync_blog_selection_from_route();
        (app, push)
    }

    /// The record to keep for the next session.
    pub fn save(&self) -> (r: Saved)
        ensures
            r@.label == self@.label,
            r@.current_page == self@.current_page,
            r@.prefer_dark == self@.prefer_dark,
            r@.selected_blog == self@.selected_blog,
    {
        Saved {
            label: self.label.clone(),
            current_page: self.current_page.duplicate(),
            prefer_dark: self.prefer_dark,
            selected_blog: self.selected_blog,
        }
    }

    /// Takes in the events of a frame and says what is to be done outside.
    pub fn update(&mut self, compact: bool, path: Option<&str>) -> (r: FrameActions)
        ensures
            final(self)@ == old(self)@.updated(compact, path_text(path)),
            r.restyle == (old(self)@.compact_text_styles != compact),
            r.push_route == old(self)@.pulled(path_text(path)).names_missing_post(),
            old(self)@.wf() ==> final(self)@.wf(),
            final(self)@.in_step(),
    {
        let restyle = self.update_text_styles_for_screen(compact);
        self.pull_route_from_browser(path);
        let push_route = self.sync_blog_selection_from_route();
        if !compact {
            self.show_mobile_menu = false;
        }
        FrameActions { restyle, push_route }
    }

    /// Takes in the compactness of the screen. Says whether it changed, so
    /// that the text styles are to be set anew.
    pub fn update_text_styles_for_screen(&mut self, compact: bool) -> (changed: bool)
        ensures
            final(self)@ == (MyAppView { compact_text_styles: compact, ..old(self)@ }),
            changed == (old(self)@.compact_text_styles != compact),
    {
        if self.compact_text_styles == compact {
            return false;
        }
        self.compact_text_styles = compact;
        true
    }

    /// Says whether the theme in use differs from the one the state prefers,
    /// so that the visuals are to be set anew.
    pub fn ensure_theme(&self, dark_in_use: bool) -> (change: bool)
        ensures
            change == (dark_in_use != self@.prefer_dark),
    {
        dark_in_use != self.prefer_dark
    }

    /// Goes to `page`. Says whether the page changed, so that its path is to
    /// be pushed to the browser's history.
    pub fn navigate_to(&mut self, page: Page) -> (changed: bool)
        ensures
            final(self)@ == old(self)@.navigated(page@),
            changed == (old(self)@.current_page != page@),
            old(self)@.wf() ==> final(self)@.wf(),
    {
        if !self.current_page.same(&page) {
            self.current_page = page;
            self.selected_blog = None;
            true
        } else {
            false
        }
    }

    /// Brings the selection in step with the page. Says whether the page named
    /// a post that the list does not hold: the page is then the list, and its
    /// path is to be pushed to the browser's history.
    pub fn sync_blog_selection_from_route(&mut self) -> (push: bool)
        ensures
            final(self)@ == old(self)@.synced(),
            push == old(self)@.names_missing_post(),
            old(self)@.wf() ==> final(self)@.wf(),
            final(self)@.in_step(),
    {
        proof {
            if let PageView::BlogPost(slug) = self@.current_page {
                lemma_lookup_is_last(self@.blog_posts, slug);
            }
        }
        match &self.current_page {
            Page::BlogPost(slug) => {
                match find_post(&self.blog_posts, slug) {
                    Some(index) => {
                        self.selected_blog = Some(index);
                        false
                    },
                    None => {
                        self.selected_blog = None;
                        self.current_page = Page::Blog;
                        true
                    },
                }
            },
            Page::Blog => {
                self.selected_blog = None;
                false
            },
            _ => false,
        }
    }

    /// Takes in the path that the browser shows, where there is a browser.
    pub fn pull_route_from_browser(&mut self, path: Option<&str>)
        ensures
            final(self)@ == old(self)@.pulled(path_text(path)),
            old(self)@.wf() ==> final(self)@.wf(),
    {
        if let Some(p) = path {
            let new_page = Page::from_path(p);
            if !new_page.same(&self.current_page) {
                self.current_page = new_page;
            }
        }
    }

    /// The path to push to the browser's history so that it shows the current
    /// page: none where the browser shows that path already.
    pub fn push_route_to_browser(&self, shown: Option<&str>) -> (r: Option<String>)
        ensures
            match r {
                Some(url) => url@ == encode(self@.current_page) && path_text(shown) != Some(url@),
                None => path_text(shown) == Some(encode(self@.current_page)),
            },
    {
        let desired = self.current_page.to_url();
        if let Some(p) = shown {
            if String::from_str(p) == desired {
                return None;
            }
        }
        Some(desired)
    }

    /// Says what the blog page shows. A selection that points outside the
    /// list is cleared, and nothing is shown in this frame.
    pub fn blog_screen(&mut self) -> (r: BlogScreen)
        ensures
            r == match old(self)@.selected_blog {
                Some(i) => if i < old(self)@.blog_posts.len() {
                    BlogScreen::Post(i)
                } else {
                    BlogScreen::Nothing
                },
                None => BlogScreen::List,
            },
            final(self)@ == if r == BlogScreen::Nothing {
                MyAppView { selected_blog: None, ..old(self)@ }
            } else {
                old(self)@
            },
    {
        match self.selected_blog {
            Some(index) => {
                if index < self.blog_posts.len() {
                    BlogScreen::Post(index)
                } else {
                    self.selected_blog = None;
                    BlogScreen::Nothing
                }
            },
            None => BlogScreen::List,
        }
    }

    /// Opens the post at `index` of the list. Its path is then to be pushed to
    /// the browser's history.
    pub fn open_post(&mut self, index: usize)
        requires
            index < old(self)@.blog_posts.len(),
        ensures
            final(self)@ == (MyAppView {
                selected_blog: Some(index),
                current_page: PageView::BlogPost(old(self)@.blog_posts[index as int].slug),
                ..old(self)@
            }),
            old(self)@.wf() ==> final(self)@.wf(),
    {
        self.selected_blog = Some(index);
        self.current_page = Page::BlogPost(self.blog_posts[index].slug.clone());
    }

    /// Goes back from a post to the list. The path of the list is then to be
    /// pushed to the browser's history.
    pub fn back_to_blog_list(&mut self)
        ensures
            final(self)@ == (MyAppView {
                selected_blog: None,
                current_page: PageView::Blog,
                ..old(self)@
            }),
            old(self)@.wf() ==> final(self)@.wf(),
            final(self)@.in_step(),
    {
        self.selected_blog = None;
        self.current_page = Page::Blog;
    }

    /// Switches between the dark and the light theme.
    pub fn toggle_theme(&mut self)
        ensures
            final(self)@ == (MyAppView { prefer_dark: !old(self)@.prefer_dark, ..old(self)@ }),
    {
        self.prefer_dark = !self.prefer_dark;
    }

    /// Opens the menu overlay where it is closed, and closes it where it is open.
    pub fn toggle_mobile_menu(&mut self)
        ensures
            final(self)@ == (MyAppView {
                show_mobile_menu: !old(self)@.show_mobile_menu,
                ..old(self)@
            }),
    {
        self.show_mobile_menu = !self.show_mobile_menu;
    }

    /// Closes the menu overlay.
    pub fn close_mobile_menu(&mut self)
        ensures
            final(self)@ == (MyAppView { show_mobile_menu: false, ..old(self)@ }),
    {
        self.show_mobile_menu = false;
    }

    /// The label.
    pub fn label(&self) -> (r: &String)
        ensures
            r@ == self@.label,
    {
        &self.label
    }

    /// The page that is shown.
    pub fn current_page(&self) -> (r: &Page)
        ensures
            r@ == self@.current_page,
    {
        &self.current_page
    }

    /// Whether the dark theme is preferred.
    pub fn prefer_dark(&self) -> (r: bool)
        ensures
            r == self@.prefer_dark,
    {
        self.prefer_dark
    }

    /// The posts, newest first.
    pub fn blog_posts(&self) -> (r: &Vec<BlogPost>)
        ensures
            views(r@) == self@.blog_posts,
    {
        &self.blog_posts
    }

    /// The place in the list of the post that is open, if one is.
    pub fn selected_blog(&self) -> (r: Option<usize>)
        ensures
            r == self@.selected_blog,
    {
        self.selected_blog
    }

    /// Whether the menu overlay is open.
    pub fn show_mobile_menu(&self) -> (r: bool)
        ensures
            r == self@.show_mobile_menu,
    {
        self.show_mobile_menu
    }

    /// Whether the text styles in use are the compact ones.
    pub fn compact_text_styles(&self) -> (r: bool)
        ensures
            r == self@.compact_text_styles,
    {
        self.compact_text_styles
    }
}

} // verus!
