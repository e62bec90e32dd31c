use personal_site::ingest::SourceFile;
use personal_site::route::Page;
use personal_site::state::{BlogScreen, FrameActions, MyApp, Saved, Stored};

fn file(name: &str, slug: &str, date: &str) -> SourceFile {
    let text = format!("---\ntitle: {}\nslug: {}\ndate: {}\n---\nbody\n", name, slug, date);
    SourceFile { name: name.to_string(), contents: text.into_bytes() }
}

fn files() -> Vec<SourceFile> {
    vec![
        file("one.md", "one", "2024-01-01"),
        file("two.md", "two", "2024-02-01"),
        file("three.md", "three", "2024-03-01"),
    ]
}

fn post(slug: &str) -> Page {
    Page::BlogPost(slug.to_string())
}

fn saved(page: Page, selected: Option<usize>) -> Stored {
    Stored::Record(Saved {
        label: "kept".to_string(),
        current_page: page,
        prefer_dark: false,
        selected_blog: selected,
    })
}

fn fresh() -> MyApp {
    MyApp::new(Stored::Blank, true, &files(), None).0
}

#[test]
fn default_state_is_the_home_page_in_the_dark() {
    let app = MyApp::default();
    assert_eq!(app.label(), "Hello World!");
    assert_eq!(*app.current_page(), Page::Home);
    assert!(app.prefer_dark());
    assert_eq!(app.blog_posts().len(), 0);
    assert_eq!(app.selected_blog(), None);
    assert!(!app.show_mobile_menu());
    assert!(!app.compact_text_styles());
}

#[test]
fn without_storage_the_theme_follows_the_system() {
    let (app, push) = MyApp::new(Stored::Unavailable, false, &files(), None);
    assert!(!app.prefer_dark());
    assert!(!push);
    let (app, _) = MyApp::new(Stored::Unavailable, true, &files(), None);
    assert!(app.prefer_dark());
    assert_eq!(*app.current_page(), Page::Home);
    assert_eq!(app.label(), "Hello World!");
}

#[test]
fn storage_without_record_gives_the_default_theme() {
    let (app, _) = MyApp::new(Stored::Blank, false, &files(), None);
    assert!(app.prefer_dark());
    assert_eq!(*app.current_page(), Page::Home);
}

#[test]
fn record_is_restored() {
    let (app, push) = MyApp::new(saved(Page::Projects, Some(1)), true, &files(), None);
    assert_eq!(app.label(), "kept");
    assert_eq!(*app.current_page(), Page::Projects);
    assert!(!app.prefer_dark());
    assert_eq!(app.selected_blog(), Some(1));
    assert!(!push);
}

#[test]
fn posts_are_loaded_newest_first_at_the_start() {
    let app = fresh();
    let slugs: Vec<&str> = app.blog_posts().iter().map(|p| p.slug.as_str()).collect();
    assert_eq!(slugs, vec!["three", "two", "one"]);
}

#[test]
fn stored_selection_outside_the_list_is_cleared() {
    let (app, _) = MyApp::new(saved(Page::Home, Some(3)), true, &files(), None);
    assert_eq!(app.selected_blog(), None);
    let (app, _) = MyApp::new(saved(Page::Home, Some(2)), true, &files(), None);
    assert_eq!(app.selected_blog(), Some(2));
    let (app, _) = MyApp::new(saved(Page::Home, Some(0)), true, &vec![], None);
    assert_eq!(app.selected_blog(), None);
    let (app, _) = MyApp::new(saved(Page::Home, Some(usize::MAX)), true, &files(), None);
    assert_eq!(app.selected_blog(), None);
}

#[test]
fn stored_post_page_selects_its_post() {
    let (app, push) = MyApp::new(saved(post("two"), None), true, &files(), None);
    assert_eq!(*app.current_page(), post("two"));
    assert_eq!(app.selected_blog(), Some(1));
    assert!(!push);
}

#[test]
fn stored_page_of_a_missing_post_becomes_the_list() {
    let (app, push) = MyApp::new(saved(post("gone"), Some(1)), true, &files(), None);
    assert_eq!(*app.current_page(), Page::Blog);
    assert_eq!(app.selected_blog(), None);
    assert!(push);
}

#[test]
fn stored_list_page_clears_the_selection() {
    let (app, push) = MyApp::new(saved(Page::Blog, Some(1)), true, &files(), None);
    assert_eq!(*app.current_page(), Page::Blog);
    assert_eq!(app.selected_blog(), None);
    assert!(!push);
}

#[test]
fn path_of_the_browser_decides_the_page_at_the_start() {
    let (app, push) = MyApp::new(saved(Page::Projects, None), true, &files(), Some("/blog/three"));
    assert_eq!(*app.current_page(), post("three"));
    assert_eq!(app.selected_blog(), Some(0));
    assert!(!push);
    let (app, push) = MyApp::new(Stored::Blank, true, &files(), Some("/blog/nowhere"));
    assert_eq!(*app.current_page(), Page::Blog);
    assert!(push);
    let (app, _) = MyApp::new(saved(Page::Projects, None), true, &files(), Some("/other"));
    assert_eq!(*app.current_page(), Page::Home);
}

#[test]
fn record_to_keep_holds_what_outlasts_a_session() {
    let mut app = fresh();
    app.navigate_to(Page::Blog);
    app.open_post(2);
    app.toggle_theme();
    let record = app.save();
    assert_eq!(record.label, "Hello World!");
    assert_eq!(record.current_page, post("one"));
    assert!(!record.prefer_dark);
    assert_eq!(record.selected_blog, Some(2));
    let (again, push) = MyApp::new(Stored::Record(record), true, &files(), None);
    assert_eq!(*again.current_page(), post("one"));
    assert_eq!(again.selected_blog(), Some(2));
    assert!(!again.prefer_dark());
    assert!(!push);
}

#[test]
fn going_elsewhere_changes_the_page_and_clears_the_selection() {
    let mut app = fresh();
    app.open_post(1);
    assert!(app.navigate_to(Page::Projects));
    assert_eq!(*app.current_page(), Page::Projects);
    assert_eq!(app.selected_blog(), None);
}

#[test]
fn going_where_one_is_changes_nothing() {
    let mut app = fresh();
    assert!(!app.navigate_to(Page::Home));
    app.open_post(1);
    assert!(!app.navigate_to(post("two")));
    assert_eq!(app.selected_blog(), Some(1));
    assert!(app.navigate_to(post("one")));
    assert_eq!(app.selected_blog(), None);
}

#[test]
fn selection_follows_the_page() {
    let mut app = fresh();
    app.navigate_to(post("one"));
    assert!(!app.sync_blog_selection_from_route());
    assert_eq!(app.selected_blog(), Some(2));
    app.navigate_to(Page::Blog);
    app.open_post(0);
    app.pull_route_from_browser(Some("/blog"));
    assert!(!app.sync_blog_selection_from_route());
    assert_eq!(app.selected_blog(), None);
}

#[test]
fn page_of_a_missing_post_falls_back_to_the_list() {
    let mut app = fresh();
    app.navigate_to(post("missing"));
    assert!(app.sync_blog_selection_from_route());
    assert_eq!(*app.current_page(), Page::Blog);
    assert_eq!(app.selected_blog(), None);
    assert!(!app.sync_blog_selection_from_route());
}

#[test]
fn selection_outside_the_blog_is_left_alone() {
    let (mut app, _) = MyApp::new(saved(Page::Home, Some(1)), true, &files(), None);
    assert!(!app.sync_blog_selection_from_route());
    assert_eq!(app.selected_blog(), Some(1));
    assert_eq!(*app.current_page(), Page::Home);
}

#[test]
fn slug_shared_by_two_posts_selects_the_later_in_the_list() {
    let shared = vec![
        file("a.md", "same", "2024-03-01"),
        file("b.md", "other", "2024-02-01"),
        file("c.md", "same", "2024-01-01"),
    ];
    let (app, push) = MyApp::new(Stored::Blank, true, &shared, Some("/blog/same"));
    assert_eq!(app.blog_posts().len(), 3);
    assert_eq!(app.selected_blog(), Some(2));
    assert_eq!(app.blog_posts()[2].title, "c.md");
    assert!(!push);
}

#[test]
fn path_of_the_browser_is_taken_in() {
    let mut app = fresh();
    app.pull_route_from_browser(Some("/projects"));
    assert_eq!(*app.current_page(), Page::Projects);
    app.pull_route_from_browser(None);
    assert_eq!(*app.current_page(), Page::Projects);
    app.pull_route_from_browser(Some("/blog/two/"));
    assert_eq!(*app.current_page(), post("two"));
    app.pull_route_from_browser(Some("/nothing-here"));
    assert_eq!(*app.current_page(), Page::Home);
}

#[test]
fn path_is_pushed_unless_the_browser_shows_it() {
    let mut app = fresh();
    assert_eq!(app.push_route_to_browser(Some("/")), None);
    assert_eq!(app.push_route_to_browser(Some("")), Some("/".to_string()));
    assert_eq!(app.push_route_to_browser(None), Some("/".to_string()));
    app.navigate_to(Page::Blog);
    app.open_post(1);
    assert_eq!(app.push_route_to_browser(Some("/blog")), Some("/blog/two".to_string()));
    assert_eq!(app.push_route_to_browser(Some("/blog/two")), None);
    assert_eq!(app.push_route_to_browser(Some("/blog/two/")), Some("/blog/two".to_string()));
    assert_eq!(app.push_route_to_browser(None), Some("/blog/two".to_string()));
}

#[test]
fn blog_page_shows_the_list_or_the_selected_post() {
    let mut app = fresh();
    assert_eq!(app.blog_screen(), BlogScreen::List);
    app.open_post(2);
    assert_eq!(app.blog_screen(), BlogScreen::Post(2));
    assert_eq!(app.selected_blog(), Some(2));
}

#[test]
fn stored_selection_is_shown_while_it_points_into_the_list() {
    let (mut app, _) = MyApp::new(saved(Page::Home, Some(0)), true, &files(), None);
    assert_eq!(app.blog_screen(), BlogScreen::Post(0));
    assert_eq!(app.selected_blog(), Some(0));
    let (mut empty, _) = MyApp::new(Stored::Record(app.save()), true, &vec![], None);
    assert_eq!(empty.blog_screen(), BlogScreen::List);
    assert_eq!(empty.selected_blog(), None);
}

#[test]
fn opening_a_post_goes_to_its_page() {
    let mut app = fresh();
    app.navigate_to(Page::Blog);
    app.open_post(0);
    assert_eq!(*app.current_page(), post("three"));
    assert_eq!(app.selected_blog(), Some(0));
    assert_eq!(app.push_route_to_browser(Some("/blog")), Some("/blog/three".to_string()));
}

#[test]
fn going_back_shows_the_list() {
    let mut app = fresh();
    app.open_post(0);
    app.back_to_blog_list();
    assert_eq!(*app.current_page(), Page::Blog);
    assert_eq!(app.selected_blog(), None);
    assert_eq!(app.blog_screen(), BlogScreen::List);
}

#[test]
fn theme_is_switched_and_compared() {
    let mut app = fresh();
    assert!(app.prefer_dark());
    assert!(!app.ensure_theme(true));
    assert!(app.ensure_theme(false));
    app.toggle_theme();
    assert!(!app.prefer_dark());
    assert!(app.ensure_theme(true));
    assert!(!app.ensure_theme(false));
    app.toggle_theme();
    assert!(app.prefer_dark());
}

#[test]
fn text_styles_change_with_the_screen() {
    let mut app = fresh();
    assert!(!app.update_text_styles_for_screen(false));
    assert!(app.update_text_styles_for_screen(true));
    assert!(app.compact_text_styles());
    assert!(!app.update_text_styles_for_screen(true));
    assert!(app.update_text_styles_for_screen(false));
    assert!(!app.compact_text_styles());
}

#[test]
fn menu_is_opened_and_closed() {
    let mut app = fresh();
    app.toggle_mobile_menu();
    assert!(app.show_mobile_menu());
    app.toggle_mobile_menu();
    assert!(!app.show_mobile_menu());
    app.toggle_mobile_menu();
    app.close_mobile_menu();
    assert!(!app.show_mobile_menu());
    app.close_mobile_menu();
    assert!(!app.show_mobile_menu());
}

#[test]
fn frame_on_a_wide_screen_closes_the_menu() {
    let mut app = fresh();
    app.toggle_mobile_menu();
    let actions = app.update(true, None);
    assert_eq!(actions, FrameActions { restyle: true, push_route: false });
    assert!(app.show_mobile_menu());
    assert!(app.compact_text_styles());
    let actions = app.update(false, None);
    assert_eq!(actions, FrameActions { restyle: true, push_route: false });
    assert!(!app.show_mobile_menu());
    assert!(!app.compact_text_styles());
    let actions = app.update(false, None);
    assert_eq!(actions, FrameActions { restyle: false, push_route: false });
}

#[test]
fn frame_takes_in_the_path_of_the_browser() {
    let mut app = fresh();
    let actions = app.update(false, Some("/blog/two"));
    assert_eq!(actions, FrameActions { restyle: false, push_route: false });
    assert_eq!(*app.current_page(), post("two"));
    assert_eq!(app.selected_blog(), Some(1));
    let actions = app.update(false, Some("/blog/unknown"));
    assert_eq!(actions, FrameActions { restyle: false, push_route: true });
    assert_eq!(*app.current_page(), Page::Blog);
    assert_eq!(app.selected_blog(), None);
    assert_eq!(app.push_route_to_browser(Some("/blog/unknown")), Some("/blog".to_string()));
}
