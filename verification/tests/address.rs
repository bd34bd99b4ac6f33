use content::address::{resolve_path, resolve_slug};
use content::assets::{is_asset_path, related_assets};
use content::{Config, FileInfo, Page, PageFrontMatter};

fn meta(slug: Option<&str>, path: Option<&str>) -> PageFrontMatter {
    let mut meta = PageFrontMatter::default();
    meta.slug = slug.map(|s| s.to_string());
    meta.path = path.map(|s| s.to_string());
    meta
}

#[test]
fn slug_comes_from_the_front_matter_first() {
    let file = FileInfo::new_page("content/posts/Some Post.md");
    assert_eq!(resolve_slug(&meta(Some(" my-slug\n"), None), &file), "my-slug");
    assert_eq!(resolve_slug(&meta(Some("Über Uns"), None), &file), "Über Uns");
    assert_eq!(resolve_slug(&meta(None, None), &file), "some-post");
}

#[test]
fn slug_of_an_index_comes_from_its_directory() {
    let file = FileInfo::new_page("content/posts/Été 2017/index.md");
    assert_eq!(resolve_slug(&meta(None, None), &file), "ete-2017");
    assert_eq!(resolve_slug(&meta(Some("summer"), None), &file), "summer");
    let file = FileInfo::new_page("index.md");
    assert_eq!(resolve_slug(&meta(None, None), &file), "index");
    let file = FileInfo::new_page("/index.md");
    assert_eq!(resolve_slug(&meta(None, None), &file), "index");
}

#[test]
fn slug_is_made_of_lower_case_letters_digits_and_dashes() {
    let file = FileInfo::new_page("content/My Test String!!!1!1.md");
    assert_eq!(resolve_slug(&meta(None, None), &file), "my-test-string-1-1");
    let file = FileInfo::new_page("content/---.md");
    assert_eq!(resolve_slug(&meta(None, None), &file), "");
}

#[test]
fn made_slug_has_dashes_between_only_and_keeps_letters_and_digits() {
    for name in ["--a--b--", "a!?b", " x ", "A", "é-é", "_1_", "a - b", "日本語 7"] {
        let file = FileInfo::new_page(&format!("content/{}.md", name));
        let slug = resolve_slug(&meta(None, None), &file);
        assert!(!slug.is_empty(), "{:?}", name);
        assert!(!slug.starts_with('-') && !slug.ends_with('-') && !slug.contains("--"), "{:?}", slug);
        assert!(slug.chars().all(|c| c.is_ascii_lowercase() || c.is_ascii_digit() || c == '-'));
    }
    let file = FileInfo::new_page("content/--a--B--.md");
    assert_eq!(resolve_slug(&meta(None, None), &file), "a-b");
}

#[test]
fn declared_slug_of_white_space_only_gives_an_empty_slug() {
    let file = FileInfo::new_page("content/a.md");
    assert_eq!(resolve_slug(&meta(Some(" \t\u{3000}"), None), &file), "");
    assert_eq!(resolve_slug(&meta(Some(" \u{200b} "), None), &file), "\u{200b}");
}

#[test]
fn path_comes_from_the_front_matter_first() {
    let file = FileInfo::new_page("content/posts/a.md");
    assert_eq!(resolve_path(&meta(None, Some("x/y")), &file, "a"), "x/y/");
    assert_eq!(resolve_path(&meta(None, Some("  /x/y/  ")), &file, "a"), "x/y/");
    assert_eq!(resolve_path(&meta(None, Some("/")), &file, "a"), "/");
    assert_eq!(resolve_path(&meta(None, Some(" ")), &file, "a"), "/");
    assert_eq!(resolve_path(&meta(None, Some("//x")), &file, "a"), "/x/");
}

#[test]
fn path_is_made_of_sections_and_slug() {
    let file = FileInfo::new_page("content/posts/intro/a.md");
    assert_eq!(resolve_path(&meta(None, None), &file, "a"), "posts/intro/a/");
    assert_eq!(resolve_path(&meta(None, None), &file, "a/"), "posts/intro/a/");
    assert_eq!(resolve_path(&meta(None, None), &file, ""), "posts/intro/");
    let file = FileInfo::new_page("a.md");
    assert_eq!(resolve_path(&meta(None, None), &file, "a"), "a/");
    assert_eq!(resolve_path(&meta(None, None), &file, ""), "/");
}

#[test]
fn url_from_declared_path_of_a_file_without_directories() {
    let page = Page::parse("start.md", "+++\npath = \"/hello-world\"\n+++\n", &Config::default()).unwrap();
    assert_eq!(page.path, "hello-world/");
}

#[test]
fn slug_from_a_file_name_with_blanks_and_a_body() {
    let page = Page::parse(" file with space.md", "+++\n+++\nHello world", &Config::default()).unwrap();
    assert_eq!(page.slug, "file-with-space");
    assert_eq!(page.raw_content, "Hello world");
}

#[test]
fn assets_are_the_files_that_are_no_pages() {
    assert!(is_asset_path("dir/graph.jpg"));
    assert!(is_asset_path("example.js"));
    assert!(is_asset_path("a.md.bak"));
    assert!(is_asset_path("dir/trailing."));
    assert!(is_asset_path("dir/README"));
    assert!(is_asset_path("dir/Makefile"));
    assert!(is_asset_path("dir/.gitignore"));
    assert!(is_asset_path("dir/.md"));
    assert!(is_asset_path("dir/page.MD"));
    assert!(!is_asset_path("dir/index.md"));
    assert!(!is_asset_path("dir/other.md"));
    assert!(!is_asset_path("dir/a.b.md"));
    assert!(!is_asset_path(""));
    assert!(!is_asset_path("/"));
}

#[test]
fn a_file_without_an_extension_is_an_asset_of_an_index_page() {
    let entries = vec!["content/dir/README".to_string()];
    let page =
        Page::from_file("content/dir/index.md", Ok("+++\n+++\n".to_string()), &entries, &Config::default())
            .unwrap();
    assert_eq!(page.assets, vec!["content/dir/README"]);
}

#[test]
fn assets_are_picked_in_order() {
    let entries: Vec<String> =
        ["c.png", "a.md", "b.js", "d", "a.png"].iter().map(|s| s.to_string()).collect();
    assert_eq!(related_assets(&entries), vec!["c.png", "b.js", "d", "a.png"]);
    assert_eq!(related_assets(&vec![]), Vec::<String>::new());
}
