use content::file_info::{extension_of, rfind_char, sections_below_content, split_path, stem_of};
use content::text::to_chars;
use content::FileInfo;

fn strings(names: &[&str]) -> Vec<String> {
    names.iter().map(|name| name.to_string()).collect()
}

#[test]
fn path_is_split_at_separators() {
    assert_eq!(split_path("content/posts/a.md"), strings(&["content", "posts", "a.md"]));
    assert_eq!(split_path("/abs//x/./y/"), strings(&["abs", "x", "y"]));
    assert_eq!(split_path("./a"), strings(&["a"]));
    assert_eq!(split_path("a/../b"), strings(&["a", "..", "b"]));
    assert_eq!(split_path(""), strings(&[]));
    assert_eq!(split_path("///"), strings(&[]));
    assert_eq!(split_path(".hidden/.x"), strings(&[".hidden", ".x"]));
}

#[test]
fn stem_is_what_stands_before_the_last_dot() {
    assert_eq!(stem_of("a.md"), "a");
    assert_eq!(stem_of("a.tar.gz"), "a.tar");
    assert_eq!(stem_of("README"), "README");
    assert_eq!(stem_of(".hidden"), ".hidden");
    assert_eq!(stem_of(".hidden.md"), ".hidden");
    assert_eq!(stem_of("a."), "a");
    assert_eq!(stem_of(""), "");
}

#[test]
fn extension_is_what_stands_behind_the_last_dot() {
    assert_eq!(extension_of("a.md"), Some("md".to_string()));
    assert_eq!(extension_of("a.tar.gz"), Some("gz".to_string()));
    assert_eq!(extension_of("README"), None);
    assert_eq!(extension_of(".hidden"), None);
    assert_eq!(extension_of("a."), Some("".to_string()));
    assert_eq!(rfind_char(&to_chars("a.b.c"), '.'), Some(3));
    assert_eq!(rfind_char(&to_chars("abc"), '.'), None);
}

#[test]
fn sections_start_behind_the_first_content_directory() {
    assert_eq!(sections_below_content(&strings(&["x", "content", "a", "content", "b"])), strings(&["a", "content", "b"]));
    assert_eq!(sections_below_content(&strings(&["content"])), strings(&[]));
    assert_eq!(sections_below_content(&strings(&["a", "b"])), strings(&[]));
    assert_eq!(sections_below_content(&strings(&[])), strings(&[]));
}

#[test]
fn page_in_sections() {
    let file = FileInfo::new_page("/home/me/site/content/posts/tutorials/python.md");
    assert_eq!(file.path, "/home/me/site/content/posts/tutorials/python.md");
    assert_eq!(file.name, "python");
    assert_eq!(file.components, strings(&["posts", "tutorials"]));
    assert_eq!(file.parent, "/home/me/site/content/posts/tutorials");
    assert_eq!(file.folder(), Some("tutorials".to_string()));
}

#[test]
fn index_page_stands_for_its_directory() {
    let file = FileInfo::new_page("content/posts/with-assets/index.md");
    assert_eq!(file.name, "index");
    assert_eq!(file.components, strings(&["posts"]));
    assert_eq!(file.parent, "content/posts");
    assert_eq!(file.folder(), Some("with-assets".to_string()));
    assert!(file.is_index());
    assert!(!FileInfo::new_page("content/posts/index.html/a.md").is_index());
    assert!(FileInfo::new_page("index.md").is_index());
    assert!(!FileInfo::new_page("Index.md").is_index());
}

#[test]
fn index_page_outside_sections_keeps_its_directory() {
    let file = FileInfo::new_page("content/index.md");
    assert_eq!(file.components, strings(&[]));
    assert_eq!(file.parent, "content");
    let file = FileInfo::new_page("elsewhere/dir/index.md");
    assert_eq!(file.components, strings(&[]));
    assert_eq!(file.parent, "elsewhere/dir");
}

#[test]
fn page_without_directories() {
    let file = FileInfo::new_page("start.md");
    assert_eq!(file.name, "start");
    assert_eq!(file.components, strings(&[]));
    assert_eq!(file.parent, "");
    assert_eq!(file.folder(), None);
    let file = FileInfo::new_page("/start.md");
    assert_eq!(file.parent, "/");
    let file = FileInfo::new_page("");
    assert_eq!(file.name, "");
    assert_eq!(file.parent, "");
    assert_eq!(file, FileInfo::default());
}
