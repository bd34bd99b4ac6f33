use content::Config;

fn site(base_url: &str) -> Config {
    let mut config = Config::default();
    config.base_url = base_url.to_string();
    config
}

#[test]
fn default_settings() {
    let config = Config::default();
    assert_eq!(config.base_url, "http://a-website.com/");
    assert!(config.highlight_code);
    assert_eq!(config.highlight_theme, "base16-ocean-dark");
    assert_eq!(config.theme, None);
}

#[test]
fn can_make_url_index_page_with_non_trailing_slash_url() {
    assert_eq!(site("http://vincent.is").make_permalink(""), "http://vincent.is/");
    assert_eq!(site("http://vincent.is").make_permalink("/"), "http://vincent.is/");
}

#[test]
fn can_make_url_index_page_with_trailing_slash_url() {
    assert_eq!(site("http://vincent.is/").make_permalink(""), "http://vincent.is/");
    assert_eq!(site("http://vincent.is/").make_permalink("/"), "http://vincent.is/");
}

#[test]
fn can_make_url_with_non_trailing_slash_base_url() {
    assert_eq!(site("http://vincent.is").make_permalink("hello"), "http://vincent.is/hello/");
    assert_eq!(site("http://vincent.is").make_permalink("/hello"), "http://vincent.is/hello/");
    assert_eq!(site("http://vincent.is").make_permalink("hello/"), "http://vincent.is/hello/");
}

#[test]
fn can_make_url_with_trailing_slash_path() {
    assert_eq!(site("http://vincent.is/").make_permalink("/hello"), "http://vincent.is/hello/");
    assert_eq!(site("http://vincent.is/").make_permalink("hello"), "http://vincent.is/hello/");
    assert_eq!(site("http://vincent.is/").make_permalink("a/b/"), "http://vincent.is/a/b/");
}

#[test]
fn only_one_separator_is_taken_off() {
    assert_eq!(site("http://x//").make_permalink("//a//"), "http://x///a//");
    assert_eq!(site("").make_permalink("a"), "/a/");
}
