use content::front_matter::{split_content, split_page_content};
use content::{MetadataFault, PageError, PageFrontMatter};

fn parts(front: &str, body: &str) -> Option<(String, String)> {
    Some((front.to_string(), body.to_string()))
}

#[test]
fn block_and_body_are_split() {
    assert_eq!(split_content("+++\ntitle = \"a\"\n+++\nbody"), parts("title = \"a\"\n", "body"));
    assert_eq!(split_content("+++\n+++"), parts("", ""));
    assert_eq!(split_content("+++\n+++\n"), parts("", ""));
    assert_eq!(split_content("+++\n+++\n\nbody\n"), parts("", "\nbody\n"));
    assert_eq!(split_content(" \t\r\n\n+++\na\n+++\nb"), parts("a\n", "b"));
    assert_eq!(split_content("\n    +++\n    a = 1\n    +++\n    b"), parts("    a = 1\n    ", "    b"));
}

#[test]
fn line_breaks_may_have_a_carriage_return() {
    assert_eq!(split_content("+++\r\na = 1\r\n+++\r\nbody"), parts("a = 1\r\n", "body"));
    assert_eq!(split_content("+++\na\n+++\rbody"), parts("a\n", "body"));
    assert_eq!(split_content("+++\na\n+++\r\r\nbody"), parts("a\n", "\r\nbody"));
}

#[test]
fn block_ends_at_the_first_closing_mark() {
    assert_eq!(split_content("+++\na\n+++\nb\n+++\nc"), parts("a\n", "b\n+++\nc"));
    assert_eq!(split_content("+++\na = \"+++\"\n+++\n"), parts("a = \"", "\"\n+++\n"));
    assert_eq!(split_content("+++\n++++\nx"), parts("", "+\nx"));
}

#[test]
fn text_without_a_block_is_turned_down() {
    assert_eq!(split_content(""), None);
    assert_eq!(split_content("body"), None);
    assert_eq!(split_content("+++\ntitle = \"a\"\nbody"), None);
    assert_eq!(split_content("title = \"a\"\n+++\nbody"), None);
    assert_eq!(split_content("+++ \na\n+++\n"), None);
    assert_eq!(split_content("++++\na\n+++\n"), None);
    assert_eq!(split_content("+++"), None);
    assert_eq!(split_content("+++\r"), None);
    assert_eq!(split_content("\u{a0}+++\n+++\n"), None);
    assert_eq!(split_content("x\n+++\na\n+++\n"), None);
}

#[test]
fn fields_are_read() {
    let meta = PageFrontMatter::parse(
        r#"
title = "Hello"
description = "hey there"
date = "2017-05-01"
draft = true
slug = "hello-world"
path = "a/b"
tags = ["rust", "web"]
category = "dev"
template = "post.html"
weight = 3

[extra]
author = "me"
"#,
    )
    .unwrap();
    assert_eq!(meta.title, Some("Hello".to_string()));
    assert_eq!(meta.description, Some("hey there".to_string()));
    assert_eq!(meta.date, Some("2017-05-01".to_string()));
    assert_eq!(meta.draft, Some(true));
    assert_eq!(meta.slug, Some("hello-world".to_string()));
    assert_eq!(meta.path, Some("a/b".to_string()));
    assert_eq!(meta.tags, Some(vec!["rust".to_string(), "web".to_string()]));
    assert_eq!(meta.category, Some("dev".to_string()));
    assert_eq!(meta.template, Some("post.html".to_string()));
    let extra = meta.extra.unwrap();
    assert_eq!(extra.get("author").and_then(|v| v.as_str()), Some("me"));
    assert!(extra.get("weight").is_none());
}

#[test]
fn missing_fields_are_left_out() {
    assert_eq!(PageFrontMatter::parse(""), Ok(PageFrontMatter::default()));
    assert_eq!(PageFrontMatter::parse("unknown = 1"), Ok(PageFrontMatter::default()));
    let meta = PageFrontMatter::parse("tags = []").unwrap();
    assert_eq!(meta.tags, Some(vec![]));
    assert_eq!(meta.title, None);
    assert_eq!(meta.extra, None);
}

#[test]
fn a_value_of_the_wrong_type_is_a_fault() {
    let wrong = |field: &str| Err(MetadataFault::WrongType(field.to_string()));
    assert_eq!(PageFrontMatter::parse("title = 1"), wrong("title"));
    assert_eq!(PageFrontMatter::parse("description = true"), wrong("description"));
    assert_eq!(PageFrontMatter::parse("date = 2017-05-01"), wrong("date"));
    assert_eq!(PageFrontMatter::parse("draft = \"yes\""), wrong("draft"));
    assert_eq!(PageFrontMatter::parse("slug = []"), wrong("slug"));
    assert_eq!(PageFrontMatter::parse("path = 1.5"), wrong("path"));
    assert_eq!(PageFrontMatter::parse("tags = \"rust\""), wrong("tags"));
    assert_eq!(PageFrontMatter::parse("tags = [\"rust\", 1]"), wrong("tags"));
    assert_eq!(PageFrontMatter::parse("category = [\"a\"]"), wrong("category"));
    assert_eq!(PageFrontMatter::parse("template = false"), wrong("template"));
    assert_eq!(PageFrontMatter::parse("extra = \"x\""), wrong("extra"));
    assert_eq!(PageFrontMatter::parse("extra = 1\ntitle = 2\nslug = \"\""), wrong("title"));
    assert_eq!(
        PageFrontMatter::parse("title = 1").unwrap_err().message(),
        "wrong type of value for `title`"
    );
}

#[test]
fn errors_on_present_but_empty_slug() {
    let res = PageFrontMatter::parse("title = \"Hello\"\ndescription = \"hey there\"\nslug = \"\"");
    assert_eq!(res, Err(MetadataFault::EmptySlug));
    assert_eq!(res.unwrap_err().message(), "`slug` can't be empty if present");
}

#[test]
fn errors_on_present_but_empty_path() {
    let res = PageFrontMatter::parse("title = \"Hello\"\ndescription = \"hey there\"\npath = \"\"");
    assert_eq!(res, Err(MetadataFault::EmptyPath));
    assert_eq!(res.unwrap_err().message(), "`path` can't be empty if present");
    assert_eq!(PageFrontMatter::parse("slug = \"\"\npath = \"\""), Err(MetadataFault::EmptySlug));
}

#[test]
fn text_that_is_no_toml_is_a_syntax_fault() {
    match PageFrontMatter::parse("title = ") {
        Err(MetadataFault::Syntax(why)) => {
            assert!(why.starts_with("TOML parse error at line 1, column 9"), "{}", why)
        }
        other => panic!("{:?}", other),
    }
    match PageFrontMatter::parse("a = 1\na = 2") {
        Err(fault @ MetadataFault::Syntax(_)) => {
            assert!(fault.message().starts_with("invalid TOML: TOML parse error at line 2, column 1"))
        }
        other => panic!("{:?}", other),
    }
}

#[test]
fn values_built_by_hand_are_read_the_same_way() {
    let mut extra = toml::value::Table::new();
    extra.insert("n".to_string(), toml::Value::Integer(1));
    let mut table = toml::value::Table::new();
    table.insert("title".to_string(), toml::Value::String("T".to_string()));
    table.insert("draft".to_string(), toml::Value::Boolean(false));
    table.insert(
        "tags".to_string(),
        toml::Value::Array(vec![toml::Value::String("a".to_string())]),
    );
    table.insert("extra".to_string(), toml::Value::Table(extra.clone()));
    let meta = PageFrontMatter::from_toml(&toml::Value::Table(table)).unwrap();
    assert_eq!(meta.title, Some("T".to_string()));
    assert_eq!(meta.draft, Some(false));
    assert_eq!(meta.tags, Some(vec!["a".to_string()]));
    assert_eq!(meta.extra, Some(toml::Value::Table(extra)));
    assert_eq!(meta.slug, None);

    assert_eq!(
        PageFrontMatter::from_toml(&toml::Value::String("title".to_string())),
        Ok(PageFrontMatter::default())
    );
    assert_eq!(
        PageFrontMatter::from_toml(&toml::Value::Array(vec![toml::Value::Integer(1)])),
        Ok(PageFrontMatter::default())
    );
}

#[test]
fn page_content_is_split_and_read() {
    let (meta, body) = split_page_content("a.md", "+++\nslug = \"s\"\n+++\nbody").unwrap();
    assert_eq!(meta.slug, Some("s".to_string()));
    assert_eq!(body, "body");
    assert_eq!(
        split_page_content("a.md", "body"),
        Err(PageError::MalformedMetadata { path: "a.md".to_string(), fault: MetadataFault::Missing })
    );
    assert_eq!(
        split_page_content("dir/a.md", "+++\nslug = \"\"\n+++\nbody"),
        Err(PageError::MalformedMetadata {
            path: "dir/a.md".to_string(),
            fault: MetadataFault::EmptySlug
        })
    );
    let err = split_page_content("dir/a.md", "+++\nslug = 3\n+++\nbody").unwrap_err();
    assert_eq!(err.path(), "dir/a.md");
    assert_eq!(
        err.message(),
        "Error when parsing front matter of page `dir/a.md`: wrong type of value for `slug`"
    );
}
