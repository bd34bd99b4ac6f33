//! The identity of a page: its slug and its path on the site, worked out
//! from the location of its file and from what its front matter declares.

use crate::config::without_leading_separator;
use crate::file_info::{all_segments, folder_name, index_marker, FileInfo};
use crate::front_matter::PageFrontMatter;
use crate::slugs::{
    dashes_only_between, holds_letter_or_digit, is_slug_char, slugified, slugify,
};
use crate::text::{
    from_chars, join, joined, lemma_joined_first, push_char, texts, to_chars, trim, trimmed,
};
use vstd::prelude::*;

verus! {

/// The name that the slug of a page is made of where none is declared: the
/// name of the file, or, for the index of a directory, the name of that
/// directory.
pub open spec fn slug_source(name: Seq<char>, folder: Option<Seq<char>>) -> Seq<char> {
    match folder {
        Some(dir) => if name == index_marker() {
            dir
        } else {
            name
        },
        None => name,
    }
}

/// The slug of a page. A declared slug is taken as it is, without the white
/// space around it. Otherwise the slug is made of the file's name, or, for
/// the index of a directory, of the name of that directory.
pub open spec fn resolved_slug(
    declared: Option<Seq<char>>,
    name: Seq<char>,
    folder: Option<Seq<char>>,
) -> Seq<char> {
    match declared {
        Some(slug) => trimmed(slug),
        None => slugified(slug_source(name, folder)),
    }
}

/// Whether `slug` is the slug made of `source`, and has what every slug
/// that is made has: nothing but the characters of slugs, no `-` at either
/// end and no two in a row, and a character at all where `source` holds an
/// ASCII letter or digit.
pub open spec fn is_made_slug(slug: Seq<char>, source: Seq<char>) -> bool {
    &&& slug == slugified(source)
    &&& is_slug(slug)
    &&& dashes_only_between(slug)
    &&& holds_letter_or_digit(source) ==> slug.len() > 0
}

/// The path of a page before it is closed with `/`. A declared path is
/// taken as it is, without the white space around it and without one `/` at
/// its start. Otherwise the path is made of the sections and the slug.
pub open spec fn open_path(
    declared: Option<Seq<char>>,
    components: Seq<Seq<char>>,
    slug: Seq<char>,
) -> Seq<char> {
    match declared {
        Some(path) => without_leading_separator(trimmed(path)),
        None => if components.len() == 0 {
            slug
        } else {
            joined(components, '/').push('/') + slug
        },
    }
}

/// `path`, with a `/` added where it does not end with one.
pub open spec fn closed_path(path: Seq<char>) -> Seq<char> {
    if path.len() > 0 && path.last() == '/' {
        path
    } else {
        path.push('/')
    }
}

/// Whether `path` is the path of a page as it should be: it does not start
/// with `/`, and ends with exactly one.
pub open spec fn is_site_path(path: Seq<char>) -> bool {
    path.len() >= 2 && path[0] != '/' && path.last() == '/' && path[path.len() - 2] != '/'
}

/// Whether `path` closes to a path as it should be: it is not empty, does
/// not start with `/`, and does not end with more than one.
pub open spec fn is_regular(path: Seq<char>) -> bool {
    path.len() > 0 && path[0] != '/' && !(path.len() >= 2 && path.last() == '/' && path[path.len()
        - 2] == '/')
}

/// Whether `slug` holds nothing but the characters that slugs are made of.
pub open spec fn is_slug(slug: Seq<char>) -> bool {
    forall|i: int| 0 <= i < slug.len() ==> is_slug_char(#[trigger] slug[i])
}

/// The path of a page on the site.
pub open spec fn resolved_path(
    declared: Option<Seq<char>>,
    components: Seq<Seq<char>>,
    slug: Seq<char>,
) -> Seq<char> {
    closed_path(open_path(declared, components, slug))
}

/// The slug of the page with the front matter `meta` and the file `file`.
pub fn resolve_slug(meta: &PageFrontMatter, file: &FileInfo) -> (r: String)
    ensures
        r@ == resolved_slug(meta@.slug, file.name@, folder_name(file.path@)),
        meta.slug is None ==> is_made_slug(r@, slug_source(file.name@, folder_name(file.path@))),
{
    match &meta.slug {
        Some(slug) => trim(slug.as_str()),
        None => {
            if file.is_index() {
                match file.folder() {
                    Some(dir) => slugify(dir.as_str()),
                    None => slugify(file.name.as_str()),
                }
            } else {
                slugify(file.name.as_str())
            }
        },
    }
}

/// The path on the site of the page with the front matter `meta`, the file
/// `file` and the slug `slug`.
pub fn resolve_path(meta: &PageFrontMatter, file: &FileInfo, slug: &str) -> (r: String)
    ensures
        r@ == resolved_path(meta@.path, texts(file.components@), slug@),
{
    let mut path = match &meta.path {
        Some(declared) => {
            let t = trim(declared.as_str());
            let v = to_chars(t.as_str());
            if v.len() > 0 && v[0] == '/' {
                let rest = from_chars(&v, 1, v.len());
                assert(v@.subrange(1, v.len() as int) =~= v@.drop_first());
                rest
            } else {
                t
            }
        },
        None => {
            if file.components.len() == 0 {
                slug.to_owned()
            } else {
                let mut p = join(&file.components, '/');
                push_char(&mut p, '/');
                p.append(slug);
                p
            }
        },
    };
    let v = to_chars(path.as_str());
    if !(v.len() > 0 && v[v.len() - 1] == '/') {
        push_char(&mut path, '/');
    }
    path
}

/// A closed path ends with `/`.
pub proof fn lemma_closed_path_ends_with_separator(path: Seq<char>)
    ensures
        closed_path(path).len() > 0,
        closed_path(path).last() == '/',
{
}

/// A path closes to a path as it should be exactly where it is regular.
pub proof fn lemma_closed_path_shape(path: Seq<char>)
    ensures
        is_site_path(closed_path(path)) <==> is_regular(path),
{
}

/// The path made of sections and a slug, none of them empty, is regular.
pub proof fn lemma_derived_path_is_regular(components: Seq<Seq<char>>, slug: Seq<char>)
    requires
        all_segments(components),
        slug.len() > 0,
        is_slug(slug),
    ensures
        is_regular(open_path(None, components, slug)),
{
    let path = open_path(None, components, slug);
    assert(is_slug_char(slug[0]));
    assert(is_slug_char(slug.last()));
    if components.len() > 0 {
        assert(components[0].len() > 0);
        lemma_joined_first(components, '/');
        assert(path[0] == components[0][0]);
        assert(path.last() == slug.last());
    }
}

} // verus!
