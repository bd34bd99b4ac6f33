//! The front matter of a content file: a TOML block between two `+++` lines
//! at the head of the file, and the fields of a page that it declares.

use crate::document::{
    entry, error_text, parse_document, toml_entry, toml_error_text, toml_flag, toml_is_table,
    toml_list, toml_parsed, toml_text,
};
use crate::errors::{FaultView, MetadataFault, PageError};
use crate::text::{
    find, first_occurrence, from_chars, matches_at, occurs_at, texts, to_chars,
};
use vstd::prelude::*;

verus! {

/// Where an anchor link is put on each heading.
#[derive(Clone, Copy, Debug, PartialEq, Eq)]
pub enum InsertAnchor {
    /// Before the text of the heading.
    Left,
    /// Behind the text of the heading.
    Right,
    /// The whole heading is the link.
    Heading,
    /// Headings get no anchor link.
    Off,
}

/// The fields that the front matter of a page may declare.
#[derive(Debug, PartialEq)]
pub struct PageFrontMatter {
    /// The title of the page.
    pub title: Option<String>,
    /// A description of the page.
    pub description: Option<String>,
    /// The date of the page, as it was written.
    pub date: Option<String>,
    /// Whether the page is a draft.
    pub draft: Option<bool>,
    /// The slug of the page, in place of the one made from its file name.
    pub slug: Option<String>,
    /// The path of the page on the site, in place of the one made from its location.
    pub path: Option<String>,
    /// The tags of the page.
    pub tags: Option<Vec<String>>,
    /// The category of the page.
    pub category: Option<String>,
    /// The template to render the page with.
    pub template: Option<String>,
    /// Whatever else the author wants to hand to the template: a TOML table.
    pub extra: Option<toml::Value>,
}

/// The fields of a front matter as plain values.
pub struct FrontMatterView {
    pub title: Option<Seq<char>>,
    pub description: Option<Seq<char>>,
    pub date: Option<Seq<char>>,
    pub draft: Option<bool>,
    pub slug: Option<Seq<char>>,
    pub path: Option<Seq<char>>,
    pub tags: Option<Seq<Seq<char>>>,
    pub category: Option<Seq<char>>,
    pub template: Option<Seq<char>>,
    pub extra: Option<toml::Value>,
}

/// The characters of an optional string.
pub open spec fn option_text(o: Option<String>) -> Option<Seq<char>> {
    match o {
        Some(s) => Some(s@),
        None => None,
    }
}

impl View for PageFrontMatter {
    type V = FrontMatterView;

    open spec fn view(&self) -> FrontMatterView {
        FrontMatterView {
            title: option_text(self.title),
            description: option_text(self.description),
            date: option_text(self.date),
            draft: self.draft,
            slug: option_text(self.slug),
            path: option_text(self.path),
            tags: match self.tags {
                Some(t) => Some(texts(t@)),
                None => None,
            },
            category: option_text(self.category),
            template: option_text(self.template),
            extra: self.extra,
        }
    }
}

/// The front matter that declares nothing.
pub open spec fn empty_front_matter() -> FrontMatterView {
    FrontMatterView {
        title: None,
        description: None,
        date: None,
        draft: None,
        slug: None,
        path: None,
        tags: None,
        category: None,
        template: None,
        extra: None,
    }
}

/// What the table `doc` declares under `key`, read as a string: nothing
/// where the key is missing, an error where its value is no string.
pub open spec fn text_entry(doc: toml::Value, key: Seq<char>) -> Result<Option<Seq<char>>, ()> {
    match toml_entry(doc, key) {
        None => Ok(None),
        Some(v) => match toml_text(v) {
            Some(t) => Ok(Some(t)),
            None => Err(()),
        },
    }
}

/// What the table `doc` declares under `key`, read as a boolean.
pub open spec fn flag_entry(doc: toml::Value, key: Seq<char>) -> Result<Option<bool>, ()> {
    match toml_entry(doc, key) {
        None => Ok(None),
        Some(v) => match toml_flag(v) {
            Some(b) => Ok(Some(b)),
            None => Err(()),
        },
    }
}

/// Whether every one of `items` is a string.
pub open spec fn all_text(items: Seq<toml::Value>) -> bool {
    forall|i: int| 0 <= i < items.len() ==> toml_text(#[trigger] items[i]) is Some
}

/// What the table `doc` declares under `key`, read as a list of strings.
pub open spec fn text_list_entry(doc: toml::Value, key: Seq<char>) -> Result<
    Option<Seq<Seq<char>>>,
    (),
> {
    match toml_entry(doc, key) {
        None => Ok(None),
        Some(v) => match toml_list(v) {
            Some(items) => if all_text(items) {
                Ok(Some(Seq::new(items.len(), |i: int| toml_text(items[i]).unwrap())))
            } else {
                Err(())
            },
            None => Err(()),
        },
    }
}

/// What the table `doc` declares under `key`, which has to be a table.
pub open spec fn table_entry(doc: toml::Value, key: Seq<char>) -> Result<Option<toml::Value>, ()> {
    match toml_entry(doc, key) {
        None => Ok(None),
        Some(v) => if toml_is_table(v) {
            Ok(Some(v))
        } else {
            Err(())
        },
    }
}

/// The front matter that the TOML table `doc` declares. A field whose key
/// is missing is left out, one whose value has another type than the field
/// takes is a fault (the first such field, in the order below), and so is
/// an empty `slug` or `path`. Other keys are not looked at.
pub open spec fn front_matter_of(doc: toml::Value) -> Result<FrontMatterView, FaultView> {
    let title = text_entry(doc, "title"@);
    let description = text_entry(doc, "description"@);
    let date = text_entry(doc, "date"@);
    let draft = flag_entry(doc, "draft"@);
    let slug = text_entry(doc, "slug"@);
    let path = text_entry(doc, "path"@);
    let tags = text_list_entry(doc, "tags"@);
    let category = text_entry(doc, "category"@);
    let template = text_entry(doc, "template"@);
    let extra = table_entry(doc, "extra"@);
    if title is Err {
        Err(FaultView::WrongType("title"@))
    } else if description is Err {
        Err(FaultView::WrongType("description"@))
    } else if date is Err {
        Err(FaultView::WrongType("date"@))
    } else if draft is Err {
        Err(FaultView::WrongType("draft"@))
    } else if slug is Err {
        Err(FaultView::WrongType("slug"@))
    } else if path is Err {
        Err(FaultView::WrongType("path"@))
    } else if tags is Err {
        Err(FaultView::WrongType("tags"@))
    } else if category is Err {
        Err(FaultView::WrongType("category"@))
    } else if template is Err {
        Err(FaultView::WrongType("template"@))
    } else if extra is Err {
        Err(FaultView::WrongType("extra"@))
    } else if slug == Ok::<Option<Seq<char>>, ()>(Some(Seq::empty())) {
        Err(FaultView::EmptySlug)
    } else if path == Ok::<Option<Seq<char>>, ()>(Some(Seq::empty())) {
        Err(FaultView::EmptyPath)
    } else {
        Ok(
            FrontMatterView {
                title: title.unwrap(),
                description: description.unwrap(),
                date: date.unwrap(),
                draft: draft.unwrap(),
                slug: slug.unwrap(),
                path: path.unwrap(),
                tags: tags.unwrap(),
                category: category.unwrap(),
                template: template.unwrap(),
                extra: extra.unwrap(),
            },
        )
    }
}

/// The front matter that the TOML text `text` declares.
pub open spec fn parsed_front_matter(text: Seq<char>) -> Result<FrontMatterView, FaultView> {
    match toml_parsed(text) {
        Ok(doc) => front_matter_of(doc),
        Err(e) => Err(FaultView::Syntax(toml_error_text(e))),
    }
}

/// Reads the string under `key`.
fn read_text(doc: &toml::Value, key: &str) -> (r: Result<Option<String>, MetadataFault>)
    ensures
        match r {
            Ok(o) => text_entry(*doc, key@) == Ok::<Option<Seq<char>>, ()>(option_text(o)),
            Err(f) => text_entry(*doc, key@) is Err && f@ == FaultView::WrongType(key@),
        },
{
    match entry(doc, key) {
        None => Ok(None),
        Some(v) => match v.as_str() {
            Some(s) => Ok(Some(s.to_owned())),
            None => Err(MetadataFault::WrongType(key.to_owned())),
        },
    }
}

/// Reads the boolean under `key`.
fn read_flag(doc: &toml::Value, key: &str) -> (r: Result<Option<bool>, MetadataFault>)
    ensures
        match r {
            Ok(o) => flag_entry(*doc, key@) == Ok::<Option<bool>, ()>(o),
            Err(f) => flag_entry(*doc, key@) is Err && f@ == FaultView::WrongType(key@),
        },
{
    match entry(doc, key) {
        None => Ok(None),
        Some(v) => match v.as_bool() {
            Some(b) => Ok(Some(b)),
            None => Err(MetadataFault::WrongType(key.to_owned())),
        },
    }
}

/// Reads the list of strings under `key`.
fn read_text_list(doc: &toml::Value, key: &str) -> (r: Result<Option<Vec<String>>, MetadataFault>)
    ensures
        match r {
            Ok(Some(list)) => text_list_entry(*doc, key@) == Ok::<Option<Seq<Seq<char>>>, ()>(
                Some(texts(list@)),
            ),
            Ok(None) => text_list_entry(*doc, key@) == Ok::<Option<Seq<Seq<char>>>, ()>(None),
            Err(f) => text_list_entry(*doc, key@) is Err && f@ == FaultView::WrongType(key@),
        },
{
    let v = match entry(doc, key) {
        None => {
            return Ok(None);
        },
        Some(v) => v,
    };
    let items = match v.as_array() {
        None => {
            return Err(MetadataFault::WrongType(key.to_owned()));
        },
        Some(items) => items,
    };
    let mut out: Vec<String> = Vec::new();
    let mut i: usize = 0;
    while i < items.len()
        invariant
            toml_entry(*doc, key@) == Some(*v),
            toml_list(*v) == Some(items@),
            i <= items.len(),
            out@.len() == i,
            forall|j: int| 0 <= j < i ==> toml_text(#[trigger] items@[j]) == Some(out@[j]@),
        decreases items.len() - i,
    {
        match items[i].as_str() {
            Some(s) => {
                out.push(s.to_owned());
            },
            None => {
                assert(toml_text(items@[i as int]) is None);
                return Err(MetadataFault::WrongType(key.to_owned()));
            },
        }
        i += 1;
    }
    assert(all_text(items@));
    assert(texts(out@) =~= Seq::new(items@.len(), |i: int| toml_text(items@[i]).unwrap()));
    Ok(Some(out))
}

/// Reads the table under `key`.
fn read_table(doc: &toml::Value, key: &str) -> (r: Result<Option<toml::Value>, MetadataFault>)
    ensures
        match r {
            Ok(o) => table_entry(*doc, key@) == Ok::<Option<toml::Value>, ()>(o),
            Err(f) => table_entry(*doc, key@) is Err && f@ == FaultView::WrongType(key@),
        },
{
    match entry(doc, key) {
        None => Ok(None),
        Some(v) => if v.is_table() {
            Ok(Some(v.clone()))
        } else {
            Err(MetadataFault::WrongType(key.to_owned()))
        },
    }
}

impl PageFrontMatter {
    /// Reads the front matter off a parsed TOML document.
    pub fn from_toml(doc: &toml::Value) -> (r: Result<PageFrontMatter, MetadataFault>)
        ensures
            match r {
                Ok(m) => front_matter_of(*doc) == Ok::<FrontMatterView, FaultView>(m@),
                Err(f) => front_matter_of(*doc) == Err::<FrontMatterView, FaultView>(f@),
            },
    {
        let title = read_text(doc, "title")?;
        let description = read_text(doc, "description")?;
        let date = read_text(doc, "date")?;
        let draft = read_flag(doc, "draft")?;
        let slug = read_text(doc, "slug")?;
        let path = read_text(doc, "path")?;
        let tags = read_text_list(doc, "tags")?;
        let category = read_text(doc, "category")?;
        let template = read_text(doc, "template")?;
        let extra = read_table(doc, "extra")?;
        if let Some(s) = &slug {
            if s.as_str().unicode_len() == 0 {
                assert(s@ =~= Seq::<char>::empty());
                return Err(MetadataFault::EmptySlug);
            }
        }
        if let Some(p) = &path {
            if p.as_str().unicode_len() == 0 {
                assert(p@ =~= Seq::<char>::empty());
                return Err(MetadataFault::EmptyPath);
            }
        }
        Ok(
            PageFrontMatter {
                title,
                description,
                date,
                draft,
                slug,
                path,
                tags,
                category,
                template,
                extra,
            },
        )
    }

    /// Reads the front matter off the TOML text between the two `+++` lines.
    pub fn parse(toml: &str) -> (r: Result<PageFrontMatter, MetadataFault>)
        ensures
            match r {
                Ok(m) => parsed_front_matter(toml@) == Ok::<FrontMatterView, FaultView>(m@),
                Err(f) => parsed_front_matter(toml@) == Err::<FrontMatterView, FaultView>(f@),
            },
    {
        match parse_document(toml) {
            Ok(doc) => PageFrontMatter::from_toml(&doc),
            Err(e) => Err(MetadataFault::Syntax(error_text(&e))),
        }
    }
}

impl Default for PageFrontMatter {
    /// The front matter that declares nothing.
    fn default() -> (r: PageFrontMatter)
        ensures
            r@ == empty_front_matter(),
    {
        PageFrontMatter {
            title: None,
            description: None,
            date: None,
            draft: None,
            slug: None,
            path: None,
            tags: None,
            category: None,
            template: None,
            extra: None,
        }
    }
}

/// The line that opens and closes a front matter block.
pub open spec fn delimiter() -> Seq<char> {
    seq!['+', '+', '+']
}

/// The ASCII white space: blank, tab, line feed, vertical tab, form feed, carriage return.
pub open spec fn is_space(c: char) -> bool {
    c == ' ' || c == '\t' || c == '\n' || c == '\x0B' || c == '\x0C' || c == '\r'
}

/// The first index at or after `from` that holds no ASCII white space; the
/// length of `s` where there is none.
pub open spec fn first_non_space(s: Seq<char>, from: int) -> int
    decreases s.len() - from,
{
    if 0 <= from < s.len() && is_space(s[from]) {
        first_non_space(s, from + 1)
    } else {
        from
    }
}

/// The index behind the line break that starts at `i`: a line feed, or a
/// carriage return and a line feed.
pub open spec fn behind_line_break(s: Seq<char>, i: int) -> Option<int> {
    if 0 <= i < s.len() && s[i] == '\n' {
        Some(i + 1)
    } else if 0 <= i && i + 1 < s.len() && s[i] == '\r' && s[i + 1] == '\n' {
        Some(i + 2)
    } else {
        None
    }
}

/// The index `i`, moved behind a carriage return if one stands there, and
/// then behind a line feed if one stands there.
pub open spec fn behind_optional_break(s: Seq<char>, i: int) -> int {
    let j = if 0 <= i < s.len() && s[i] == '\r' {
        i + 1
    } else {
        i
    };
    if 0 <= j < s.len() && s[j] == '\n' {
        j + 1
    } else {
        j
    }
}

/// The front matter block of `s` and the body behind it. The text has to
/// start, after any ASCII white space, with `+++` and a line break. The
/// block runs from there to the next `+++`. The body is what follows that,
/// without one line break at its start.
pub open spec fn front_matter_split(s: Seq<char>) -> Option<(Seq<char>, Seq<char>)> {
    let start = first_non_space(s, 0);
    if !occurs_at(s, delimiter(), start) {
        None
    } else {
        match behind_line_break(s, start + 3) {
            None => None,
            Some(open) => match first_occurrence(s, delimiter(), open) {
                None => None,
                Some(close) => Some(
                    (s.subrange(open, close), s.skip(behind_optional_break(s, close + 3))),
                ),
            },
        }
    }
}

/// The front matter and the body of the content `s` of a page.
pub open spec fn page_content_split(s: Seq<char>) -> Result<(FrontMatterView, Seq<char>), FaultView> {
    match front_matter_split(s) {
        None => Err(FaultView::Missing),
        Some((front, body)) => match parsed_front_matter(front) {
            Ok(meta) => Ok((meta, body)),
            Err(fault) => Err(fault),
        },
    }
}

/// Splits the text of a content file into the text of its front matter
/// block and its body.
pub fn split_content(content: &str) -> (r: Option<(String, String)>)
    ensures
        match r {
            Some((front, body)) => front_matter_split(content@) == Some((front@, body@)),
            None => front_matter_split(content@) is None,
        },
{
    let v = to_chars(content);
    let n = v.len();
    let mut start: usize = 0;
    while start < n
        invariant_except_break
            start <= n,
            first_non_space(v@, 0) == first_non_space(v@, start as int),
        invariant
            n == v.len(),
        ensures
            start <= n,
            first_non_space(v@, 0) == start,
        decreases n - start,
    {
        let c = v[start];
        if !(c == ' ' || c == '\t' || c == '\n' || c == '\x0B' || c == '\x0C' || c == '\r') {
            break ;
        }
        start += 1;
    }
    let mark: Vec<char> = vec!['+', '+', '+'];
    assert(mark@ =~= delimiter());
    if !matches_at(&v, &mark, start) {
        return None;
    }
    let after: usize = start + 3;
    let open: usize = if after < n && v[after] == '\n' {
        after + 1
    } else if after < n && n - after > 1 && v[after] == '\r' && v[after + 1] == '\n' {
        after + 2
    } else {
        return None;
    };
    match find(&v, &mark, open) {
        None => None,
        Some(close) => {
            let mut body: usize = close + 3;
            if body < n && v[body] == '\r' {
                body += 1;
            }
            if body < n && v[body] == '\n' {
                body += 1;
            }
            let front = from_chars(&v, open, close);
            let rest = from_chars(&v, body, n);
            assert(v@.subrange(body as int, n as int) =~= v@.skip(body as int));
            Some((front, rest))
        },
    }
}

/// Splits the content of the file at `path` into its front matter, read as
/// TOML, and its body.
pub fn split_page_content(path: &str, content: &str) -> (r: Result<
    (PageFrontMatter, String),
    PageError,
>)
    ensures
        match r {
            Ok((meta, body)) => page_content_split(content@) == Ok::<
                (FrontMatterView, Seq<char>),
                FaultView,
            >((meta@, body@)),
            Err(e) => e matches PageError::MalformedMetadata { path: p, fault } && p@ == path@
                && page_content_split(content@) == Err::<(FrontMatterView, Seq<char>), FaultView>(
                fault@,
            ),
        },
{
    match split_content(content) {
        None => Err(
            PageError::MalformedMetadata { path: path.to_owned(), fault: MetadataFault::Missing },
        ),
        Some((front, body)) => match PageFrontMatter::parse(front.as_str()) {
            Ok(meta) => Ok((meta, body)),
            Err(fault) => Err(PageError::MalformedMetadata { path: path.to_owned(), fault }),
        },
    }
}

/// A copy of an optional string.
fn clone_text(text: &Option<String>) -> (r: Option<String>)
    ensures
        r == *text,
{
    match text {
        Some(t) => Some(t.clone()),
        None => None,
    }
}

impl Clone for PageFrontMatter {
    fn clone(&self) -> (r: PageFrontMatter)
        ensures
            r@ == self@,
    {
        let tags = match &self.tags {
            Some(tags) => {
                let copy = tags.clone();
                assert(texts(copy@) =~= texts(tags@));
                Some(copy)
            },
            None => None,
        };
        let extra = match &self.extra {
            Some(table) => Some(table.clone()),
            None => None,
        };
        PageFrontMatter {
            title: clone_text(&self.title),
            description: clone_text(&self.description),
            date: clone_text(&self.date),
            draft: self.draft,
            slug: clone_text(&self.slug),
            path: clone_text(&self.path),
            tags,
            category: clone_text(&self.category),
            template: clone_text(&self.template),
            extra,
        }
    }
}

} // verus!
