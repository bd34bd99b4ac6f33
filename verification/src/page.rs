//! A page: one content file, resolved into its slug, its path on the site,
//! its address, and, once rendered, its HTML, summary and table of contents.

use crate::address::{
    is_made_slug, is_regular, is_site_path, is_slug, lemma_derived_path_is_regular, open_path,
    resolve_path, resolve_slug, resolved_path, resolved_slug, slug_source,
};
use crate::assets::{assets_of, related_assets};
use crate::config::{permalink_of, Config};
use crate::errors::{FaultView, PageError};
use crate::file_info::{
    folder_name, index_marker, lemma_components_are_segments, page_components, page_name,
    FileInfo,
};
use crate::front_matter::{
    page_content_split, split_page_content, FrontMatterView, InsertAnchor, PageFrontMatter,
};
use crate::rendering::{Header, RenderContext, RenderRequest, Rendered};
use crate::slugs::{holds_letter_or_digit, slugified};
use crate::text::{
    contains_text, count_words, find, first_occurrence, holds_text, lemma_first_occurrence,
    lemma_trimmed_not_empty, occurs_at, texts, to_chars, trimmed, word_count,
};
use std::collections::HashMap;
use vstd::prelude::*;

verus! {

/// A page of the site.
#[derive(Debug, PartialEq)]
pub struct Page {
    /// Where the file of the page lies.
    pub file: FileInfo,
    /// What the front matter declares.
    pub meta: PageFrontMatter,
    /// The body of the file, in markdown.
    pub raw_content: String,
    /// The files that lie beside the page and are no pages themselves.
    pub assets: Vec<String>,
    /// The body, rendered to HTML; empty until the page is rendered.
    pub content: String,
    /// The slug: the one the front matter declares, or one made of the file's name.
    pub slug: String,
    /// The path of the page on the site; it ends with `/`.
    pub path: String,
    /// The full address of the page.
    pub permalink: String,
    /// The rendered text above the `<!-- more -->` line, where the body has one.
    pub summary: Option<String>,
    /// The page before this one, in the order of its section.
    pub previous: Option<Box<Page>>,
    /// The page after this one, in the order of its section.
    pub next: Option<Box<Page>>,
    /// The headings of the rendered body.
    pub toc: Vec<Header>,
}

/// Whether `e` is the error that the content `content` of the file at
/// `file_path` is turned down with: its front matter is missing or faulty.
pub open spec fn is_parse_failure(e: PageError, file_path: Seq<char>, content: Seq<char>) -> bool {
    e matches PageError::MalformedMetadata { path, fault } && path@ == file_path
        && page_content_split(content) == Err::<(FrontMatterView, Seq<char>), FaultView>(fault@)
}

/// The line that ends the summary of a page.
pub open spec fn excerpt_marker() -> Seq<char> {
    "<!-- more -->"@
}

/// The markdown of the summary: what stands before the first
/// `<!-- more -->` of the body, where it has one.
pub open spec fn excerpt_source(raw: Seq<char>) -> Option<Seq<char>> {
    match first_occurrence(raw, excerpt_marker(), 0) {
        Some(i) => Some(raw.take(i)),
        None => None,
    }
}

/// The name of the template a page is rendered with: the declared one, or `page.html`.
pub open spec fn template_name(declared: Option<Seq<char>>) -> Seq<char> {
    match declared {
        Some(name) => name,
        None => "page.html"@,
    }
}

/// How many words a reader is taken to read in a minute.
pub const WORDS_PER_MINUTE: usize = 200;

/// What a template sees of a page.
pub struct ViewModel<'a> {
    pub content: &'a String,
    pub title: &'a Option<String>,
    pub description: &'a Option<String>,
    pub date: &'a Option<String>,
    pub slug: &'a String,
    pub path: &'a String,
    pub permalink: &'a String,
    pub summary: &'a Option<String>,
    pub tags: &'a Option<Vec<String>>,
    pub category: &'a Option<String>,
    pub extra: &'a Option<toml::Value>,
    /// The number of words of the body.
    pub word_count: usize,
    /// The minutes it takes to read the body.
    pub reading_time: usize,
    /// The page before this one, without its own neighbours.
    pub previous: Option<Box<ViewModel<'a>>>,
    /// The page after this one, without its own neighbours.
    pub next: Option<Box<ViewModel<'a>>>,
    pub toc: &'a Vec<Header>,
}

/// What a page wants of the template engine.
pub struct TemplateRequest<'a> {
    /// The name of the template to render.
    pub template: String,
    /// The settings of the site; its theme is where templates are looked up too.
    pub config: &'a Config,
    /// The page, as the template sees it.
    pub page: ViewModel<'a>,
    /// The address of the page.
    pub current_url: &'a String,
    /// The path of the page on the site.
    pub current_path: &'a String,
}

/// The characters of an optional string slice.
pub open spec fn option_str_text(o: Option<&str>) -> Option<Seq<char>> {
    match o {
        Some(s) => Some(s@),
        None => None,
    }
}

impl Page {
    /// Whether slug, path and address are the ones that follow from the
    /// location of the file, the front matter and the settings of the site.
    pub open spec fn is_resolved(self, config: Config) -> bool {
        &&& self.slug@ == resolved_slug(
            self.meta@.slug,
            self.file.name@,
            folder_name(self.file.path@),
        )
        &&& self.path@ == resolved_path(self.meta@.path, texts(self.file.components@), self.slug@)
        &&& self.permalink@ == permalink_of(config.base_url@, self.path@)
    }

    /// Whether `other` holds what this page holds, neighbours included.
    pub open spec fn mirrors(self, other: Page) -> bool
        decreases self,
    {
        &&& self.file.mirrors(other.file)
        &&& other.meta@ == self.meta@
        &&& other.raw_content == self.raw_content
        &&& other.assets@ == self.assets@
        &&& other.content == self.content
        &&& other.slug == self.slug
        &&& other.path == self.path
        &&& other.permalink == self.permalink
        &&& other.summary == self.summary
        &&& other.toc@ == self.toc@
        &&& match self.previous {
            Some(page) => other.previous is Some && page.mirrors(*other.previous.unwrap()),
            None => other.previous is None,
        }
        &&& match self.next {
            Some(page) => other.next is Some && page.mirrors(*other.next.unwrap()),
            None => other.next is None,
        }
    }

    /// Whether nothing has been filled in but the location and the front matter.
    pub open spec fn is_blank(self) -> bool {
        &&& self.raw_content@.len() == 0
        &&& self.assets@.len() == 0
        &&& self.content@.len() == 0
        &&& self.slug@.len() == 0
        &&& self.path@.len() == 0
        &&& self.permalink@.len() == 0
        &&& self.summary is None
        &&& self.previous is None
        &&& self.next is None
        &&& self.toc@.len() == 0
    }

    /// Whether the page has not been rendered, nor put beside other pages.
    pub open spec fn is_unrendered(self) -> bool {
        &&& self.assets@.len() == 0
        &&& self.content@.len() == 0
        &&& self.summary is None
        &&& self.previous is None
        &&& self.next is None
        &&& self.toc@.len() == 0
    }

    /// Whether the page is what the content `content` of the file at
    /// `file_path` resolves to on the site with the settings `config`.
    pub open spec fn is_parse_of(self, file_path: Seq<char>, content: Seq<char>, config: Config) -> bool {
        &&& page_content_split(content) == Ok::<(FrontMatterView, Seq<char>), FaultView>(
            (self.meta@, self.raw_content@),
        )
        &&& self.file.locates(file_path)
        &&& self.slug@ == resolved_slug(self.meta@.slug, page_name(file_path), folder_name(file_path))
        &&& self.meta.slug is None ==> is_made_slug(
            self.slug@,
            slug_source(page_name(file_path), folder_name(file_path)),
        )
        &&& self.path@ == resolved_path(self.meta@.path, page_components(file_path), self.slug@)
        &&& self.permalink@ == permalink_of(config.base_url@, self.path@)
    }

    /// A page for the file at `file_path` with the front matter `meta`, and
    /// nothing else filled in.
    pub fn new(file_path: &str, meta: PageFrontMatter) -> (r: Page)
        ensures
            r.file.locates(file_path@),
            r.meta == meta,
            r.is_blank(),
    {
        Page {
            file: FileInfo::new_page(file_path),
            meta,
            raw_content: String::new(),
            assets: Vec::new(),
            content: String::new(),
            slug: String::new(),
            path: String::new(),
            permalink: String::new(),
            summary: None,
            previous: None,
            next: None,
            toc: Vec::new(),
        }
    }

    /// Whether the front matter marks the page as a draft.
    pub fn is_draft(&self) -> (r: bool)
        ensures
            r == (self.meta.draft == Some(true)),
    {
        match self.meta.draft {
            Some(draft) => draft,
            None => false,
        }
    }

    /// Resolves the content of the file at `file_path`: splits off and reads
    /// the front matter, and works out slug, path and address of the page.
    /// Fails where the front matter is missing or cannot be read.
    pub fn parse(file_path: &str, content: &str, config: &Config) -> (r: Result<Page, PageError>)
        ensures
            match r {
                Ok(page) => {
                    &&& page.is_parse_of(file_path@, content@, *config)
                    &&& page.is_resolved(*config)
                    &&& page.is_unrendered()
                },
                Err(e) => is_parse_failure(e, file_path@, content@),
            },
    {
        let (meta, body) = match split_page_content(file_path, content) {
            Ok(parts) => parts,
            Err(e) => {
                return Err(e);
            },
        };
        let mut page = Page::new(file_path, meta);
        page.raw_content = body;
        page.slug = resolve_slug(&page.meta, &page.file);
        page.path = resolve_path(&page.meta, &page.file, page.slug.as_str());
        page.permalink = config.make_permalink(page.path.as_str());
        Ok(page)
    }
}

impl Page {
    /// Resolves the file at `path`. `read` is what reading the file gave:
    /// its text, or the reason why it could not be read. `entries` are the
    /// files found in the directory of the file, in the order they were
    /// found; they matter to an index page only, whose assets they hold.
    pub fn from_file(
        path: &str,
        read: Result<String, String>,
        entries: &Vec<String>,
        config: &Config,
    ) -> (r: Result<Page, PageError>)
        ensures
            match r {
                Ok(page) => {
                    &&& read matches Ok(content)
                    &&& page.is_parse_of(path@, content@, *config)
                    &&& page.is_resolved(*config)
                    &&& texts(page.assets@) == assets_of(path@, texts(entries@))
                    &&& page.content@.len() == 0
                    &&& page.summary is None
                    &&& page.previous is None
                    &&& page.next is None
                    &&& page.toc@.len() == 0
                },
                Err(e) => match read {
                    Ok(content) => is_parse_failure(e, path@, content@),
                    Err(reason) => e matches PageError::ReadFailure { path: at, reason: why }
                        && at@ == path@ && why == reason,
                },
            },
    {
        let content = match read {
            Ok(content) => content,
            Err(reason) => {
                return Err(PageError::ReadFailure { path: path.to_owned(), reason });
            },
        };
        let mut page = match Page::parse(path, content.as_str(), config) {
            Ok(page) => page,
            Err(e) => {
                return Err(e);
            },
        };
        if page.file.is_index() {
            page.assets = related_assets(entries);
        } else {
            assert(texts(page.assets@) =~= Seq::<Seq<char>>::empty());
        }
        Ok(page)
    }

    /// Whether `request` is what the page asks of the renderer, on a site
    /// with the settings `config` whose pages have the addresses
    /// `permalinks`, with anchor links put where `anchor_insert` says: the
    /// body, and what stands before the first `<!-- more -->` where the body
    /// has that line, both with the same settings.
    pub open spec fn asks_to_render(
        self,
        request: RenderRequest,
        permalinks: HashMap<String, String>,
        config: Config,
        anchor_insert: InsertAnchor,
    ) -> bool {
        &&& request.body@ == self.raw_content@
        &&& option_str_text(request.excerpt) == excerpt_source(self.raw_content@)
        &&& request.context.highlight_code == config.highlight_code
        &&& request.context.highlight_theme@ == config.highlight_theme@
        &&& request.context.current_page_permalink@ == self.permalink@
        &&& *request.context.permalinks == permalinks
        &&& request.context.insert_anchor == anchor_insert
    }

    /// What the renderer is to do for this page.
    pub fn render_request<'a>(
        &'a self,
        permalinks: &'a HashMap<String, String>,
        config: &'a Config,
        anchor_insert: InsertAnchor,
    ) -> (r: RenderRequest<'a>)
        ensures
            self.asks_to_render(r, *permalinks, *config, anchor_insert),
    {
        let raw = to_chars(self.raw_content.as_str());
        let mark = to_chars("<!-- more -->");
        let excerpt = match find(&raw, &mark, 0) {
            Some(i) => {
                assert(raw@.subrange(0, i as int) =~= raw@.take(i as int));
                Some(self.raw_content.as_str().substring_char(0, i))
            },
            None => None,
        };
        RenderRequest {
            context: RenderContext {
                highlight_code: config.highlight_code,
                highlight_theme: config.highlight_theme.as_str(),
                current_page_permalink: self.permalink.as_str(),
                permalinks,
                insert_anchor: anchor_insert,
            },
            body: self.raw_content.as_str(),
            excerpt,
        }
    }

    /// The page with the rendered body `body` and the summary `summary`.
    pub open spec fn rendered_with(self, body: Rendered, summary: Option<String>) -> Page {
        Page { content: body.html, toc: body.toc, summary, ..self }
    }

    /// The page after it has taken in what the renderer made of its
    /// request: `body` for the body, `excerpt` for the summary. The page gets
    /// the HTML and the headings of the body, and the HTML of the summary
    /// exactly where the body marks one. Nothing where the renderer failed,
    /// or made no summary of a body that marks one.
    pub open spec fn rendered(
        self,
        body: Result<Rendered, String>,
        excerpt: Option<Result<Rendered, String>>,
    ) -> Option<Page> {
        match body {
            Err(_) => None,
            Ok(b) => if excerpt_source(self.raw_content@) is Some {
                match excerpt {
                    Some(Ok(e)) => Some(self.rendered_with(b, Some(e.html))),
                    _ => None,
                }
            } else {
                Some(self.rendered_with(b, None))
            },
        }
    }

    /// Why the renderer's answer cannot be taken in, where it cannot.
    pub open spec fn render_fault(
        self,
        body: Result<Rendered, String>,
        excerpt: Option<Result<Rendered, String>>,
    ) -> Seq<char> {
        match body {
            Err(reason) => reason@,
            Ok(_) => match excerpt {
                Some(Err(reason)) => reason@,
                _ => "the summary was not rendered"@,
            },
        }
    }

    /// Whether taking in the renderer's answer turns the page into `after`
    /// and gives `r`: the rendered page, or, with the page as it was, the
    /// failure of the renderer with the path of the page's file.
    pub open spec fn takes_in(
        self,
        body: Result<Rendered, String>,
        excerpt: Option<Result<Rendered, String>>,
        after: Page,
        r: Result<(), PageError>,
    ) -> bool {
        match r {
            Ok(()) => self.rendered(body, excerpt) == Some(after),
            Err(e) => {
                &&& self.rendered(body, excerpt) is None
                &&& after == self
                &&& e matches PageError::RenderFailure { path, reason }
                &&& path@ == self.file.path@
                &&& reason@ == self.render_fault(body, excerpt)
            },
        }
    }

    /// Takes in what the renderer made of `render_request`: `body` for the
    /// body, `excerpt` for the summary. Where rendering failed the page
    /// stays as it was.
    pub fn apply_rendered(
        &mut self,
        body: Result<Rendered, String>,
        excerpt: Option<Result<Rendered, String>>,
    ) -> (r: Result<(), PageError>)
        ensures
            old(self).takes_in(body, excerpt, *final(self), r),
    {
        let rendered = match body {
            Ok(rendered) => rendered,
            Err(reason) => {
                return Err(PageError::RenderFailure { path: self.file.path.clone(), reason });
            },
        };
        let raw = to_chars(self.raw_content.as_str());
        let mark = to_chars("<!-- more -->");
        let summary = match find(&raw, &mark, 0) {
            None => None,
            Some(_) => match excerpt {
                Some(Ok(e)) => Some(e.html),
                Some(Err(reason)) => {
                    return Err(PageError::RenderFailure { path: self.file.path.clone(), reason });
                },
                None => {
                    return Err(
                        PageError::RenderFailure {
                            path: self.file.path.clone(),
                            reason: "the summary was not rendered".to_owned(),
                        },
                    );
                },
            },
        };
        self.content = rendered.html;
        self.toc = rendered.toc;
        self.summary = summary;
        Ok(())
    }

    /// Renders the page with `renderer`, which turns markdown into HTML
    /// and headings: the body, and then, where the body has the line
    /// `<!-- more -->`, what stands before the first such line. The page
    /// takes in what the renderer returned as `apply_rendered` says.
    pub fn render_markdown<F>(
        &mut self,
        permalinks: &HashMap<String, String>,
        config: &Config,
        anchor_insert: InsertAnchor,
        renderer: F,
    ) -> (r: Result<(), PageError>) where F: Fn(&str, &RenderContext) -> Result<Rendered, String>
        requires
            forall|request: RenderRequest| #[trigger]
                old(self).asks_to_render(request, *permalinks, *config, anchor_insert) ==> {
                    &&& renderer.requires((request.body, &request.context))
                    &&& request.excerpt matches Some(text) ==> renderer.requires(
                        (text, &request.context),
                    )
                },
        ensures
            exists|
                request: RenderRequest,
                body: Result<Rendered, String>,
                excerpt: Option<Result<Rendered, String>>,
            |
                {
                    &&& #[trigger] old(self).asks_to_render(
                        request,
                        *permalinks,
                        *config,
                        anchor_insert,
                    )
                    &&& renderer.ensures((request.body, &request.context), body)
                    &&& match request.excerpt {
                        Some(text) => excerpt matches Some(e) && renderer.ensures(
                            (text, &request.context),
                            e,
                        ),
                        None => excerpt is None,
                    }
                    &&& #[trigger] old(self).takes_in(body, excerpt, *final(self), r)
                },
    {
        let ghost asked;
        let (body, excerpt) = {
            let request = self.render_request(permalinks, config, anchor_insert);
            let body = renderer(request.body, &request.context);
            let excerpt = match request.excerpt {
                Some(text) => Some(renderer(text, &request.context)),
                None => None,
            };
            proof {
                asked = request;
            }
            (body, excerpt)
        };
        let ghost answers = (body, excerpt);
        let r = self.apply_rendered(body, excerpt);
        assert(old(self).takes_in(answers.0, answers.1, *self, r));
        assert(old(self).asks_to_render(asked, *permalinks, *config, anchor_insert));
        r
    }

    /// Whether `request` is what the page asks of the template engine on a
    /// site with the settings `config`: to render the template that the
    /// front matter names, or `page.html`, with the settings, the view of
    /// the page, its address and its path at hand.
    pub open spec fn asks_for_template(self, request: TemplateRequest, config: Config) -> bool {
        &&& request.template@ == template_name(self.meta@.template)
        &&& *request.config == config
        &&& request.page == self.view_model()
        &&& self.is_counted_in(request.page)
        &&& *request.current_url == self.permalink
        &&& *request.current_path == self.path
    }

    /// What the template engine is to do for this page.
    pub fn template_request<'a>(&'a self, config: &'a Config) -> (r: TemplateRequest<'a>)
        ensures
            self.asks_for_template(r, *config),
    {
        let template = match &self.meta.template {
            Some(name) => name.clone(),
            None => "page.html".to_owned(),
        };
        TemplateRequest {
            template,
            config,
            page: self.to_view_model(),
            current_url: &self.permalink,
            current_path: &self.path,
        }
    }

    /// Whether `r` is what the page makes of the answer `rendered` of the
    /// template engine: its output, or its failure with the path of the
    /// page's file.
    pub open spec fn completes(self, rendered: Result<String, String>, r: Result<String, PageError>) -> bool {
        match rendered {
            Ok(html) => r == Ok::<String, PageError>(html),
            Err(reason) => r matches Err(PageError::TemplateFailure { path, reason: why })
                && path@ == self.file.path@ && why == reason,
        }
    }

    /// The HTML of the whole page, from what the template engine made of
    /// `template_request`: its output, or the reason why it failed, which is
    /// handed on with the path of the page's file.
    pub fn complete_html(&self, rendered: Result<String, String>) -> (r: Result<String, PageError>)
        ensures
            self.completes(rendered, r),
    {
        match rendered {
            Ok(html) => Ok(html),
            Err(reason) => Err(
                PageError::TemplateFailure { path: self.file.path.clone(), reason },
            ),
        }
    }

    /// Renders the whole page with `engine`, which fills the template it is
    /// asked for. The result is made of what the engine returned as
    /// `complete_html` says.
    pub fn render_html<F>(&self, config: &Config, engine: F) -> (r: Result<String, PageError>) where
        F: Fn(&TemplateRequest) -> Result<String, String>,

        requires
            forall|request: TemplateRequest| #[trigger]
                self.asks_for_template(request, *config) ==> engine.requires((&request,)),
        ensures
            exists|request: TemplateRequest, rendered: Result<String, String>|
                {
                    &&& self.asks_for_template(request, *config)
                    &&& #[trigger] engine.ensures((&request,), rendered)
                    &&& self.completes(rendered, r)
                },
    {
        let request = self.template_request(config);
        let rendered = engine(&request);
        let ghost answer = rendered;
        let r = self.complete_html(rendered);
        assert(engine.ensures((&request,), answer));
        r
    }

    /// What a template sees of the page itself, its neighbours left out.
    pub open spec fn own_view(self) -> ViewModel<'static> {
        ViewModel {
            content: &self.content,
            title: &self.meta.title,
            description: &self.meta.description,
            date: &self.meta.date,
            slug: &self.slug,
            path: &self.path,
            permalink: &self.permalink,
            summary: &self.summary,
            tags: &self.meta.tags,
            category: &self.meta.category,
            extra: &self.meta.extra,
            word_count: word_count(self.raw_content@) as usize,
            reading_time: (word_count(self.raw_content@) / WORDS_PER_MINUTE as nat) as usize,
            previous: None,
            next: None,
            toc: &self.toc,
        }
    }

    /// What a template sees of a neighbour of a page: its own view.
    pub open spec fn neighbour_view(neighbour: Option<Box<Page>>) -> Option<Box<ViewModel<'static>>> {
        match neighbour {
            Some(page) => Some(Box::new(page.own_view())),
            None => None,
        }
    }

    /// What a template sees of the page: its fields, the number of words of
    /// its body and the minutes it takes to read them, and its neighbours
    /// without their own neighbours.
    pub open spec fn view_model(self) -> ViewModel<'static> {
        ViewModel {
            previous: Page::neighbour_view(self.previous),
            next: Page::neighbour_view(self.next),
            ..self.own_view()
        }
    }

    /// Whether `view` holds the number of words of the body of the page,
    /// and the minutes it takes to read them: a minute for every full
    /// `WORDS_PER_MINUTE` words.
    pub open spec fn is_counted_in(self, view: ViewModel) -> bool {
        &&& view.word_count == word_count(self.raw_content@)
        &&& view.reading_time == word_count(self.raw_content@) / WORDS_PER_MINUTE as nat
    }

    /// The view of the page without its neighbours.
    fn to_own_view<'a>(&'a self) -> (r: ViewModel<'a>)
        ensures
            r == self.own_view(),
            self.is_counted_in(r),
    {
        let words = count_words(self.raw_content.as_str());
        ViewModel {
            content: &self.content,
            title: &self.meta.title,
            description: &self.meta.description,
            date: &self.meta.date,
            slug: &self.slug,
            path: &self.path,
            permalink: &self.permalink,
            summary: &self.summary,
            tags: &self.meta.tags,
            category: &self.meta.category,
            extra: &self.meta.extra,
            word_count: words,
            reading_time: words / WORDS_PER_MINUTE,
            previous: None,
            next: None,
            toc: &self.toc,
        }
    }

    /// What a template sees of the page. The page is left as it is.
    pub fn to_view_model<'a>(&'a self) -> (r: ViewModel<'a>)
        ensures
            r == self.view_model(),
            self.is_counted_in(r),
            self.previous matches Some(page) ==> page.is_counted_in(*r.previous.unwrap()),
            self.next matches Some(page) ==> page.is_counted_in(*r.next.unwrap()),
    {
        let mut view = self.to_own_view();
        view.previous = match &self.previous {
            Some(page) => Some(Box::new(page.to_own_view())),
            None => None,
        };
        view.next = match &self.next {
            Some(page) => Some(Box::new(page.to_own_view())),
            None => None,
        };
        view
    }
}

impl Default for Page {
    /// A page with nothing filled in.
    fn default() -> (r: Page)
        ensures
            r.is_blank(),
            r.file.path@.len() == 0,
            r.file.name@.len() == 0,
            r.file.components@.len() == 0,
            r.meta@ == crate::front_matter::empty_front_matter(),
    {
        Page {
            file: FileInfo::default(),
            meta: PageFrontMatter::default(),
            raw_content: String::new(),
            assets: Vec::new(),
            content: String::new(),
            slug: String::new(),
            path: String::new(),
            permalink: String::new(),
            summary: None,
            previous: None,
            next: None,
            toc: Vec::new(),
        }
    }
}

/// A declared slug is the slug of the page, without the white space around
/// it and otherwise as it is, whatever the file is called.
pub proof fn lemma_declared_slug_is_kept(
    page: Page,
    file_path: Seq<char>,
    content: Seq<char>,
    config: Config,
)
    requires
        page.is_parse_of(file_path, content, config),
        page.meta.slug is Some,
    ensures
        page.slug@ == trimmed(page.meta.slug.unwrap()@),
{
}

/// Where no slug is declared, the slug of the index of a directory is made
/// of the name of that directory.
pub proof fn lemma_index_slug_is_folder(
    page: Page,
    file_path: Seq<char>,
    content: Seq<char>,
    config: Config,
)
    requires
        page.is_parse_of(file_path, content, config),
        page.meta.slug is None,
        page_name(file_path) == index_marker(),
        folder_name(file_path) is Some,
    ensures
        page.slug@ == slugified(folder_name(file_path).unwrap()),
{
}

/// The path of a page ends with `/`. It is a path as it should be exactly
/// where the path that is declared or made for it is regular, and so
/// wherever none is declared and the slug is one and not empty.
pub proof fn lemma_page_path_shape(
    page: Page,
    file_path: Seq<char>,
    content: Seq<char>,
    config: Config,
)
    requires
        page.is_parse_of(file_path, content, config),
    ensures
        page.path@.len() > 0,
        page.path@.last() == '/',
        is_site_path(page.path@) <==> is_regular(
            open_path(page.meta@.path, page_components(file_path), page.slug@),
        ),
        page.meta.path is None && page.slug@.len() > 0 && is_slug(page.slug@) ==> is_site_path(
            page.path@,
        ),
        page.meta.path is None && page.meta.slug is None && holds_letter_or_digit(
            slug_source(page_name(file_path), folder_name(file_path)),
        ) ==> is_site_path(page.path@),
{
    if page.meta.path is None && page.slug@.len() > 0 && is_slug(page.slug@) {
        lemma_components_are_segments(file_path);
        lemma_derived_path_is_regular(page_components(file_path), page.slug@);
    }
}

/// The slug of a page is not empty exactly where the declared slug holds a
/// character that is no white space. Where none is declared, it is not
/// empty wherever the name it is made of holds an ASCII letter or digit.
pub proof fn lemma_slug_not_empty(
    page: Page,
    file_path: Seq<char>,
    content: Seq<char>,
    config: Config,
)
    requires
        page.is_parse_of(file_path, content, config),
    ensures
        page.meta.slug matches Some(declared) ==> (page.slug@.len() > 0 <==> holds_text(
            declared@,
        )),
        page.meta.slug is None && holds_letter_or_digit(
            slug_source(page_name(file_path), folder_name(file_path)),
        ) ==> page.slug@.len() > 0,
{
    if page.meta.slug is Some {
        lemma_trimmed_not_empty(page.meta.slug.unwrap()@);
    }
}

/// The address of a page is the one that the site makes of its path, before
/// the page is rendered and after.
pub proof fn lemma_permalink_follows_path(
    page: Page,
    file_path: Seq<char>,
    content: Seq<char>,
    config: Config,
    body: Result<Rendered, String>,
    excerpt: Option<Result<Rendered, String>>,
)
    requires
        page.is_parse_of(file_path, content, config),
    ensures
        page.permalink@ == permalink_of(config.base_url@, page.path@),
        page.rendered(body, excerpt) matches Some(after) ==> (after.permalink@ == permalink_of(
            config.base_url@,
            after.path@,
        ) && after.is_parse_of(file_path, content, config)),
{
}

/// The summary that is asked for is what stands before the first
/// `<!-- more -->` of the body, and there is one exactly where the body
/// holds that line.
pub proof fn lemma_excerpt_is_before_first_marker(raw: Seq<char>)
    ensures
        match excerpt_source(raw) {
            Some(text) => {
                &&& text.len() + excerpt_marker().len() <= raw.len()
                &&& text == raw.take(text.len() as int)
                &&& occurs_at(raw, excerpt_marker(), text.len() as int)
                &&& forall|j: int| 0 <= j < text.len() ==> !occurs_at(raw, excerpt_marker(), j)
            },
            None => forall|j: int| 0 <= j ==> !occurs_at(raw, excerpt_marker(), j),
        },
{
    lemma_first_occurrence(raw, excerpt_marker(), 0);
}

/// A rendered page has a summary exactly where its body holds the line
/// `<!-- more -->`, and the summary is then the HTML that the renderer made
/// of what it was asked to render as the summary.
pub proof fn lemma_summary_follows_marker(
    page: Page,
    body: Result<Rendered, String>,
    excerpt: Option<Result<Rendered, String>>,
)
    requires
        page.rendered(body, excerpt) is Some,
    ensures
        contains_text(page.raw_content@, excerpt_marker()) ==> (excerpt matches Some(Ok(e))
            && page.rendered(body, excerpt).unwrap().summary == Some(e.html)),
        !contains_text(page.raw_content@, excerpt_marker()) ==> page.rendered(
            body,
            excerpt,
        ).unwrap().summary is None,
{
}

/// Rendering a page again with the same outcome of the renderer leaves it
/// as the first rendering made it.
pub proof fn lemma_rendering_again_changes_nothing(
    page: Page,
    body: Result<Rendered, String>,
    excerpt: Option<Result<Rendered, String>>,
)
    requires
        page.rendered(body, excerpt) is Some,
    ensures
        page.rendered(body, excerpt).unwrap().rendered(body, excerpt) == page.rendered(
            body,
            excerpt,
        ),
        page.rendered(body, excerpt).unwrap().content == body.unwrap().html,
        page.rendered(body, excerpt).unwrap().toc == body.unwrap().toc,
{
}

impl Clone for Page {
    /// A copy of the page, neighbours included.
    fn clone(&self) -> (r: Page)
        ensures
            self.mirrors(r),
        decreases self,
    {
        let assets = self.assets.clone();
        let toc = self.toc.clone();
        assert(assets@ =~= self.assets@);
        assert(toc@ =~= self.toc@);
        Page {
            file: self.file.clone(),
            meta: self.meta.clone(),
            raw_content: self.raw_content.clone(),
            assets,
            content: self.content.clone(),
            slug: self.slug.clone(),
            path: self.path.clone(),
            permalink: self.permalink.clone(),
            summary: match &self.summary {
                Some(summary) => Some(summary.clone()),
                None => None,
            },
            previous: match &self.previous {
                Some(page) => Some(Box::new((**page).clone())),
                None => None,
            },
            next: match &self.next {
                Some(page) => Some(Box::new((**page).clone())),
                None => None,
            },
            toc,
        }
    }
}

} // verus!
