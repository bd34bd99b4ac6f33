//! What passes between a page and the markdown renderer.
//!
//! The renderer itself is not part of this crate. A page says what it wants
//! rendered and with which settings, and takes the outcome back.

use crate::front_matter::InsertAnchor;
use std::collections::HashMap;
use vstd::prelude::*;

verus! {

/// A heading of a rendered page, as the table of contents lists it.
#[derive(Debug, PartialEq)]
pub struct Header {
    /// The level of the heading, 1 for the outermost.
    pub level: u32,
    /// The anchor id made for the heading.
    pub id: String,
    /// The text of the heading.
    pub title: String,
}

/// Markdown turned into HTML, with the headings found on the way.
#[derive(Debug, PartialEq)]
pub struct Rendered {
    pub html: String,
    pub toc: Vec<Header>,
}

/// The settings that the renderer works with.
pub struct RenderContext<'a> {
    /// Whether code blocks are highlighted.
    pub highlight_code: bool,
    /// The theme used to highlight them.
    pub highlight_theme: &'a str,
    /// The address of the page that is rendered: relative links start there.
    pub current_page_permalink: &'a str,
    /// The address of every page of the site, by the name other pages link to it with.
    pub permalinks: &'a HashMap<String, String>,
    /// Where headings get their anchor link.
    pub insert_anchor: InsertAnchor,
}

/// What a page wants rendered.
pub struct RenderRequest<'a> {
    /// The settings to render with.
    pub context: RenderContext<'a>,
    /// The markdown of the whole page.
    pub body: &'a str,
    /// The markdown of the summary, where the page marks one.
    pub excerpt: Option<&'a str>,
}

impl Clone for Header {
    fn clone(&self) -> (r: Header)
        ensures
            r == *self,
    {
        Header { level: self.level, id: self.id.clone(), title: self.title.clone() }
    }
}

impl Clone for Rendered {
    fn clone(&self) -> (r: Rendered)
        ensures
            r.html == self.html,
            r.toc@ == self.toc@,
    {
        let toc = self.toc.clone();
        assert(toc@ =~= self.toc@);
        Rendered { html: self.html.clone(), toc }
    }
}

} // verus!
