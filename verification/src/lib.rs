//! Resolution of a single content file into an addressed, render-ready page.
//!
//! A content file is a TOML front matter block between two `+++` lines and a
//! markdown body. `Page::parse` reads the block and works out the slug of
//! the page, its path on the site and its full address. Rendering the body
//! and filling a template are done by others. `Page::render_markdown` and
//! `Page::render_html` take the renderer and the template engine as
//! functions. The steps they are made of can be taken one by one: a page
//! says what it wants done (`render_request`, `template_request`) and takes
//! the outcome in (`apply_rendered`, `complete_html`).

pub mod address;
pub mod assets;
pub mod config;
pub mod document;
pub mod errors;
pub mod file_info;
pub mod front_matter;
pub mod page;
pub mod rendering;
pub mod slugs;
pub mod text;

pub use config::Config;
pub use errors::{MetadataFault, PageError};
pub use file_info::FileInfo;
pub use front_matter::{InsertAnchor, PageFrontMatter};
pub use page::{Page, TemplateRequest, ViewModel};
pub use rendering::{Header, RenderContext, RenderRequest, Rendered};
