//! What can go wrong while a page is resolved.

use vstd::prelude::*;

verus! {

/// Why the front matter of a file was turned down.
#[derive(Debug, PartialEq)]
pub enum MetadataFault {
    /// The text has no front matter block between two `+++` lines.
    Missing,
    /// The block is no TOML document; the text says why.
    Syntax(String),
    /// The named field holds a value of a type it cannot take.
    WrongType(String),
    /// `slug` is there and empty.
    EmptySlug,
    /// `path` is there and empty.
    EmptyPath,
}

/// A page that could not be resolved, with the path of its file.
#[derive(Debug, PartialEq)]
pub enum PageError {
    /// The front matter is missing or cannot be read.
    MalformedMetadata { path: String, fault: MetadataFault },
    /// The file could not be read.
    ReadFailure { path: String, reason: String },
    /// The markdown could not be turned into HTML.
    RenderFailure { path: String, reason: String },
    /// The template engine failed.
    TemplateFailure { path: String, reason: String },
}

/// A fault as plain values.
pub enum FaultView {
    Missing,
    Syntax(Seq<char>),
    WrongType(Seq<char>),
    EmptySlug,
    EmptyPath,
}

impl View for MetadataFault {
    type V = FaultView;

    open spec fn view(&self) -> FaultView {
        match *self {
            MetadataFault::Missing => FaultView::Missing,
            MetadataFault::Syntax(why) => FaultView::Syntax(why@),
            MetadataFault::WrongType(field) => FaultView::WrongType(field@),
            MetadataFault::EmptySlug => FaultView::EmptySlug,
            MetadataFault::EmptyPath => FaultView::EmptyPath,
        }
    }
}

impl MetadataFault {
    /// The fault in words.
    pub open spec fn text(self) -> Seq<char> {
        match self {
            MetadataFault::Missing => "no front matter found, did you forget to add `+++`?"@,
            MetadataFault::Syntax(why) => "invalid TOML: "@ + why@,
            MetadataFault::WrongType(field) => "wrong type of value for `"@ + field@ + "`"@,
            MetadataFault::EmptySlug => "`slug` can't be empty if present"@,
            MetadataFault::EmptyPath => "`path` can't be empty if present"@,
        }
    }

    /// The fault in words.
    pub fn message(&self) -> (r: String)
        ensures
            r@ == self.text(),
    {
        match self {
            MetadataFault::Missing => "no front matter found, did you forget to add `+++`?".to_owned(),
            MetadataFault::Syntax(why) => {
                let mut out = "invalid TOML: ".to_owned();
                out.append(why.as_str());
                out
            },
            MetadataFault::WrongType(field) => {
                let mut out = "wrong type of value for `".to_owned();
                out.append(field.as_str());
                out.append("`");
                out
            },
            MetadataFault::EmptySlug => "`slug` can't be empty if present".to_owned(),
            MetadataFault::EmptyPath => "`path` can't be empty if present".to_owned(),
        }
    }
}

impl PageError {
    /// The path of the file that the error is about.
    pub open spec fn path_text(self) -> Seq<char> {
        match self {
            PageError::MalformedMetadata { path, .. } => path@,
            PageError::ReadFailure { path, .. } => path@,
            PageError::RenderFailure { path, .. } => path@,
            PageError::TemplateFailure { path, .. } => path@,
        }
    }

    /// The error in words: what failed, for which file, and why.
    pub open spec fn text(self) -> Seq<char> {
        match self {
            PageError::MalformedMetadata { path, fault } => "Error when parsing front matter of page `"@
                + path@ + "`: "@ + fault.text(),
            PageError::ReadFailure { path, reason } => "Failed to read file `"@ + path@ + "`: "@
                + reason@,
            PageError::RenderFailure { path, reason } => "Failed to render markdown of page '"@
                + path@ + "': "@ + reason@,
            PageError::TemplateFailure { path, reason } => "Failed to render page '"@ + path@
                + "': "@ + reason@,
        }
    }

    /// The path of the file that the error is about.
    pub fn path(&self) -> (r: &str)
        ensures
            r@ == self.path_text(),
    {
        match self {
            PageError::MalformedMetadata { path, .. } => path.as_str(),
            PageError::ReadFailure { path, .. } => path.as_str(),
            PageError::RenderFailure { path, .. } => path.as_str(),
            PageError::TemplateFailure { path, .. } => path.as_str(),
        }
    }

    /// The error in words: what failed, for which file, and why.
    pub fn message(&self) -> (r: String)
        ensures
            r@ == self.text(),
    {
        match self {
            PageError::MalformedMetadata { path, fault } => {
                let mut out = "Error when parsing front matter of page `".to_owned();
                out.append(path.as_str());
                out.append("`: ");
                out.append(fault.message().as_str());
                out
            },
            PageError::ReadFailure { path, reason } => {
                let mut out = "Failed to read file `".to_owned();
                out.append(path.as_str());
                out.append("`: ");
                out.append(reason.as_str());
                out
            },
            PageError::RenderFailure { path, reason } => {
                let mut out = "Failed to render markdown of page '".to_owned();
                out.append(path.as_str());
                out.append("': ");
                out.append(reason.as_str());
                out
            },
            PageError::TemplateFailure { path, reason } => {
                let mut out = "Failed to render page '".to_owned();
                out.append(path.as_str());
                out.append("': ");
                out.append(reason.as_str());
                out
            },
        }
    }
}

impl Clone for MetadataFault {
    fn clone(&self) -> (r: MetadataFault)
        ensures
            r == *self,
    {
        match self {
            MetadataFault::Missing => MetadataFault::Missing,
            MetadataFault::Syntax(why) => MetadataFault::Syntax(why.clone()),
            MetadataFault::WrongType(field) => MetadataFault::WrongType(field.clone()),
            MetadataFault::EmptySlug => MetadataFault::EmptySlug,
            MetadataFault::EmptyPath => MetadataFault::EmptyPath,
        }
    }
}

impl Clone for PageError {
    fn clone(&self) -> (r: PageError)
        ensures
            r == *self,
    {
        match self {
            PageError::MalformedMetadata { path, fault } => PageError::MalformedMetadata {
                path: path.clone(),
                fault: fault.clone(),
            },
            PageError::ReadFailure { path, reason } => PageError::ReadFailure {
                path: path.clone(),
                reason: reason.clone(),
            },
            PageError::RenderFailure { path, reason } => PageError::RenderFailure {
                path: path.clone(),
                reason: reason.clone(),
            },
            PageError::TemplateFailure { path, reason } => PageError::TemplateFailure {
                path: path.clone(),
                reason: reason.clone(),
            },
        }
    }
}

} // verus!
