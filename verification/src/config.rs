//! The site-wide settings that resolving a page reads.

use crate::text::{from_chars, push_char, to_chars};
use vstd::prelude::*;

verus! {

/// `s` without one `/` at its end, if it has one there.
pub open spec fn without_trailing_separator(s: Seq<char>) -> Seq<char> {
    if s.len() > 0 && s.last() == '/' {
        s.drop_last()
    } else {
        s
    }
}

/// `s` without one `/` at its start, if it has one there.
pub open spec fn without_leading_separator(s: Seq<char>) -> Seq<char> {
    if s.len() > 0 && s[0] == '/' {
        s.drop_first()
    } else {
        s
    }
}

/// The `/` that closes a path which is neither empty nor closed already.
pub open spec fn closing_separator(path: Seq<char>) -> Seq<char> {
    if path.len() == 0 || path.last() == '/' {
        Seq::empty()
    } else {
        seq!['/']
    }
}

/// The address of `path` on the site at `base`: base and path joined by
/// exactly one `/`, whether or not either brings its own, and closed by a `/`.
pub open spec fn permalink_of(base: Seq<char>, path: Seq<char>) -> Seq<char> {
    without_trailing_separator(base).push('/') + without_leading_separator(path)
        + closing_separator(path)
}

/// An address starts with the base, without one `/` at its end, then has
/// the `/` that joins base and path, and ends with `/`. The joining `/` has
/// no other `/` beside it, unless the base ends with more than one or the
/// path starts with more than one.
pub proof fn lemma_permalink_joint(base: Seq<char>, path: Seq<char>)
    ensures
        ({
            let stem = without_trailing_separator(base);
            let rest = without_leading_separator(path);
            let link = permalink_of(base, path);
            &&& link.len() > stem.len()
            &&& link.take(stem.len() as int) == stem
            &&& link[stem.len() as int] == '/'
            &&& link.last() == '/'
            &&& stem.len() > 0 && stem.last() != '/' ==> link[stem.len() - 1] != '/'
            &&& rest.len() > 0 && rest[0] != '/' ==> link[stem.len() as int + 1] == rest[0]
        }),
{
    let stem = without_trailing_separator(base);
    let link = permalink_of(base, path);
    assert(link.take(stem.len() as int) =~= stem);
}

/// The settings of a site.
#[derive(Debug, PartialEq)]
pub struct Config {
    /// The address below which the whole site is served.
    pub base_url: String,
    /// Whether code blocks are highlighted.
    pub highlight_code: bool,
    /// The theme used to highlight code blocks.
    pub highlight_theme: String,
    /// The theme of the site, if it uses one.
    pub theme: Option<String>,
}

impl Config {
    /// The full address of the page at `path`.
    pub fn make_permalink(&self, path: &str) -> (r: String)
        ensures
            r@ == permalink_of(self.base_url@, path@),
    {
        let base = to_chars(self.base_url.as_str());
        let p = to_chars(path);
        let base_end: usize = if base.len() > 0 && base[base.len() - 1] == '/' {
            base.len() - 1
        } else {
            base.len()
        };
        let path_start: usize = if p.len() > 0 && p[0] == '/' {
            1
        } else {
            0
        };
        let mut out = from_chars(&base, 0, base_end);
        push_char(&mut out, '/');
        out.append(from_chars(&p, path_start, p.len()).as_str());
        if p.len() > 0 && p[p.len() - 1] != '/' {
            push_char(&mut out, '/');
        }
        proof {
            assert(base@.subrange(0, base_end as int) =~= without_trailing_separator(base@));
            assert(p@.subrange(path_start as int, p.len() as int) =~= without_leading_separator(
                p@,
            ));
            assert(out@ =~= permalink_of(self.base_url@, path@));
        }
        out
    }
}

impl Default for Config {
    /// The settings of a site that has set none.
    fn default() -> (r: Config)
        ensures
            r.base_url@ == "http://a-website.com/"@,
            r.highlight_code,
            r.highlight_theme@ == "base16-ocean-dark"@,
            r.theme is None,
    {
        Config {
            base_url: "http://a-website.com/".to_owned(),
            highlight_code: true,
            highlight_theme: "base16-ocean-dark".to_owned(),
            theme: None,
        }
    }
}

impl Clone for Config {
    fn clone(&self) -> (r: Config)
        ensures
            r == *self,
    {
        Config {
            base_url: self.base_url.clone(),
            highlight_code: self.highlight_code,
            highlight_theme: self.highlight_theme.clone(),
            theme: match &self.theme {
                Some(theme) => Some(theme.clone()),
                None => None,
            },
        }
    }
}

} // verus!
