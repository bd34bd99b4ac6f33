//! The assets of a page: the files beside an index page that are no pages.

use crate::file_info::{extension, extension_of, index_marker, page_name, segments, split_path};
use crate::text::{same_text, texts};
use vstd::prelude::*;

verus! {

/// The extension of the files that are pages.
pub open spec fn page_extension() -> Seq<char> {
    seq!['m', 'd']
}

/// Whether the file at `path` is an asset: any file but one with the
/// extension of a page.
pub open spec fn is_asset(path: Seq<char>) -> bool {
    segments(path).len() > 0 && extension(segments(path).last()) != Some(page_extension())
}

/// The assets among `entries`, in the order of `entries`.
pub open spec fn assets_among(entries: Seq<Seq<char>>) -> Seq<Seq<char>>
    decreases entries.len(),
{
    if entries.len() == 0 {
        Seq::empty()
    } else if is_asset(entries.last()) {
        assets_among(entries.drop_last()).push(entries.last())
    } else {
        assets_among(entries.drop_last())
    }
}

/// The assets that belong to the page at `file_path`, given the files
/// `entries` of its directory: those of an index page, none of another.
pub open spec fn assets_of(file_path: Seq<char>, entries: Seq<Seq<char>>) -> Seq<Seq<char>> {
    if page_name(file_path) == index_marker() {
        assets_among(entries)
    } else {
        Seq::empty()
    }
}

/// Whether the file at `path` is an asset.
pub fn is_asset_path(path: &str) -> (r: bool)
    ensures
        r == is_asset(path@),
{
    let mut segs = split_path(path);
    match segs.pop() {
        None => false,
        Some(file) => match extension_of(file.as_str()) {
            None => true,
            Some(e) => {
                proof {
                    reveal_strlit("md");
                    assert("md"@ =~= page_extension());
                }
                !same_text(e.as_str(), "md")
            },
        },
    }
}

/// The assets among the files `entries`, in the order of `entries`.
pub fn related_assets(entries: &Vec<String>) -> (r: Vec<String>)
    ensures
        texts(r@) == assets_among(texts(entries@)),
{
    let ghost all = texts(entries@);
    let mut out: Vec<String> = Vec::new();
    let mut i: usize = 0;
    assert(texts(out@) =~= assets_among(all.take(0)));
    while i < entries.len()
        invariant
            all == texts(entries@),
            i <= entries.len(),
            texts(out@) == assets_among(all.take(i as int)),
        decreases entries.len() - i,
    {
        proof {
            assert(all.take(i + 1).drop_last() =~= all.take(i as int));
            assert(all.take(i + 1).last() == entries@[i as int]@);
        }
        if is_asset_path(entries[i].as_str()) {
            let ghost before = texts(out@);
            out.push(entries[i].clone());
            assert(texts(out@) =~= before.push(entries@[i as int]@));
        }
        i += 1;
    }
    assert(all.take(i as int) =~= all);
    out
}

} // verus!
