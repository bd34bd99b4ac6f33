//! Where a content file lies: its path, its name and the sections above it.
//!
//! Paths are read as text with `/` between segments. Empty segments and `.`
//! segments are skipped, so `a//b`, `a/./b` and `a/b/` all name `a/b`.

use crate::text::{from_chars, join, joined, push_char, same_text, texts, to_chars};
use vstd::prelude::*;

verus! {

/// The name of the directory below which the content files lie.
pub open spec fn content_dir() -> Seq<char> {
    seq!['c', 'o', 'n', 't', 'e', 'n', 't']
}

/// The file stem that marks the main document of a directory.
pub open spec fn index_marker() -> Seq<char> {
    seq!['i', 'n', 'd', 'e', 'x']
}

/// The finished segments with `open` added, unless `open` is empty or `.`.
pub open spec fn closed(done: Seq<Seq<char>>, open: Seq<char>) -> Seq<Seq<char>> {
    if open.len() == 0 || open == seq!['.'] {
        done
    } else {
        done.push(open)
    }
}

/// Reading `s` from the left: the segments finished so far, and the
/// characters read since the last `/`.
pub open spec fn scanned(s: Seq<char>) -> (Seq<Seq<char>>, Seq<char>)
    decreases s.len(),
{
    if s.len() == 0 {
        (Seq::empty(), Seq::empty())
    } else {
        let before = scanned(s.drop_last());
        if s.last() == '/' {
            (closed(before.0, before.1), Seq::empty())
        } else {
            (before.0, before.1.push(s.last()))
        }
    }
}

/// The segments of `path`: its maximal runs without `/`, but for `.`.
pub open spec fn segments(path: Seq<char>) -> Seq<Seq<char>> {
    closed(scanned(path).0, scanned(path).1)
}

/// The index of the last `c` in `s`.
pub open spec fn last_index_of(s: Seq<char>, c: char) -> Option<int>
    decreases s.len(),
{
    if s.len() == 0 {
        None
    } else if s.last() == c {
        Some(s.len() - 1)
    } else {
        last_index_of(s.drop_last(), c)
    }
}

/// A file name without its extension: what stands before the last `.`,
/// or the whole name where it has no `.` behind its first character.
pub open spec fn file_stem(name: Seq<char>) -> Seq<char> {
    match last_index_of(name, '.') {
        Some(i) => if i > 0 {
            name.take(i)
        } else {
            name
        },
        None => name,
    }
}

/// The extension of a file name: what stands behind the last `.`, if the
/// name has a `.` behind its first character.
pub open spec fn extension(name: Seq<char>) -> Option<Seq<char>> {
    match last_index_of(name, '.') {
        Some(i) => if i > 0 {
            Some(name.skip(i + 1))
        } else {
            None
        },
        None => None,
    }
}

/// The directories that follow the first `content` directory.
pub open spec fn below_content(dirs: Seq<Seq<char>>) -> Seq<Seq<char>>
    decreases dirs.len(),
{
    if dirs.len() == 0 {
        Seq::empty()
    } else if dirs[0] == content_dir() {
        dirs.drop_first()
    } else {
        below_content(dirs.drop_first())
    }
}

/// The directories on the way to the file that `path` names.
pub open spec fn directories(path: Seq<char>) -> Seq<Seq<char>> {
    if segments(path).len() == 0 {
        Seq::empty()
    } else {
        segments(path).drop_last()
    }
}

/// The stem of the file that `path` names; empty where it names none.
pub open spec fn page_name(path: Seq<char>) -> Seq<char> {
    if segments(path).len() == 0 {
        Seq::empty()
    } else {
        file_stem(segments(path).last())
    }
}

/// The name of the directory that holds the file, if `path` names one.
pub open spec fn folder_name(path: Seq<char>) -> Option<Seq<char>> {
    if directories(path).len() == 0 {
        None
    } else {
        Some(directories(path).last())
    }
}

/// Whether the file is the index of a directory below the content
/// directory: its directory then stands for the page and is no section.
pub open spec fn is_folded(path: Seq<char>) -> bool {
    below_content(directories(path)).len() > 0 && page_name(path) == index_marker()
}

/// The sections of the page: the directories between the content directory
/// and the file, without the page's own directory where it is an index.
pub open spec fn page_components(path: Seq<char>) -> Seq<Seq<char>> {
    if is_folded(path) {
        below_content(directories(path)).drop_last()
    } else {
        below_content(directories(path))
    }
}

/// The directory of the page, as a path: that of the file, or the one above
/// it where the file is an index below the content directory.
pub open spec fn page_parent(path: Seq<char>) -> Seq<char> {
    let dirs = if is_folded(path) {
        directories(path).drop_last()
    } else {
        directories(path)
    };
    if path.len() > 0 && path[0] == '/' {
        seq!['/'] + joined(dirs, '/')
    } else {
        joined(dirs, '/')
    }
}

/// Whether `s` can be a segment of a path: it is not empty and holds no `/`.
pub open spec fn is_segment(s: Seq<char>) -> bool {
    s.len() > 0 && forall|i: int| 0 <= i < s.len() ==> s[i] != '/'
}

/// Whether every one of `parts` can be a segment of a path.
pub open spec fn all_segments(parts: Seq<Seq<char>>) -> bool {
    forall|k: int| 0 <= k < parts.len() ==> is_segment(#[trigger] parts[k])
}

proof fn lemma_scanned_segments(s: Seq<char>)
    ensures
        all_segments(scanned(s).0),
        forall|i: int| 0 <= i < scanned(s).1.len() ==> scanned(s).1[i] != '/',
    decreases s.len(),
{
    if s.len() > 0 {
        lemma_scanned_segments(s.drop_last());
    }
}

/// Every segment of a path is one: not empty, and without `/`.
pub proof fn lemma_segments_are_segments(path: Seq<char>)
    ensures
        all_segments(segments(path)),
{
    lemma_scanned_segments(path);
}

proof fn lemma_below_content_segments(dirs: Seq<Seq<char>>)
    requires
        all_segments(dirs),
    ensures
        all_segments(below_content(dirs)),
    decreases dirs.len(),
{
    if dirs.len() > 0 {
        let rest = dirs.drop_first();
        assert forall|k: int| 0 <= k < rest.len() implies is_segment(#[trigger] rest[k]) by {
            assert(rest[k] == dirs[k + 1]);
        }
        lemma_below_content_segments(rest);
    }
}

/// Every section of a page is a segment: not empty, and without `/`.
pub proof fn lemma_components_are_segments(path: Seq<char>)
    ensures
        all_segments(page_components(path)),
{
    lemma_segments_are_segments(path);
    let segs = segments(path);
    let dirs = directories(path);
    assert forall|k: int| 0 <= k < dirs.len() implies is_segment(#[trigger] dirs[k]) by {
        assert(dirs[k] == segs[k]);
    }
    lemma_below_content_segments(dirs);
    let below = below_content(dirs);
    if is_folded(path) {
        let comps = below.drop_last();
        assert forall|k: int| 0 <= k < comps.len() implies is_segment(#[trigger] comps[k]) by {
            assert(comps[k] == below[k]);
        }
    }
}

/// All the information about the file a page comes from.
#[derive(Debug, PartialEq)]
pub struct FileInfo {
    /// The path of the file, as it was given.
    pub path: String,
    /// The directory of the page.
    pub parent: String,
    /// The name of the file without its extension.
    pub name: String,
    /// The sections on the way to the page, from the content directory on.
    pub components: Vec<String>,
}

/// The segments of `path`, in order.
pub fn split_path(path: &str) -> (r: Vec<String>)
    ensures
        texts(r@) == segments(path@),
{
    let v = to_chars(path);
    let mut done: Vec<String> = Vec::new();
    let mut start: usize = 0;
    let mut i: usize = 0;
    assert(v@.take(0) =~= Seq::<char>::empty());
    assert(texts(done@) =~= Seq::<Seq<char>>::empty());
    assert(v@.subrange(0, 0) =~= Seq::<char>::empty());
    while i < v.len()
        invariant
            v@ == path@,
            start <= i <= v.len(),
            scanned(v@.take(i as int)) == (texts(done@), v@.subrange(start as int, i as int)),
        decreases v.len() - i,
    {
        proof {
            assert(v@.take(i + 1).drop_last() =~= v@.take(i as int));
            assert(v@.take(i + 1).last() == v@[i as int]);
        }
        if v[i] == '/' {
            close_segment(&v, &mut done, start, i);
            start = i + 1;
            assert(v@.subrange(start as int, start as int) =~= Seq::<char>::empty());
        } else {
            assert(v@.subrange(start as int, i + 1) =~= v@.subrange(start as int, i as int).push(
                v@[i as int],
            ));
        }
        i += 1;
    }
    assert(v@.take(i as int) =~= v@);
    close_segment(&v, &mut done, start, i);
    done
}

/// Adds `v[start..end]` to `done`, unless it is empty or `.`.
fn close_segment(v: &Vec<char>, done: &mut Vec<String>, start: usize, end: usize)
    requires
        start <= end <= v.len(),
    ensures
        texts(final(done)@) == closed(
            texts(old(done)@),
            v@.subrange(start as int, end as int),
        ),
{
    let ghost open = v@.subrange(start as int, end as int);
    if end == start {
        return ;
    }
    if end - start == 1 && v[start] == '.' {
        assert(open =~= seq!['.']);
        return ;
    }
    assert(open != seq!['.']) by {
        if open.len() == 1 {
            assert(open[0] == v@[start as int]);
            assert(seq!['.'][0] == '.');
        }
    }
    let s = from_chars(v, start, end);
    done.push(s);
    assert(texts(done@) =~= texts(old(done)@).push(open));
}

/// The index of the last `c` in `v`.
pub fn rfind_char(v: &Vec<char>, c: char) -> (r: Option<usize>)
    ensures
        match r {
            Some(i) => last_index_of(v@, c) == Some(i as int) && i < v.len(),
            None => last_index_of(v@, c) is None,
        },
{
    let mut i: usize = v.len();
    assert(v@.take(i as int) =~= v@);
    while i > 0
        invariant
            i <= v.len(),
            last_index_of(v@, c) == last_index_of(v@.take(i as int), c),
        decreases i,
    {
        assert(v@.take(i as int).drop_last() =~= v@.take(i - 1));
        if v[i - 1] == c {
            return Some(i - 1);
        }
        i -= 1;
    }
    None
}

/// The file name `name` without its extension.
pub fn stem_of(name: &str) -> (r: String)
    ensures
        r@ == file_stem(name@),
{
    let v = to_chars(name);
    match rfind_char(&v, '.') {
        Some(i) => {
            if i > 0 {
                from_chars(&v, 0, i)
            } else {
                name.to_owned()
            }
        },
        None => name.to_owned(),
    }
}

/// The extension of the file name `name`, if it has one.
pub fn extension_of(name: &str) -> (r: Option<String>)
    ensures
        match r {
            Some(e) => extension(name@) == Some(e@),
            None => extension(name@) is None,
        },
{
    let v = to_chars(name);
    match rfind_char(&v, '.') {
        Some(i) => {
            if i > 0 {
                Some(from_chars(&v, i + 1, v.len()))
            } else {
                None
            }
        },
        None => None,
    }
}

/// The directories of `dirs` that follow the first `content` directory.
pub fn sections_below_content(dirs: &Vec<String>) -> (r: Vec<String>)
    ensures
        texts(r@) == below_content(texts(dirs@)),
{
    let ghost all = texts(dirs@);
    let mut out: Vec<String> = Vec::new();
    let mut found = false;
    let ghost mut first: int = 0;
    let mut i: usize = 0;
    assert(all.skip(0) =~= all);
    while i < dirs.len()
        invariant
            all == texts(dirs@),
            i <= dirs.len(),
            !found ==> out@.len() == 0 && below_content(all) == below_content(all.skip(i as int)),
            found ==> 0 <= first <= i && below_content(all) == all.skip(first) && texts(out@)
                == all.subrange(first, i as int),
        decreases dirs.len() - i,
    {
        proof {
            assert(all.skip(i as int).drop_first() =~= all.skip(i + 1));
            assert(all.skip(i as int)[0] == dirs@[i as int]@);
            reveal_strlit("content");
            assert("content"@ =~= content_dir());
        }
        if found {
            let ghost before = texts(out@);
            out.push(dirs[i].clone());
            assert(texts(out@) =~= before.push(dirs@[i as int]@));
            assert(all.subrange(first, i + 1) =~= all.subrange(first, i as int).push(
                all[i as int],
            ));
        } else if same_text(dirs[i].as_str(), "content") {
            proof {
                first = i + 1;
                assert(texts(out@) =~= all.subrange(first, i + 1));
            }
            found = true;
        }
        i += 1;
    }
    proof {
        if found {
            assert(all.subrange(first, i as int) =~= all.skip(first));
        } else {
            assert(texts(out@) =~= below_content(all.skip(i as int)));
        }
    }
    out
}

impl FileInfo {
    /// Reads the location of a page off the path of its file.
    pub fn new_page(path: &str) -> (r: FileInfo)
        ensures
            r.locates(path@),
    {
        let mut dirs = split_path(path);
        let name = match dirs.pop() {
            Some(file) => stem_of(file.as_str()),
            None => String::new(),
        };
        assert(texts(dirs@) =~= directories(path@));
        let mut components = sections_below_content(&dirs);
        let indexed = same_text(name.as_str(), "index");
        proof {
            reveal_strlit("index");
            assert("index"@ =~= index_marker());
        }
        if components.len() > 0 && indexed {
            let ghost c = texts(components@);
            let ghost d = texts(dirs@);
            components.pop();
            dirs.pop();
            assert(texts(components@) =~= c.drop_last());
            assert(texts(dirs@) =~= d.drop_last());
        }
        let v = to_chars(path);
        let mut parent = String::new();
        if v.len() > 0 && v[0] == '/' {
            push_char(&mut parent, '/');
        }
        parent.append(join(&dirs, '/').as_str());
        assert(parent@ =~= page_parent(path@));
        FileInfo { path: path.to_owned(), parent, name, components }
    }
}

impl FileInfo {
    /// Whether `other` holds what this location holds.
    pub open spec fn mirrors(self, other: FileInfo) -> bool {
        &&& other.path == self.path
        &&& other.parent == self.parent
        &&& other.name == self.name
        &&& other.components@ == self.components@
    }

    /// Whether the fields are those of the page at `path`.
    pub open spec fn locates(self, path: Seq<char>) -> bool {
        &&& self.path@ == path
        &&& self.name@ == page_name(path)
        &&& texts(self.components@) == page_components(path)
        &&& self.parent@ == page_parent(path)
    }

    /// Whether the file is the index of its directory.
    pub fn is_index(&self) -> (r: bool)
        ensures
            r == (self.name@ == index_marker()),
    {
        proof {
            reveal_strlit("index");
            assert("index"@ =~= index_marker());
        }
        same_text(self.name.as_str(), "index")
    }

    /// The name of the directory that holds the file, if the path names one.
    pub fn folder(&self) -> (r: Option<String>)
        ensures
            match r {
                Some(f) => folder_name(self.path@) == Some(f@),
                None => folder_name(self.path@) is None,
            },
    {
        let mut segs = split_path(self.path.as_str());
        if segs.len() < 2 {
            return None;
        }
        segs.pop();
        let ghost dirs = texts(segs@);
        assert(dirs =~= directories(self.path@));
        let r = segs.pop();
        assert(r.unwrap()@ == dirs.last());
        r
    }
}

impl Default for FileInfo {
    /// The location of no file.
    fn default() -> (r: FileInfo)
        ensures
            r.path@.len() == 0,
            r.parent@.len() == 0,
            r.name@.len() == 0,
            r.components@.len() == 0,
    {
        FileInfo {
            path: String::new(),
            parent: String::new(),
            name: String::new(),
            components: Vec::new(),
        }
    }
}

impl Clone for FileInfo {
    fn clone(&self) -> (r: FileInfo)
        ensures
            self.mirrors(r),
    {
        let components = self.components.clone();
        assert(components@ =~= self.components@);
        FileInfo {
            path: self.path.clone(),
            parent: self.parent.clone(),
            name: self.name.clone(),
            components,
        }
    }
}

} // verus!
