//! Planning the organization of media files.
//!
//! Given a discovered file, its media kind, its capture timestamp and its
//! content digest, this module synthesizes the relative destination path,
//! preserves user-created auxiliary subfolders across re-runs, walks the
//! source tree breadth first, and decides what a copy or move may do when
//! the destination already exists.

use std::collections::VecDeque;

use vstd::prelude::*;

use crate::paths::{
    ascii_lowercase, check_comp_prefix, is_comp_prefix, is_numeric, join_components, join_comps,
    name_extension, path_view, render_view, root_marker, spec_ascii_lowercase, spec_components,
    spec_is_absolute, spec_name_extension, spec_numeric, spec_path_view, split_path,
};
use crate::render::{dec_str_pad2, decimal_string_pad2};
use crate::timestamp::Timestamp;

verus! {

/// The kind of a supported media file.
#[derive(Debug, Clone, Copy, PartialEq, Eq, Structural)]
pub enum Typ {
    Img,
    Vid,
}

/// What to do with the organized files.
#[derive(Debug, Clone, Copy, PartialEq, Eq, Structural)]
pub enum Op {
    /// Dry run: only report the planned destination of each file.
    Show,
    /// Copy into the destination tree, preserving the source files.
    Copy,
    /// Move into the destination tree, removing the source files.
    Move,
}

/// The per-kind subdirectory under the destination root.
pub open spec fn spec_kind_dir(typ: Typ, img_dir: Seq<char>, vid_dir: Seq<char>) -> Seq<char> {
    match typ {
        Typ::Img => img_dir,
        Typ::Vid => vid_dir,
    }
}

/// The view of the parent of a path: the path without its final
/// component, or nothing when there is no final component to drop.
pub open spec fn spec_parent_view(path: Seq<char>) -> Option<Seq<Seq<char>>> {
    let pv = spec_path_view(path);
    if pv.len() == 0 || pv.last() == root_marker() {
        None
    } else {
        Some(pv.drop_last())
    }
}

/// The view of the root joined with the per-kind subdirectory: an absolute
/// subdirectory setting replaces the root.
pub open spec fn spec_base_view(root: Seq<char>, dir: Seq<char>) -> Seq<Seq<char>> {
    if spec_is_absolute(dir) {
        spec_path_view(dir)
    } else {
        spec_path_view(root) + spec_path_view(dir)
    }
}

/// The auxiliary subpath of a source file: when the parent of `path`,
/// relative to the per-kind subdirectory under `root`, decomposes into
/// three purely numeric components followed by a non-empty remainder, that
/// remainder is preserved under the date directories of the destination.
pub open spec fn spec_auxiliary_subpath(
    root: Seq<char>,
    path: Seq<char>,
    typ: Typ,
    img_dir: Seq<char>,
    vid_dir: Seq<char>,
) -> Option<Seq<Seq<char>>> {
    match spec_parent_view(path) {
        None => None,
        Some(parent) => {
            let base = spec_base_view(root, spec_kind_dir(typ, img_dir, vid_dir));
            if is_comp_prefix(base, parent) {
                let rel = parent.skip(base.len() as int);
                if rel.len() >= 4 && spec_numeric(rel[0]) && spec_numeric(rel[1]) && spec_numeric(
                    rel[2],
                ) {
                    Some(rel.skip(3))
                } else {
                    None
                }
            } else {
                None
            }
        },
    }
}

/// Whether every string in the vector is purely numeric.
pub fn are_nums(strs: &Vec<String>) -> (r: bool)
    ensures
        r == forall|i: int| 0 <= i < strs@.len() ==> spec_numeric(strs.deep_view()[i]),
{
    let mut i: usize = 0;
    while i < strs.len()
        invariant
            i <= strs@.len(),
            forall|j: int| 0 <= j < i ==> spec_numeric(strs.deep_view()[j]),
        decreases strs@.len() - i,
    {
        if !is_numeric(&strs[i]) {
            proof {
                assert(strs.deep_view()[i as int] == strs@[i as int]@);
            }
            return false;
        }
        proof {
            assert(strs.deep_view()[i as int] == strs@[i as int]@);
        }
        i += 1;
    }
    true
}

/// Whether a component is the root marker.
fn is_root_marker(s: &String) -> (r: bool)
    ensures
        r == (s@ == root_marker()),
{
    let r = s.as_str().unicode_len() == 1 && s.as_str().get_char(0) == '/';
    proof {
        if r {
            assert(s@ =~= root_marker());
        }
    }
    r
}

/// Whether a path string is absolute.
fn is_absolute_path(s: &str) -> (r: bool)
    ensures
        r == spec_is_absolute(s@),
{
    s.unicode_len() > 0 && s.get_char(0) == '/'
}

/// The auxiliary subpath of a source file, as components.
pub fn auxiliary_components(
    root: &str,
    path: &str,
    ty: Typ,
    img_dir: &str,
    vid_dir: &str,
) -> (r: Option<Vec<String>>)
    ensures
        match r {
            Some(v) => spec_auxiliary_subpath(root@, path@, ty, img_dir@, vid_dir@) == Some(
                v.deep_view(),
            ),
            None => spec_auxiliary_subpath(root@, path@, ty, img_dir@, vid_dir@) is None,
        },
{
    let mut parent = path_view(path);
    let last = match parent.pop() {
        None => {
            return None;
        },
        Some(last) => last,
    };
    if is_root_marker(&last) {
        return None;
    }
    proof {
        assert(parent.deep_view() =~~= spec_path_view(path@).drop_last());
        assert(spec_parent_view(path@) == Some(parent.deep_view()));
    }
    let dir = match ty {
        Typ::Img => img_dir,
        Typ::Vid => vid_dir,
    };
    let base: Vec<String> = if is_absolute_path(dir) {
        path_view(dir)
    } else {
        let mut b = path_view(root);
        let mut d = path_view(dir);
        b.append(&mut d);
        proof {
            assert(b.deep_view() =~~= spec_path_view(root@) + spec_path_view(dir@));
        }
        b
    };
    if !check_comp_prefix(&base, &parent) {
        return None;
    }
    if parent.len() - base.len() < 4 {
        return None;
    }
    let ghost rel = parent.deep_view().skip(base.deep_view().len() as int);
    proof {
        assert(rel[0] == parent.deep_view()[base@.len() as int]);
        assert(rel[1] == parent.deep_view()[base@.len() as int + 1]);
        assert(rel[2] == parent.deep_view()[base@.len() as int + 2]);
        assert(parent.deep_view()[base@.len() as int] == parent@[base@.len() as int]@);
        assert(parent.deep_view()[base@.len() as int + 1] == parent@[base@.len() as int + 1]@);
        assert(parent.deep_view()[base@.len() as int + 2] == parent@[base@.len() as int + 2]@);
    }
    if !is_numeric(&parent[base.len()]) || !is_numeric(&parent[base.len() + 1]) || !is_numeric(
        &parent[base.len() + 2],
    ) {
        return None;
    }
    let mut sub: Vec<String> = Vec::new();
    let mut i: usize = base.len() + 3;
    while i < parent.len()
        invariant
            base@.len() + 3 <= i <= parent@.len(),
            sub@ =~= parent@.subrange(base@.len() as int + 3, i as int),
        decreases parent@.len() - i,
    {
        sub.push(parent[i].clone());
        proof {
            assert(sub@ =~= parent@.subrange(base@.len() as int + 3, i + 1));
        }
        i += 1;
    }
    proof {
        assert(forall|k: int| 0 <= k < sub@.len() ==> sub.deep_view()[k] == sub@[k]@);
        assert(forall|k: int|
            0 <= k < parent@.len() ==> parent.deep_view()[k] == parent@[k]@);
        assert(sub.deep_view() =~~= rel.skip(3));
    }
    Some(sub)
}

/// The auxiliary subpath of a source file, joined back into a relative
/// path string.
pub fn auxiliary_subpath(
    root: &str,
    path: &str,
    ty: Typ,
    img_dir: &str,
    vid_dir: &str,
) -> (r: Option<String>)
    ensures
        r is Some <==> spec_auxiliary_subpath(root@, path@, ty, img_dir@, vid_dir@) is Some,
        r matches Some(s) ==> s@ == join_comps(
            spec_auxiliary_subpath(root@, path@, ty, img_dir@, vid_dir@)->Some_0,
        ),
{
    match auxiliary_components(root, path, ty, img_dir, vid_dir) {
        Some(comps) => Some(join_components(&comps)),
        None => None,
    }
}

/// The extension of the source path: the extension of its final component,
/// when there is one.
pub open spec fn spec_src_extension(src: Seq<char>) -> Option<Seq<char>> {
    let comps = spec_components(src);
    if comps.len() == 0 {
        None
    } else if comps.last() == seq!['.', '.'] {
        None
    } else {
        spec_name_extension(comps.last())
    }
}

/// The destination file name:
/// `YYYY-MM-DD--HH:MM:SS--<hash-name>:<digest>`, then the lowercased
/// source extension when the source has a non-empty one.
pub open spec fn spec_dst_name(
    src: Seq<char>,
    ts: Timestamp,
    hash_name: Seq<char>,
    digest: Seq<char>,
) -> Seq<char> {
    let stem = dec_str_pad2(ts.year as int) + seq!['-'] + dec_str_pad2(ts.month as int)
        + seq!['-'] + dec_str_pad2(ts.day as int) + seq!['-', '-'] + dec_str_pad2(ts.hour as int)
        + seq![':'] + dec_str_pad2(ts.minute as int) + seq![':'] + dec_str_pad2(ts.second as int)
        + seq!['-', '-'] + hash_name + seq![':'] + digest;
    match spec_src_extension(src) {
        Some(e) => if e.len() > 0 {
            stem + seq!['.'] + spec_ascii_lowercase(e)
        } else {
            stem
        },
        None => stem,
    }
}

/// The view of the destination path: the per-kind subdirectory, the date
/// directories, any auxiliary subpath, and the destination file name.
pub open spec fn spec_dst_view(
    root: Seq<char>,
    src: Seq<char>,
    typ: Typ,
    img_dir: Seq<char>,
    vid_dir: Seq<char>,
    ts: Timestamp,
    hash_name: Seq<char>,
    digest: Seq<char>,
) -> Seq<Seq<char>> {
    let aux = match spec_auxiliary_subpath(root, src, typ, img_dir, vid_dir) {
        Some(a) => a,
        None => Seq::empty(),
    };
    spec_path_view(spec_kind_dir(typ, img_dir, vid_dir)) + seq![
        dec_str_pad2(ts.year as int),
        dec_str_pad2(ts.month as int),
        dec_str_pad2(ts.day as int),
    ] + aux + seq![spec_dst_name(src, ts, hash_name, digest)]
}

/// The destination path string: the view rendered with `/` separators.
pub open spec fn spec_dst(
    root: Seq<char>,
    src: Seq<char>,
    typ: Typ,
    img_dir: Seq<char>,
    vid_dir: Seq<char>,
    ts: Timestamp,
    hash_name: Seq<char>,
    digest: Seq<char>,
) -> Seq<char> {
    render_view(spec_dst_view(root, src, typ, img_dir, vid_dir, ts, hash_name, digest))
}

/// The extension of the source path, as a string.
fn src_extension(src: &str) -> (r: Option<String>)
    ensures
        r is Some <==> spec_src_extension(src@) is Some,
        r matches Some(e) ==> spec_src_extension(src@) == Some(e@),
{
    let (_, comps) = split_path(src);
    if comps.len() == 0 {
        return None;
    }
    let name = &comps[comps.len() - 1];
    proof {
        assert(name@ == spec_components(src@).last());
    }
    if name.as_str().unicode_len() == 2 && name.as_str().get_char(0) == '.'
        && name.as_str().get_char(1) == '.' {
        proof {
            assert(name@ =~= seq!['.', '.']);
        }
        return None;
    }
    proof {
        if name@.len() == 2 && name@[0] == '.' && name@[1] == '.' {
            assert(name@ =~= seq!['.', '.']);
        }
        assert(name@ == seq!['.', '.'] ==> name@.len() == 2 && name@[0] == '.' && name@[1]
            == '.');
    }
    name_extension(name.as_str())
}

/// Appends the destination file name for the given timestamp, digest and
/// source extension to an empty string.
fn dst_name(src: &str, ts: &Timestamp, hash_name: &str, digest: &str) -> (r: String)
    ensures
        r@ == spec_dst_name(src@, *ts, hash_name@, digest@),
{
    proof {
        reveal_strlit("-");
        reveal_strlit("--");
        reveal_strlit(":");
        reveal_strlit(".");
        assert(("-")@ =~= seq!['-']);
        assert(("--")@ =~= seq!['-', '-']);
        assert((":")@ =~= seq![':']);
        assert((".")@ =~= seq!['.']);
    }
    let mut s = decimal_string_pad2(ts.year as u64);
    s.append("-");
    s.append(decimal_string_pad2(ts.month as u64).as_str());
    s.append("-");
    s.append(decimal_string_pad2(ts.day as u64).as_str());
    s.append("--");
    s.append(decimal_string_pad2(ts.hour as u64).as_str());
    s.append(":");
    s.append(decimal_string_pad2(ts.minute as u64).as_str());
    s.append(":");
    s.append(decimal_string_pad2(ts.second as u64).as_str());
    s.append("--");
    s.append(hash_name);
    s.append(":");
    s.append(digest);
    match src_extension(src) {
        Some(e) => {
            if e.as_str().unicode_len() > 0 {
                s.append(".");
                s.append(ascii_lowercase(e.as_str()).as_str());
            }
        },
        None => {},
    }
    s
}

/// Builds the relative destination path of a source file:
/// `<kind-dir>/<YYYY>/<MM>/<DD>/[<auxiliary subpath>/]<name>`, where the
/// name carries the timestamp, the digest and the lowercased extension.
pub fn dst(
    root: &str,
    src: &str,
    typ: Typ,
    img_dir: &str,
    vid_dir: &str,
    ts: &Timestamp,
    hash_name: &str,
    digest: &str,
) -> (r: String)
    ensures
        r@ == spec_dst(root@, src@, typ, img_dir@, vid_dir@, *ts, hash_name@, digest@),
{
    let dir = match typ {
        Typ::Img => img_dir,
        Typ::Vid => vid_dir,
    };
    let dir_absolute = is_absolute_path(dir);
    let (_, mut v) = split_path(dir);
    v.push(decimal_string_pad2(ts.year as u64));
    v.push(decimal_string_pad2(ts.month as u64));
    v.push(decimal_string_pad2(ts.day as u64));
    match auxiliary_components(root, src, typ, img_dir, vid_dir) {
        Some(mut aux) => v.append(&mut aux),
        None => {},
    }
    v.push(dst_name(src, ts, hash_name, digest));
    let joined = join_components(&v);
    let ghost view = spec_dst_view(root@, src@, typ, img_dir@, vid_dir@, *ts, hash_name@, digest@);
    if dir_absolute {
        proof {
            reveal_strlit("/");
            assert(("/")@ =~= root_marker());
            assert(view[0] == root_marker());
            assert(view.drop_first() =~~= v.deep_view());
        }
        let mut s = String::from_str("/");
        s.append(joined.as_str());
        proof {
            assert(s@ =~= spec_dst(root@, src@, typ, img_dir@, vid_dir@, *ts, hash_name@, digest@));
        }
        s
    } else {
        proof {
            assert(view =~~= v.deep_view());
            if view.len() > 0 && view[0] == root_marker() {
                crate::paths::lemma_components_not_marker(dir@);
                if spec_components(dir@).len() == 0 {
                    crate::render::lemma_dec_str_pad2_digits(ts.year as int);
                    assert(dec_str_pad2(ts.year as int)[0] != '/');
                    assert(view[0] != root_marker());
                } else {
                    assert(view[0] == spec_components(dir@)[0]);
                }
            }
            assert(joined@ =~= spec_dst(root@, src@, typ, img_dir@, vid_dir@, *ts, hash_name@, digest@));
        }
        joined
    }
}

/// A planned action: a source file and its relative destination.
#[derive(Debug)]
pub struct File {
    pub src: String,
    pub dst: String,
}

impl File {
    /// Plans one file: records the source and synthesizes the destination
    /// from kind, timestamp, digest and extension.
    pub fn new(
        root: &str,
        src: &str,
        typ: Typ,
        img_dir: &str,
        vid_dir: &str,
        ts: &Timestamp,
        hash: crate::hash::Hash,
        digest: &str,
    ) -> (f: File)
        ensures
            f.src@ == src@,
            f.dst@ == spec_dst(
                root@,
                src@,
                typ,
                img_dir@,
                vid_dir@,
                *ts,
                hash.spec_name(),
                digest@,
            ),
    {
        File {
            src: src.to_owned(),
            dst: dst(root, src, typ, img_dir, vid_dir, ts, hash.name(), digest),
        }
    }
}

/// What the conflict policy lets an operation do to one file.
#[derive(Debug, Clone, Copy, PartialEq, Eq, Structural)]
pub enum FileAction {
    /// Only report the planned destination; mutate nothing.
    ShowOnly,
    /// The destination exists and is the source itself: skip.
    SkipSame,
    /// The destination exists and overwriting was not forced: skip.
    SkipExists,
    /// Copy the source to the destination.
    CopyFile,
    /// Move the source to the destination.
    MoveFile,
}

/// The conflict policy: what an operation may do given whether the
/// destination exists and whether it is the source itself.
pub open spec fn spec_file_action(op: Op, dst_exists: bool, same: bool, force: bool) -> FileAction {
    match op {
        Op::Show => FileAction::ShowOnly,
        Op::Copy => if dst_exists && same {
            FileAction::SkipSame
        } else if dst_exists && !force {
            FileAction::SkipExists
        } else {
            FileAction::CopyFile
        },
        Op::Move => if dst_exists && same {
            FileAction::SkipSame
        } else if dst_exists && !force {
            FileAction::SkipExists
        } else {
            FileAction::MoveFile
        },
    }
}

/// Decides what to do with one file, before any mutation: an existing
/// destination equal to the source is always skipped; any other existing
/// destination is skipped unless overwriting was forced; otherwise the
/// requested operation proceeds.
pub fn organize_action(op: &Op, dst_exists: bool, same: bool, force: bool) -> (r: FileAction)
    ensures
        r == spec_file_action(*op, dst_exists, same, force),
{
    match op {
        Op::Show => FileAction::ShowOnly,
        Op::Copy => {
            if dst_exists && same {
                FileAction::SkipSame
            } else if dst_exists && !force {
                FileAction::SkipExists
            } else {
                FileAction::CopyFile
            }
        },
        Op::Move => {
            if dst_exists && same {
                FileAction::SkipSame
            } else if dst_exists && !force {
                FileAction::SkipExists
            } else {
                FileAction::MoveFile
            }
        },
    }
}

/// The classification that the content sniffer assigns to a byte prefix:
/// the result depends on the bytes alone.
pub uninterp spec fn infer_kind_code(bytes: Seq<u8>) -> u8;

/// Relies on `infer::get` and `infer::Type::matcher_type`: the sniffed
/// matcher type of a content prefix, a function of the bytes alone,
/// narrowed here to image, video or neither.
#[verifier::external_body]
fn sniff_kind_code(bytes: &Vec<u8>) -> (r: u8)
    ensures
        r == infer_kind_code(bytes@),
{
    match infer::get(bytes.as_slice()).map(|t| t.matcher_type()) {
        Some(infer::MatcherType::Image) => 1,
        Some(infer::MatcherType::Video) => 2,
        _ => 0,
    }
}

/// The media kind of a content prefix: image, video, or unsupported.
pub open spec fn spec_read_type(bytes: Seq<u8>) -> Option<Typ> {
    if infer_kind_code(bytes) == 1 {
        Some(Typ::Img)
    } else if infer_kind_code(bytes) == 2 {
        Some(Typ::Vid)
    } else {
        None
    }
}

/// Classifies a file by a prefix of its content: a best-effort sniff that
/// yields the media kind, or nothing for unsupported content.  The
/// classification reads the bytes alone, never the file name.
pub fn read_type(bytes: &Vec<u8>) -> (r: Option<Typ>)
    ensures
        r == spec_read_type(bytes@),
{
    let code = sniff_kind_code(bytes);
    if code == 1 {
        Some(Typ::Img)
    } else if code == 2 {
        Some(Typ::Vid)
    } else {
        None
    }
}

/// Applies the optional kind filter to a classification: unsupported
/// content never proceeds, and a filter lets only its own kind through.
pub open spec fn spec_filter_type(found: Option<Typ>, wanted: Option<Typ>) -> Option<Typ> {
    match found {
        None => None,
        Some(t) => match wanted {
            None => Some(t),
            Some(w) => if t == w {
                Some(t)
            } else {
                None
            },
        },
    }
}

/// Applies the optional kind filter to a classification.
pub fn filter_type(found: Option<Typ>, wanted: Option<Typ>) -> (r: Option<Typ>)
    ensures
        r == spec_filter_type(found, wanted),
{
    match found {
        None => None,
        Some(t) => match wanted {
            None => Some(t),
            Some(w) => if t == w {
                Some(t)
            } else {
                None
            },
        },
    }
}

/// What a caller found a queued path to be.
pub enum PathInfo {
    /// A regular file: it is yielded.
    RegularFile,
    /// A directory with the given entries: they join the frontier.
    Directory(Vec<String>),
    /// Neither a regular file nor a directory: it is skipped.
    OtherKind,
    /// The path could not be read: it is skipped.
    Unreadable,
}

/// A breadth-first traversal frontier over a directory tree.  The caller
/// reads each queued path from the file system and reports what it found;
/// the walker yields regular files and enqueues directory entries.
pub struct FilePaths {
    frontier: VecDeque<String>,
}

impl FilePaths {
    /// The queued paths, front first.
    pub closed spec fn queue(self) -> Seq<Seq<char>> {
        self.frontier.deep_view()
    }

    /// Starts a traversal at the given root path.
    pub fn find(root: &str) -> (s: Self)
        ensures
            s.queue() =~= seq![root@],
    {
        let mut frontier: VecDeque<String> = VecDeque::new();
        frontier.push_back(root.to_owned());
        FilePaths { frontier }
    }

    /// The path at the front of the frontier, next to be examined, or
    /// nothing when the traversal is finished.
    pub fn front(&self) -> (r: Option<&String>)
        ensures
            r is Some <==> self.queue().len() > 0,
            r matches Some(p) ==> p@ == self.queue()[0],
    {
        if self.frontier.len() > 0 {
            Some(&self.frontier[0])
        } else {
            None
        }
    }

    /// Consumes the front path given what the caller found it to be:
    /// a regular file is yielded, a directory adds its entries to the back
    /// of the frontier, and anything else is dropped.
    pub fn advance(&mut self, info: PathInfo) -> (r: Option<String>)
        requires
            old(self).queue().len() > 0,
        ensures
            match info {
                PathInfo::RegularFile => {
                    &&& final(self).queue() =~= old(self).queue().drop_first()
                    &&& r matches Some(p) && p@ == old(self).queue()[0]
                },
                PathInfo::Directory(entries) => {
                    &&& final(self).queue() =~= old(self).queue().drop_first()
                        + entries.deep_view()
                    &&& r is None
                },
                _ => {
                    &&& final(self).queue() =~= old(self).queue().drop_first()
                    &&& r is None
                },
            },
    {
        let path = match self.frontier.pop_front() {
            Some(p) => p,
            None => {
                return None;  // unreachable: the frontier is non-empty
            },
        };
        match info {
            PathInfo::RegularFile => Some(path),
            PathInfo::Directory(entries) => {
                let mut i: usize = 0;
                while i < entries.len()
                    invariant
                        i <= entries@.len(),
                        old(self).queue().len() > 0,
                        self.frontier.deep_view() =~= old(self).queue().drop_first()
                            + entries.deep_view().take(i as int),
                    decreases entries@.len() - i,
                {
                    let ghost pre = self.frontier.deep_view();
                    let e = entries[i].clone();
                    self.frontier.push_back(e);
                    proof {
                        assert(self.frontier.deep_view() =~= pre.push(entries@[i as int]@));
                        assert(entries.deep_view().take(i + 1) =~= entries.deep_view().take(
                            i as int,
                        ).push(entries.deep_view()[i as int]));
                        assert(entries.deep_view()[i as int] == entries@[i as int]@);
                        assert(self.frontier.deep_view() =~= old(self).queue().drop_first()
                            + entries.deep_view().take(i + 1));
                    }
                    i += 1;
                }
                proof {
                    assert(entries.deep_view().take(entries@.len() as int) =~= entries.deep_view());
                }
                None
            },
            PathInfo::OtherKind => None,
            PathInfo::Unreadable => None,
        }
    }
}


/// Determinism of the destination: the path is a pure function of kind,
/// timestamp, digest, extension and auxiliary subpath.  Two source files
/// that agree on extension and auxiliary subpath are planned to the same
/// destination, whatever their names or other attributes.
pub proof fn lemma_dst_determined(
    root1: Seq<char>,
    src1: Seq<char>,
    root2: Seq<char>,
    src2: Seq<char>,
    typ: Typ,
    img_dir: Seq<char>,
    vid_dir: Seq<char>,
    ts: Timestamp,
    hash_name: Seq<char>,
    digest: Seq<char>,
)
    requires
        spec_src_extension(src1) == spec_src_extension(src2),
        spec_auxiliary_subpath(root1, src1, typ, img_dir, vid_dir) == spec_auxiliary_subpath(
            root2,
            src2,
            typ,
            img_dir,
            vid_dir,
        ),
    ensures
        spec_dst(root1, src1, typ, img_dir, vid_dir, ts, hash_name, digest) == spec_dst(
            root2,
            src2,
            typ,
            img_dir,
            vid_dir,
            ts,
            hash_name,
            digest,
        ),
{
    assert(spec_dst_name(src1, ts, hash_name, digest) == spec_dst_name(
        src2,
        ts,
        hash_name,
        digest,
    ));
    assert(spec_dst_view(root1, src1, typ, img_dir, vid_dir, ts, hash_name, digest)
        == spec_dst_view(root2, src2, typ, img_dir, vid_dir, ts, hash_name, digest));
}

/// The planned relative destination of one file, from its content bytes
/// and resolved metadata: the digest is a function of the bytes alone.
pub open spec fn spec_planned_dst(
    root: Seq<char>,
    src: Seq<char>,
    typ: Typ,
    img_dir: Seq<char>,
    vid_dir: Seq<char>,
    ts: Timestamp,
    hash: crate::hash::Hash,
    content: Seq<u8>,
) -> Seq<char> {
    spec_dst(
        root,
        src,
        typ,
        img_dir,
        vid_dir,
        ts,
        hash.spec_name(),
        hash.spec_digest_hex(content),
    )
}

/// Idempotence of planning: two runs over the same source path, the same
/// content bytes and the same resolved metadata plan the identical
/// destination; nothing besides these inputs enters the computation.
pub proof fn lemma_plan_idempotent(
    root: Seq<char>,
    src: Seq<char>,
    typ: Typ,
    img_dir: Seq<char>,
    vid_dir: Seq<char>,
    ts1: Timestamp,
    ts2: Timestamp,
    hash: crate::hash::Hash,
    content1: Seq<u8>,
    content2: Seq<u8>,
)
    requires
        ts1 == ts2,
        content1 == content2,
    ensures
        spec_planned_dst(root, src, typ, img_dir, vid_dir, ts1, hash, content1)
            == spec_planned_dst(root, src, typ, img_dir, vid_dir, ts2, hash, content2),
{
}

/// A copy never plans a move: after a copy action the source is left in
/// place, whatever the conflict situation.
pub proof fn lemma_copy_never_moves(dst_exists: bool, same: bool, force: bool)
    ensures
        spec_file_action(Op::Copy, dst_exists, same, force) != FileAction::MoveFile,
{
}

/// A move mutates only once the conflict policy allows it: with an
/// existing destination it proceeds only under force, and never when the
/// destination is the source itself.
pub proof fn lemma_move_respects_conflicts(dst_exists: bool, same: bool, force: bool)
    ensures
        spec_file_action(Op::Move, dst_exists, same, force) == FileAction::MoveFile <==> (
        !dst_exists || (force && !same)),
{
}

/// Skip on conflict: when the destination exists and overwriting was not
/// forced, no operation plans a mutation, so a second run over a non-empty
/// destination leaves the first run's output untouched.
pub proof fn lemma_skip_on_conflict(op: Op, same: bool)
    ensures
        spec_file_action(op, true, same, false) != FileAction::CopyFile,
        spec_file_action(op, true, same, false) != FileAction::MoveFile,
{
}

/// Exclusion of unsupported content: a file whose content is not
/// classified as a supported kind never passes the type filter, whatever
/// the filter settings.
pub proof fn lemma_unsupported_excluded(wanted: Option<Typ>)
    ensures
        spec_filter_type(None, wanted) is None,
{
}

} // verus!
