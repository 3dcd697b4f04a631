//! A build output as a set of files, held in ascending order of their paths,
//! and the fingerprint of its content.

use crate::digest::{fingerprint_of, RunningDigest};
use crate::error::PackError;
use crate::order::{bytes_less, lemma_lex_irreflexive, lemma_lex_total, lemma_lex_transitive, lex_less};
use vstd::prelude::*;
use vstd::utf8::{encode_utf8, encode_utf8_decode_utf8};

verus! {

/// What an entry of a directory is.
#[derive(Debug, Clone, Copy, PartialEq, Eq, Structural)]
pub enum EntryKind {
    /// A regular file. Only these have content that is hashed.
    File,
    /// A directory.
    Directory,
    /// A symbolic link.
    Symlink,
}

/// One entry of a build output as found on disk: its path below the
/// output, what it is, and, for a regular file, its bytes.
pub struct FileEntry {
    pub path: String,
    pub kind: EntryKind,
    pub content: Vec<u8>,
}

/// What a [`FileEntry`] stands for.
pub struct FileView {
    pub path: Seq<char>,
    pub kind: EntryKind,
    pub content: Seq<u8>,
}

impl View for FileEntry {
    type V = FileView;

    open spec fn view(&self) -> FileView {
        FileView { path: self.path@, kind: self.kind, content: self.content@ }
    }
}

/// The files that a vector of entries stands for, in its order.
pub open spec fn files_of(entries: Seq<FileEntry>) -> Seq<FileView> {
    entries.map_values(|e: FileEntry| e@)
}

/// The key by which files are ordered: the UTF-8 bytes of the path.
pub open spec fn path_key(f: FileView) -> Seq<u8> {
    encode_utf8(f.path)
}

/// Whether the files stand in strictly ascending order of their paths.
pub open spec fn ascending(files: Seq<FileView>) -> bool {
    forall|i: int, j: int|
        0 <= i < j < files.len() ==> lex_less(path_key(#[trigger] files[i]), path_key(#[trigger] files[j]))
}

/// Whether no path occurs at two places.
pub open spec fn distinct_paths(files: Seq<FileView>) -> bool {
    forall|i: int, j: int|
        0 <= i < j < files.len() ==> (#[trigger] files[i]).path != (#[trigger] files[j]).path
}

/// Whether the two listings hold the same files, in whatever order.
pub open spec fn same_files(a: Seq<FileView>, b: Seq<FileView>) -> bool {
    forall|f: FileView| a.contains(f) <==> b.contains(f)
}

/// The given files in ascending order of their paths.
pub open spec fn files_in_order(files: Set<FileView>) -> Seq<FileView> {
    choose|sorted: Seq<FileView>| ascending(sorted) && sorted.to_set() == files
}

/// The files of `listing` in ascending order of their paths. It depends on
/// which files the listing holds and not on where each one stands.
pub open spec fn in_path_order(listing: Seq<FileView>) -> Seq<FileView> {
    files_in_order(listing.to_set())
}

/// The bytes of all the regular files, one after the other in the order
/// given. Directories and links add nothing.
pub open spec fn concat_contents(files: Seq<FileView>) -> Seq<u8>
    decreases files.len(),
{
    if files.len() == 0 {
        Seq::empty()
    } else if files.last().kind == EntryKind::File {
        concat_contents(files.drop_last()) + files.last().content
    } else {
        concat_contents(files.drop_last())
    }
}

/// The content fingerprint of a listing: the fingerprint of the bytes of its
/// regular files, taken in ascending order of their paths.
pub open spec fn content_fingerprint_of(listing: Seq<FileView>) -> Seq<char> {
    fingerprint_of(concat_contents(in_path_order(listing)))
}

/// Files with the same key have the same path.
pub proof fn lemma_key_decides_path(a: FileView, b: FileView)
    requires
        path_key(a) == path_key(b),
    ensures
        a.path == b.path,
{
    encode_utf8_decode_utf8(a.path);
    encode_utf8_decode_utf8(b.path);
}

/// Two ascending listings of the same files are the same listing.
pub proof fn lemma_ascending_unique(a: Seq<FileView>, b: Seq<FileView>)
    requires
        ascending(a),
        ascending(b),
        same_files(a, b),
    ensures
        a == b,
    decreases a.len(),
{
    if a.len() == 0 {
        if b.len() > 0 {
            assert(b.contains(b[0]));
            assert(a.contains(b[0]));
        }
        assert(a =~= b);
    } else {
        assert(a.contains(a[0]));
        assert(b.contains(a[0]));
        let j = choose|j: int| 0 <= j < b.len() && b[j] == a[0];
        assert(b.contains(b[0]));
        assert(a.contains(b[0]));
        let i = choose|i: int| 0 <= i < a.len() && a[i] == b[0];
        lemma_lex_irreflexive(path_key(a[0]));
        if i > 0 {
            if j > 0 {
                lemma_lex_transitive(path_key(a[0]), path_key(b[0]), path_key(a[0]));
            }
        }
        assert(a[0] == b[0]);
        let ta = a.drop_first();
        let tb = b.drop_first();
        assert forall|f: FileView| ta.contains(f) <==> tb.contains(f) by {
            lemma_tail_contains(a, f);
            lemma_tail_contains(b, f);
        }
        assert(ascending(ta)) by {
            assert forall|x: int, y: int| 0 <= x < y < ta.len() implies lex_less(
                path_key(#[trigger] ta[x]),
                path_key(#[trigger] ta[y]),
            ) by {
                assert(ta[x] == a[x + 1] && ta[y] == a[y + 1]);
            }
        }
        assert(ascending(tb)) by {
            assert forall|x: int, y: int| 0 <= x < y < tb.len() implies lex_less(
                path_key(#[trigger] tb[x]),
                path_key(#[trigger] tb[y]),
            ) by {
                assert(tb[x] == b[x + 1] && tb[y] == b[y + 1]);
            }
        }
        lemma_ascending_unique(ta, tb);
        assert(a =~= seq![a[0]] + ta);
        assert(b =~= seq![b[0]] + tb);
    }
}

/// In an ascending listing, the files behind the first are those of the
/// listing that differ from the first.
proof fn lemma_tail_contains(a: Seq<FileView>, f: FileView)
    requires
        ascending(a),
        a.len() > 0,
    ensures
        a.drop_first().contains(f) <==> (a.contains(f) && f != a[0]),
{
    let t = a.drop_first();
    if t.contains(f) {
        let k = choose|k: int| 0 <= k < t.len() && t[k] == f;
        assert(a[k + 1] == f);
        assert(lex_less(path_key(a[0]), path_key(a[k + 1])));
        lemma_lex_irreflexive(path_key(a[0]));
    }
    if a.contains(f) && f != a[0] {
        let k = choose|k: int| 0 <= k < a.len() && a[k] == f;
        assert(t[k - 1] == f);
    }
}

/// An ascending listing of the files of `listing` is its path order.
pub proof fn lemma_path_order_is(sorted: Seq<FileView>, listing: Seq<FileView>)
    requires
        ascending(sorted),
        same_files(sorted, listing),
    ensures
        sorted == in_path_order(listing),
{
    assert(sorted.to_set() =~= listing.to_set());
    let chosen = in_path_order(listing);
    assert(ascending(chosen) && chosen.to_set() == listing.to_set());
    assert forall|f: FileView| sorted.contains(f) <==> chosen.contains(f) by {
        assert(sorted.to_set().contains(f) == chosen.to_set().contains(f));
    }
    lemma_ascending_unique(sorted, chosen);
}

/// The order of a listing does not matter to [`in_path_order`], nor to the
/// content fingerprint: two listings of the same files give the same result.
pub proof fn lemma_listing_order_irrelevant(a: Seq<FileView>, b: Seq<FileView>)
    requires
        same_files(a, b),
    ensures
        in_path_order(a) == in_path_order(b),
        content_fingerprint_of(a) == content_fingerprint_of(b),
{
    assert(a.to_set() =~= b.to_set());
}

/// Putting `f` into an ascending listing at the place where it belongs
/// keeps the listing ascending, and `f` shares its path with no file of it.
proof fn lemma_insert_in_order(files: Seq<FileView>, pos: int, f: FileView)
    requires
        ascending(files),
        0 <= pos <= files.len(),
        forall|k: int| 0 <= k < pos ==> lex_less(path_key(#[trigger] files[k]), path_key(f)),
        pos < files.len() ==> lex_less(path_key(f), path_key(files[pos])),
    ensures
        ascending(files.insert(pos, f)),
        forall|k: int| 0 <= k < files.len() ==> (#[trigger] files[k]).path != f.path,
        forall|g: FileView|
            #[trigger] files.insert(pos, f).contains(g) <==> (g == f || files.contains(g)),
{
    let out = files.insert(pos, f);
    lemma_lex_irreflexive(path_key(f));
    assert forall|k: int| pos <= k < files.len() implies lex_less(
        path_key(f),
        path_key(#[trigger] files[k]),
    ) by {
        if k > pos {
            lemma_lex_transitive(path_key(f), path_key(files[pos]), path_key(files[k]));
        }
    }
    assert forall|i: int, j: int| 0 <= i < j < out.len() implies lex_less(
        path_key(#[trigger] out[i]),
        path_key(#[trigger] out[j]),
    ) by {
        let a = if i < pos { i } else { i - 1 };
        let b = if j < pos { j } else { j - 1 };
        if i != pos && j != pos {
            assert(out[i] == files[a] && out[j] == files[b]);
        } else if i == pos {
            assert(out[j] == files[b]);
        } else {
            assert(out[i] == files[a]);
        }
    }
    assert forall|g: FileView| out.contains(g) <==> (g == f || files.contains(g)) by {
        if out.contains(g) {
            let k = choose|k: int| 0 <= k < out.len() && out[k] == g;
            if k < pos {
                assert(files[k] == g);
            } else if k > pos {
                assert(files[k - 1] == g);
            }
        }
        if g == f {
            assert(out[pos] == g);
        }
        if files.contains(g) {
            let k = choose|k: int| 0 <= k < files.len() && files[k] == g;
            if k < pos {
                assert(out[k] == g);
            } else {
                assert(out[k + 1] == g);
            }
        }
    }
}

/// The files of a build output, in ascending order of their paths.
pub struct FileTree {
    entries: Vec<FileEntry>,
}

impl View for FileTree {
    type V = Seq<FileView>;

    closed spec fn view(&self) -> Seq<FileView> {
        files_of(self.entries@)
    }
}

impl FileTree {
    /// Whether the tree is in order, as every tree built by
    /// [`FileTree::from_listing`] is.
    pub closed spec fn wf(&self) -> bool {
        ascending(files_of(self.entries@))
    }

    /// What [`FileTree::wf`] means for the files of the tree.
    pub proof fn lemma_wf(&self)
        ensures
            self.wf() == ascending(self@),
    {
    }

    /// Puts a listing into path order. A listing in which two entries share
    /// a path is no tree, and gives `None`.
    pub fn from_listing(listing: Vec<FileEntry>) -> (tree: Option<FileTree>)
        ensures
            tree is Some <==> distinct_paths(files_of(listing@)),
            tree is Some ==> tree->0.wf() && tree->0@ == in_path_order(files_of(listing@)),
            tree is Some ==> same_files(tree->0@, files_of(listing@)),
    {
        let ghost all = files_of(listing@);
        let mut rest = listing;
        let mut sorted: Vec<FileEntry> = Vec::new();
        assert(all.skip(all.len() as int) =~= Seq::<FileView>::empty());
        while rest.len() > 0
            invariant
                all == files_of(listing@),
                rest.len() <= all.len(),
                files_of(rest@) == all.take(rest.len() as int),
                ascending(files_of(sorted@)),
                distinct_paths(all.skip(rest.len() as int)),
                forall|f: FileView|
                    files_of(sorted@).contains(f) <==> all.skip(rest.len() as int).contains(f),
            decreases rest.len(),
        {
            let ghost n = rest.len() as int;
            let ghost before = files_of(sorted@);
            let e = rest.pop().unwrap();
            assert(e@ == all[n - 1]) by {
                assert(all.take(n)[n - 1] == all[n - 1]);
            }
            assert(files_of(rest@) =~= all.take(n - 1));
            let mut pos: usize = 0;
            while pos < sorted.len() && bytes_less(
                sorted[pos].path.as_str().as_bytes(),
                e.path.as_str().as_bytes(),
            )
                invariant
                    pos <= sorted.len(),
                    before == files_of(sorted@),
                    forall|k: int|
                        0 <= k < pos ==> lex_less(path_key(#[trigger] before[k]), path_key(e@)),
                decreases sorted.len() - pos,
            {
                pos = pos + 1;
            }
            if pos < sorted.len() && !bytes_less(
                e.path.as_str().as_bytes(),
                sorted[pos].path.as_str().as_bytes(),
            ) {
                proof {
                    lemma_lex_total(path_key(e@), path_key(before[pos as int]));
                    lemma_key_decides_path(e@, before[pos as int]);
                    assert(before.contains(before[pos as int]));
                    let tail = all.skip(n);
                    assert(tail.contains(before[pos as int]));
                    let j = choose|j: int| 0 <= j < tail.len() && tail[j] == before[pos as int];
                    assert(tail[j] == all[n + j]);
                    assert(all[n - 1].path == all[n + j].path);
                    assert(!distinct_paths(all));
                }
                return None;
            }
            proof {
                lemma_insert_in_order(before, pos as int, e@);
            }
            sorted.insert(pos, e);
            proof {
                let after = files_of(sorted@);
                assert(after =~= before.insert(pos as int, e@));
                let tail = all.skip(n);
                let longer = all.skip(n - 1);
                assert(longer =~= seq![all[n - 1]] + tail);
                assert forall|f: FileView| after.contains(f) <==> longer.contains(f) by {
                    assert(before.insert(pos as int, e@).contains(f) <==> (f == e@
                        || before.contains(f)));
                    assert(before.contains(f) <==> tail.contains(f));
                    if longer.contains(f) {
                        let k = choose|k: int| 0 <= k < longer.len() && longer[k] == f;
                        if k > 0 {
                            assert(tail[k - 1] == f);
                        }
                    }
                    if tail.contains(f) {
                        let k = choose|k: int| 0 <= k < tail.len() && tail[k] == f;
                        assert(longer[k + 1] == f);
                    }
                    if f == e@ {
                        assert(longer[0] == f);
                    }
                }
                assert forall|i: int, j: int| 0 <= i < j < longer.len() implies (
                #[trigger] longer[i]).path != (#[trigger] longer[j]).path by {
                    if i == 0 {
                        assert(tail[j - 1] == longer[j]);
                        assert(tail.contains(longer[j]));
                        assert(before.contains(longer[j]));
                    } else {
                        assert(tail[i - 1] == longer[i] && tail[j - 1] == longer[j]);
                    }
                }
            }
        }
        proof {
            assert(all.skip(0) =~= all);
            lemma_path_order_is(files_of(sorted@), all);
        }
        Some(FileTree { entries: sorted })
    }

    /// How many files the tree holds.
    pub fn len(&self) -> (n: usize)
        ensures
            n == self@.len(),
    {
        self.entries.len()
    }

    /// What the entry at place `i` in path order is; `None` past the end.
    pub fn kind_at(&self, i: usize) -> (kind: Option<EntryKind>)
        ensures
            kind is Some <==> i < self@.len(),
            kind is Some ==> kind->0 == self@[i as int].kind,
    {
        if i < self.entries.len() {
            Some(self.entries[i].kind)
        } else {
            None
        }
    }

    /// The path of the entry at place `i` in path order; `None` past the end.
    pub fn path_at(&self, i: usize) -> (path: Option<String>)
        ensures
            path is Some <==> i < self@.len(),
            path is Some ==> path->0@ == self@[i as int].path,
    {
        if i < self.entries.len() {
            Some(self.entries[i].path.clone())
        } else {
            None
        }
    }

    /// The content fingerprint of the tree: the fingerprint of the bytes of
    /// its files, one file after the other in path order.
    pub fn content_fingerprint(&self) -> (out: String)
        ensures
            out@ == fingerprint_of(concat_contents(self@)),
            out@.len() == 16,
    {
        let mut digest = RunningDigest::new();
        let mut i: usize = 0;
        assert(files_of(self.entries@).take(0) =~= Seq::<FileView>::empty());
        while i < self.entries.len()
            invariant
                i <= self.entries.len(),
                digest@ == concat_contents(files_of(self.entries@).take(i as int)),
            decreases self.entries.len() - i,
        {
            if self.entries[i].kind == EntryKind::File {
                digest.update(self.entries[i].content.as_slice());
            } else {
                assert(digest@ + Seq::<u8>::empty() =~= digest@);
            }
            proof {
                let files = files_of(self.entries@);
                assert(files.take(i as int + 1).drop_last() =~= files.take(i as int));
            }
            i = i + 1;
        }
        assert(files_of(self.entries@).take(i as int) =~= files_of(self.entries@));
        digest.finish_fingerprint()
    }
}

/// The content fingerprint of a single file: the fingerprint of its bytes.
pub fn file_fingerprint(content: &[u8]) -> (out: String)
    ensures
        out@ == fingerprint_of(content@),
        out@.len() == 16,
{
    crate::digest::fingerprint(content)
}

/// The content fingerprint of a listing; `None` where two entries share a
/// path.
pub fn content_fingerprint(listing: Vec<FileEntry>) -> (out: Option<String>)
    ensures
        out is Some <==> distinct_paths(files_of(listing@)),
        out is Some ==> out->0@ == content_fingerprint_of(files_of(listing@)),
{
    match FileTree::from_listing(listing) {
        Some(tree) => Some(tree.content_fingerprint()),
        None => None,
    }
}

/// What came of reading one entry: its bytes, or nothing where it could
/// not be read. An entry that is no regular file has no bytes to read and
/// comes with an empty content.
pub struct FileRead {
    pub path: String,
    pub kind: EntryKind,
    pub content: Option<Vec<u8>>,
}

/// The place of the first file that could not be read; the length of
/// `reads` where all were.
pub open spec fn first_unread(reads: Seq<FileRead>) -> int
    decreases reads.len(),
{
    if reads.len() == 0 {
        0
    } else if reads[0].content is None {
        0
    } else {
        1 + first_unread(reads.drop_first())
    }
}

/// What [`first_unread`] finds: every file before it was read, and it is
/// either the end or a file that was not.
pub proof fn lemma_first_unread(reads: Seq<FileRead>)
    ensures
        0 <= first_unread(reads) <= reads.len(),
        forall|i: int| 0 <= i < first_unread(reads) ==> (#[trigger] reads[i]).content is Some,
        first_unread(reads) < reads.len() ==> reads[first_unread(reads)].content is None,
    decreases reads.len(),
{
    if reads.len() > 0 && reads[0].content is Some {
        let rest = reads.drop_first();
        lemma_first_unread(rest);
        assert forall|i: int| 0 <= i < first_unread(reads) implies (
        #[trigger] reads[i]).content is Some by {
            if i > 0 {
                assert(reads[i] == rest[i - 1]);
            }
        }
        assert(first_unread(reads) < reads.len() ==> reads[first_unread(reads)] == rest[first_unread(
            rest,
        )]);
    }
}

/// The files that were read, where all of them were.
pub open spec fn files_read(reads: Seq<FileRead>) -> Seq<FileView> {
    reads.map_values(
        |r: FileRead| FileView { path: r.path@, kind: r.kind, content: r.content->0@ },
    )
}

/// Takes the files of a directory as they were read. Content is all or
/// nothing: one file that could not be read fails the whole, and the
/// failure names the first such file in the order given.
pub fn collect_reads(reads: Vec<FileRead>) -> (out: Result<Vec<FileEntry>, PackError>)
    ensures
        out is Ok <==> first_unread(reads@) == reads@.len(),
        out is Ok ==> files_of(out->Ok_0@) == files_read(reads@),
        out is Err ==> out->Err_0 is ContentReadFailure && out->Err_0->path@ == reads@[first_unread(
            reads@,
        )].path@,
{
    let ghost all = reads@;
    let mut i: usize = 0;
    assert(all.skip(0) =~= all);
    while i < reads.len()
        invariant
            all == reads@,
            i <= all.len(),
            first_unread(all) == i + first_unread(all.skip(i as int)),
        decreases reads.len() - i,
    {
        assert(all.skip(i as int)[0] == all[i as int]);
        if reads[i].content.is_none() {
            return Err(PackError::ContentReadFailure { path: reads[i].path.clone() });
        }
        assert(all.skip(i as int).drop_first() =~= all.skip(i as int + 1));
        i = i + 1;
    }
    proof {
        lemma_first_unread(all);
    }
    let mut rest = reads;
    let mut kept: Vec<FileEntry> = Vec::new();
    while rest.len() > 0
        invariant
            rest@ == all.take(rest.len() as int),
            rest.len() <= all.len(),
            forall|k: int| 0 <= k < all.len() ==> (#[trigger] all[k]).content is Some,
            kept@.len() == all.len() - rest.len(),
            forall|j: int|
                0 <= j < kept@.len() ==> (#[trigger] kept@[j])@ == files_read(all)[all.len() - 1 - j],
        decreases rest.len(),
    {
        let ghost n = rest.len() as int;
        let read = rest.pop().unwrap();
        assert(read == all[n - 1]) by {
            assert(all.take(n)[n - 1] == all[n - 1]);
        }
        assert(rest@ =~= all.take(n - 1));
        match read.content {
            None => {},
            Some(content) => {
                kept.push(FileEntry { path: read.path, kind: read.kind, content });
            },
        }
    }
    let mut out: Vec<FileEntry> = Vec::new();
    let ghost target = files_read(all);
    while kept.len() > 0
        invariant
            kept@.len() + out@.len() == all.len(),
            target == files_read(all),
            forall|j: int|
                0 <= j < kept@.len() ==> (#[trigger] kept@[j])@ == target[all.len() - 1 - j],
            forall|j: int| 0 <= j < out@.len() ==> (#[trigger] out@[j])@ == target[j],
        decreases kept.len(),
    {
        let e = kept.pop().unwrap();
        out.push(e);
    }
    assert(files_of(out@) =~= files_read(all));
    Ok(out)
}

} // verus!
