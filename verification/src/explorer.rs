//! The file explorer: directory listings, their order, and navigation by key.
//!
//! The explorer keeps the current directory, the files shown, whether hidden
//! files are shown and which file is selected.  Reading a directory is left
//! to the caller: `handle` says which directory to read, and `refresh`
//! takes what was read.
use vstd::prelude::*;
use crate::keys::{KeyCode, KeyInput};
use crate::paths::{parent_of, parent};
use crate::stdtext::{unicode_lowercase, to_lowercase};
use crate::text::{chars_of, chars_eq};

verus! {

broadcast use vstd::seq_lib::group_seq_properties;

/// A point in time, in whole seconds relative to the Unix epoch (negative
/// before it) plus nanoseconds.
#[derive(Clone, Copy, Debug, PartialEq, Eq, Structural)]
pub struct FileTime {
    pub seconds: i64,
    pub nanos: u32,
}

/// Metadata of a file: size, timestamps and kind.
#[derive(Clone, Debug)]
pub struct FileMetadata {
    pub size: u64,
    pub created: Option<FileTime>,
    pub modified: Option<FileTime>,
    pub is_dir: bool,
}

/// An entry of a directory listing.
#[derive(Clone, Debug)]
pub struct FileEntry {
    pub name: String,
    pub path: String,
    pub is_dir: bool,
    pub is_hidden: bool,
    pub metadata: Option<FileMetadata>,
}

/// A file or directory shown by the explorer.
#[derive(Clone, Debug)]
pub struct File {
    name: String,
    path: String,
    is_dir: bool,
    is_hidden: bool,
    metadata: Option<FileMetadata>,
}

/// The abstract value of a `File`.
pub struct FileView {
    pub name: Seq<char>,
    pub path: Seq<char>,
    pub is_dir: bool,
    pub is_hidden: bool,
    pub metadata: Option<FileMetadata>,
}

impl View for File {
    type V = FileView;

    closed spec fn view(&self) -> FileView {
        FileView {
            name: self.name@,
            path: self.path@,
            is_dir: self.is_dir,
            is_hidden: self.is_hidden,
            metadata: self.metadata,
        }
    }
}

/// The name under which a directory entry is listed: directories get a
/// trailing `/`.
pub open spec fn listed_name(file_name: Seq<char>, is_dir: bool) -> Seq<char> {
    if is_dir {
        file_name.push('/')
    } else {
        file_name
    }
}

/// Whether a file name denotes a hidden file (on Unix: it starts with `.`).
pub open spec fn hidden_name(file_name: Seq<char>) -> bool {
    file_name.len() > 0 && file_name[0] == '.'
}

/// The name of a directory entry as listed (`name/` for directories).
pub fn entry_name(file_name: &str, is_dir: bool) -> (r: String)
    ensures
        r@ == listed_name(file_name@, is_dir),
{
    let mut s = file_name.to_owned();
    if is_dir {
        crate::text::push_char(&mut s, '/');
    }
    s
}

/// Whether a file name is hidden (it starts with `.`).
pub fn is_hidden_name(file_name: &str) -> (r: bool)
    ensures
        r == hidden_name(file_name@),
{
    let v = chars_of(file_name);
    v.len() > 0 && v[0] == '.'
}

/// A directory entry for a file of a listing: listed name, hidden flag
/// from the name, and the metadata given.
pub fn make_entry(file_name: &str, path: String, is_dir: bool, metadata: FileMetadata) -> (e: FileEntry)
    ensures
        e.name@ == listed_name(file_name@, is_dir),
        e.path == path,
        e.is_dir == is_dir,
        e.is_hidden == hidden_name(file_name@),
        e.metadata == Some(metadata),
{
    FileEntry {
        name: entry_name(file_name, is_dir),
        path,
        is_dir,
        is_hidden: is_hidden_name(file_name),
        metadata: Some(metadata),
    }
}

/// The file that a listing entry becomes.
pub open spec fn entry_view(e: FileEntry) -> FileView {
    FileView { name: e.name@, path: e.path@, is_dir: e.is_dir, is_hidden: e.is_hidden, metadata: e.metadata }
}

impl vstd::std_specs::convert::FromSpecImpl<FileEntry> for File {
    open spec fn obeys_from_spec() -> bool {
        true
    }

    closed spec fn from_spec(e: FileEntry) -> File {
        File { name: e.name, path: e.path, is_dir: e.is_dir, is_hidden: e.is_hidden, metadata: e.metadata }
    }
}

impl From<FileEntry> for File {
    fn from(entry: FileEntry) -> (f: File)
        ensures
            f@ == entry_view(entry),
    {
        File {
            name: entry.name,
            path: entry.path,
            is_dir: entry.is_dir,
            is_hidden: entry.is_hidden,
            metadata: entry.metadata,
        }
    }
}

impl File {
    /// The listed name (`name/` for directories, `../` for the parent).
    pub fn name(&self) -> (r: &str)
        ensures
            r@ == self@.name,
    {
        self.name.as_str()
    }

    /// The full path.
    pub fn path(&self) -> (r: &str)
        ensures
            r@ == self@.path,
    {
        self.path.as_str()
    }

    /// Whether it is a directory.
    pub fn is_dir(&self) -> (r: bool)
        ensures
            r == self@.is_dir,
    {
        self.is_dir
    }

    /// Whether it is not a directory.
    pub fn is_file(&self) -> (r: bool)
        ensures
            r == !self@.is_dir,
    {
        !self.is_dir
    }

    /// Whether it is hidden.
    pub fn is_hidden(&self) -> (r: bool)
        ensures
            r == self@.is_hidden,
    {
        self.is_hidden
    }

    /// Its metadata, if known (the parent entry `../` has none).
    pub fn metadata(&self) -> (r: Option<&FileMetadata>)
        ensures
            match r {
                Some(m) => self@.metadata == Some(*m),
                None => self@.metadata is None,
            },
    {
        match &self.metadata {
            Some(m) => Some(m),
            None => None,
        }
    }
}

/// The abstract values of a sequence of files.
pub open spec fn views(s: Seq<File>) -> Seq<FileView> {
    s.map_values(|f: File| f@)
}

/// The entry that leads to the parent directory.
pub open spec fn parent_file(parent_path: Seq<char>) -> FileView {
    FileView {
        name: seq!['.', '.', '/'],
        path: parent_path,
        is_dir: true,
        is_hidden: false,
        metadata: None,
    }
}

/// The sort key of a file: the parent entry first, then directories, then
/// other files; within each group by lower-cased name.
pub open spec fn sort_rank(f: FileView) -> nat {
    if f.name == seq!['.', '.', '/'] {
        0
    } else if f.is_dir {
        1
    } else {
        2
    }
}

/// Lexicographic order of character sequences (by code point, which is also
/// the byte order of their UTF-8 text).
pub open spec fn chars_le(a: Seq<char>, b: Seq<char>) -> bool
    decreases a.len(),
{
    if a.len() == 0 {
        true
    } else if b.len() == 0 {
        false
    } else if a[0] != b[0] {
        a[0] < b[0]
    } else {
        chars_le(a.drop_first(), b.drop_first())
    }
}

/// The sort key of a file.
pub open spec fn sort_key(f: FileView) -> (nat, Seq<char>) {
    (sort_rank(f), unicode_lowercase(f.name))
}

/// Order of sort keys: by rank, then by lower-cased name.
pub open spec fn key_le(a: (nat, Seq<char>), b: (nat, Seq<char>)) -> bool {
    a.0 < b.0 || (a.0 == b.0 && chars_le(a.1, b.1))
}

/// Whether the files are in sort order.
pub open spec fn is_sorted(s: Seq<FileView>) -> bool {
    forall|i: int, j: int| 0 <= i < j < s.len() ==> key_le(sort_key(#[trigger] s[i]), sort_key(#[trigger] s[j]))
}

/// The files of `s` with sort key `k`, in their order in `s`.
pub open spec fn key_class(s: Seq<FileView>, k: (nat, Seq<char>)) -> Seq<FileView> {
    s.filter(has_key(k))
}

/// The predicate "has sort key `k`".
pub open spec fn has_key(k: (nat, Seq<char>)) -> spec_fn(FileView) -> bool {
    |f: FileView| sort_key(f) == k
}

/// `out` is `inp` sorted stably: in sort order, and files with equal keys
/// keep their relative order.
pub open spec fn is_stable_sort_of(out: Seq<FileView>, inp: Seq<FileView>) -> bool {
    &&& is_sorted(out)
    &&& forall|k: (nat, Seq<char>)| #[trigger] key_class(out, k) == key_class(inp, k)
}

/// The files listed for directory `cwd` before sorting: the parent entry
/// (when `cwd` has a parent), then the entries, hidden ones only when shown.
pub open spec fn unsorted_listing(cwd: Seq<char>, entries: Seq<FileEntry>, show_hidden: bool) -> Seq<FileView> {
    let head = match parent_of(cwd) {
        Some(p) => seq![parent_file(p)],
        None => Seq::<FileView>::empty(),
    };
    head + entries.filter(|e: FileEntry| !e.is_hidden || show_hidden).map_values(|e: FileEntry| entry_view(e))
}

/// The selection after the list changed to `len` files: kept if still in
/// range, else the last file (`0` for an empty list).
pub open spec fn clamp_selection(selected: nat, len: nat) -> nat {
    if len == 0 {
        0
    } else if selected < len {
        selected
    } else {
        (len - 1) as nat
    }
}

proof fn lemma_chars_le_total(a: Seq<char>, b: Seq<char>)
    ensures
        chars_le(a, b) || chars_le(b, a),
    decreases a.len(),
{
    if a.len() > 0 && b.len() > 0 && a[0] == b[0] {
        lemma_chars_le_total(a.drop_first(), b.drop_first());
    }
}

proof fn lemma_chars_le_trans(a: Seq<char>, b: Seq<char>, c: Seq<char>)
    requires
        chars_le(a, b),
        chars_le(b, c),
    ensures
        chars_le(a, c),
    decreases a.len(),
{
    if a.len() > 0 && b.len() > 0 && c.len() > 0 && a[0] == b[0] && b[0] == c[0] {
        lemma_chars_le_trans(a.drop_first(), b.drop_first(), c.drop_first());
    }
}

proof fn lemma_chars_le_antisym(a: Seq<char>, b: Seq<char>)
    requires
        chars_le(a, b),
        chars_le(b, a),
    ensures
        a == b,
    decreases a.len(),
{
    if a.len() > 0 && b.len() > 0 {
        lemma_chars_le_antisym(a.drop_first(), b.drop_first());
        assert(a =~= seq![a[0]] + a.drop_first());
        assert(b =~= seq![b[0]] + b.drop_first());
    }
}

proof fn lemma_chars_le_refl(a: Seq<char>)
    ensures
        chars_le(a, a),
    decreases a.len(),
{
    if a.len() > 0 {
        lemma_chars_le_refl(a.drop_first());
    }
}

/// Order of character slices (`chars_le`).
fn chars_le_exec(a: &[char], b: &[char]) -> (r: bool)
    ensures
        r == chars_le(a@, b@),
{
    let mut i: usize = 0;
    assert(a@.subrange(0, a.len() as int) =~= a@);
    assert(b@.subrange(0, b.len() as int) =~= b@);
    while i < a.len() && i < b.len() && a[i] == b[i]
        invariant
            i <= a.len(),
            i <= b.len(),
            chars_le(a@, b@) == chars_le(a@.subrange(i as int, a.len() as int), b@.subrange(i as int, b.len() as int)),
        decreases a.len() - i,
    {
        assert(a@.subrange(i as int, a.len() as int).drop_first() =~= a@.subrange(i + 1, a.len() as int));
        assert(b@.subrange(i as int, b.len() as int).drop_first() =~= b@.subrange(i + 1, b.len() as int));
        i = i + 1;
    }
    assert(a@.subrange(0, a.len() as int) =~= a@);
    assert(b@.subrange(0, b.len() as int) =~= b@);
    if i == a.len() {
        true
    } else if i == b.len() {
        false
    } else {
        a[i] < b[i]
    }
}

/// The rank of a file (see `sort_rank`).
fn rank_of(f: &File) -> (r: u8)
    ensures
        r as nat == sort_rank(f@),
{
    let n = chars_of(f.name.as_str());
    if n.len() == 3 && n[0] == '.' && n[1] == '.' && n[2] == '/' {
        assert(n@ =~= seq!['.', '.', '/']);
        0
    } else {
        assert(n@ != seq!['.', '.', '/']) by {
            if n@ == seq!['.', '.', '/'] {
                assert(n@[0] == '.' && n@[1] == '.' && n@[2] == '/');
            }
        }
        if f.is_dir {
            1
        } else {
            2
        }
    }
}

/// Orders files stably by their sort key (see `is_stable_sort_of`).
pub fn sort_files(files: Vec<File>) -> (out: Vec<File>)
    ensures
        is_stable_sort_of(views(out@), views(files@)),
{
    let ghost inp = views(files@);
    let mut rest = files;
    let mut out: Vec<File> = Vec::new();
    let mut keys: Vec<(u8, Vec<char>)> = Vec::new();
    let ghost mut consumed: Seq<FileView> = Seq::empty();
    while rest.len() > 0
        invariant
            consumed.len() + rest@.len() == inp.len(),
            consumed == inp.subrange(0, consumed.len() as int),
            forall|m: int| 0 <= m < rest@.len() ==> #[trigger] rest@[m]@ == inp[consumed.len() + m],
            keys@.len() == out@.len(),
            forall|m: int| 0 <= m < out@.len() ==> keys@[m].0 as nat == (#[trigger] sort_key(out@[m]@)).0
                && keys@[m].1@ == sort_key(out@[m]@).1,
            is_sorted(views(out@)),
            forall|k: (nat, Seq<char>)| #[trigger] key_class(views(out@), k) == key_class(consumed, k),
        decreases rest@.len(),
    {
        let ghost old_out = views(out@);
        let f = rest.remove(0);
        let ghost fv = f@;
        assert(fv == inp[consumed.len() as int]);
        let r = rank_of(&f);
        let low = to_lowercase(f.name.as_str());
        let lk = chars_of(low.as_str());
        let ghost kf = sort_key(fv);
        assert(kf.0 == r as nat && kf.1 == lk@);
        // find the first position whose key is greater than kf
        let mut j: usize = 0;
        while j < out.len() && (keys[j].0 < r || (keys[j].0 == r && chars_le_exec(keys[j].1.as_slice(), lk.as_slice())))
            invariant
                j <= out@.len(),
                keys@.len() == out@.len(),
                forall|m: int| 0 <= m < out@.len() ==> keys@[m].0 as nat == (#[trigger] sort_key(out@[m]@)).0
                    && keys@[m].1@ == sort_key(out@[m]@).1,
                kf.0 == r as nat && kf.1 == lk@,
                forall|m: int| 0 <= m < j ==> key_le(#[trigger] sort_key(out@[m]@), kf),
            decreases out@.len() - j,
        {
            j = j + 1;
        }
        proof {
            if j < out@.len() {
                assert(!key_le(sort_key(out@[j as int]@), kf));
            }
            // everything from j on is strictly greater than kf
            assert forall|m: int| j <= m < old_out.len() implies key_le(kf, sort_key(#[trigger] old_out[m])) && sort_key(old_out[m]) != kf by {
                assert(old_out[m] == out@[m]@);
                assert(old_out[j as int] == out@[j as int]@);
                let a = sort_key(old_out[j as int]);
                let b = sort_key(old_out[m]);
                lemma_chars_le_refl(a.1);
                lemma_chars_le_refl(kf.1);
                if m > j {
                    assert(key_le(sort_key(old_out[j as int]), sort_key(old_out[m])));
                }
                assert(key_le(a, b));
                if a.0 == kf.0 {
                    lemma_chars_le_total(a.1, kf.1);
                }
                if a.0 == kf.0 && b.0 == a.0 {
                    lemma_chars_le_trans(kf.1, a.1, b.1);
                }
            }
        }
        let ghost left = old_out.subrange(0, j as int);
        let ghost right = old_out.subrange(j as int, old_out.len() as int);
        out.insert(j, f);
        keys.insert(j, (r, lk));
        let ghost new_out = views(out@);
        assert(new_out =~= left + seq![fv] + right);
        assert(old_out =~= left + right);
        proof {
            assert forall|i: int, k: int| 0 <= i < k < new_out.len() implies key_le(sort_key(#[trigger] new_out[i]), sort_key(#[trigger] new_out[k])) by {
                if i < j && k == j {
                    assert(new_out[i] == out@[i]@);
                } else if i == j && k > j {
                    assert(new_out[k] == old_out[k - 1]);
                } else if i < j && k > j {
                    assert(new_out[i] == old_out[i]);
                    assert(new_out[k] == old_out[k - 1]);
                } else if k < j {
                    assert(new_out[i] == old_out[i]);
                    assert(new_out[k] == old_out[k]);
                } else {
                    assert(new_out[i] == old_out[i - 1]);
                    assert(new_out[k] == old_out[k - 1]);
                }
            }
            assert forall|k: (nat, Seq<char>)| #[trigger] key_class(new_out, k) == key_class(consumed.push(fv), k) by {
                let p = has_key(k);
                assert(key_class(old_out, k) == key_class(consumed, k));
                vstd::seq::Seq::filter_distributes_over_add(left + seq![fv], right, p);
                vstd::seq::Seq::filter_distributes_over_add(left, seq![fv], p);
                vstd::seq::Seq::filter_distributes_over_add(left, right, p);
                consumed.lemma_filter_push(fv, p);
                if k == kf {
                    assert forall|m: int| 0 <= m < right.len() implies !p(right[m]) by {
                        assert(right[m] == old_out[j + m]);
                    }
                    right.lemma_all_neg_filter_empty(p);
                    assert(right.filter(p) =~= Seq::<FileView>::empty());
                    assert(seq![fv].filter(p) =~= seq![fv]) by {
                        Seq::<FileView>::empty().lemma_filter_push(fv, p);
                        assert(Seq::<FileView>::empty().push(fv) =~= seq![fv]);
                    }
                } else {
                    assert(seq![fv].filter(p) =~= Seq::<FileView>::empty()) by {
                        Seq::<FileView>::empty().lemma_filter_push(fv, p);
                        assert(Seq::<FileView>::empty().push(fv) =~= seq![fv]);
                    }
                }
            }
            consumed = consumed.push(fv);
            assert(consumed =~= inp.subrange(0, consumed.len() as int));
            assert forall|m: int| 0 <= m < keys@.len() implies keys@[m].0 as nat == (#[trigger] sort_key(out@[m]@)).0
                && keys@[m].1@ == sort_key(out@[m]@).1 by {
                if m < j {
                } else if m > j {
                    assert(out@[m]@ == old_out[m - 1]);
                }
            }
        }
    }
    assert(consumed =~= inp);
    out
}

/// The state of the file explorer.
pub struct FileExplorer {
    cwd: String,
    files: Vec<File>,
    show_hidden: bool,
    selected: usize,
}

/// The abstract state of the explorer.
pub struct ExplorerView {
    pub cwd: Seq<char>,
    pub files: Seq<FileView>,
    pub show_hidden: bool,
    pub selected: nat,
}

impl View for FileExplorer {
    type V = ExplorerView;

    closed spec fn view(&self) -> ExplorerView {
        ExplorerView {
            cwd: self.cwd@,
            files: views(self.files@),
            show_hidden: self.show_hidden,
            selected: self.selected as nat,
        }
    }
}

impl FileExplorer {
    /// The explorer's invariant: the selection is a position of the list,
    /// or `0` when the list is empty.
    pub open spec fn wf(&self) -> bool {
        if self@.files.len() == 0 {
            self@.selected == 0
        } else {
            self@.selected < self@.files.len()
        }
    }

    /// An explorer on directory `cwd` with nothing listed yet; hidden files
    /// are not shown.
    pub fn new(cwd: String) -> (e: Self)
        ensures
            e.wf(),
            e@.cwd == cwd@,
            e@.files.len() == 0,
            !e@.show_hidden,
            e@.selected == 0,
    {
        FileExplorer { cwd, files: Vec::new(), show_hidden: false, selected: 0 }
    }

    /// Replaces the listing with the entries read from the current
    /// directory: the parent entry first (when there is a parent), hidden
    /// entries only when shown, everything in sort order; the selection is
    /// kept if still in range, else moved to the last file.
    pub fn refresh(&mut self, entries: Vec<FileEntry>)
        requires
            old(self).wf(),
        ensures
            final(self).wf(),
            final(self)@.cwd == old(self)@.cwd,
            final(self)@.show_hidden == old(self)@.show_hidden,
            is_stable_sort_of(final(self)@.files, unsorted_listing(old(self)@.cwd, entries@, old(self)@.show_hidden)),
            final(self)@.selected == clamp_selection(old(self)@.selected, final(self)@.files.len()),
    {
        let ghost cwd = self.cwd@;
        let ghost show = self.show_hidden;
        let mut list: Vec<File> = Vec::new();
        match parent(self.cwd.as_str()) {
            Some(p) => {
                let mut dots = String::new();
                crate::text::push_char(&mut dots, '.');
                crate::text::push_char(&mut dots, '.');
                crate::text::push_char(&mut dots, '/');
                assert(dots@ =~= seq!['.', '.', '/']);
                let ghost pv = p@;
                list.push(File { name: dots, path: p, is_dir: true, is_hidden: false, metadata: None });
                assert(views(list@) =~= seq![parent_file(pv)]);
            },
            None => {
                assert(views(list@) =~= Seq::<FileView>::empty());
            },
        }
        let ghost head = views(list@);
        let ghost pred = |e: FileEntry| !e.is_hidden || show;
        let ghost conv = |e: FileEntry| entry_view(e);
        let mut rest = entries;
        let ghost all = rest@;
        let ghost mut done: Seq<FileEntry> = Seq::empty();
        assert(head == match parent_of(cwd) {
            Some(p) => seq![parent_file(p)],
            None => Seq::<FileView>::empty(),
        });
        assert(done.filter(pred).map_values(conv) =~= Seq::<FileView>::empty());
        while rest.len() > 0
            invariant
                done + rest@ == all,
                show == self.show_hidden,
                views(list@) == head + done.filter(pred).map_values(conv),
                pred == (|e: FileEntry| !e.is_hidden || show),
                conv == (|e: FileEntry| entry_view(e)),
            decreases rest@.len(),
        {
            let e = rest.remove(0);
            let ghost ev = e;
            let keep = !e.is_hidden || self.show_hidden;
            let ghost before = views(list@);
            if keep {
                list.push(File::from(e));
            }
            proof {
                done.lemma_filter_push(ev, pred);
                if keep {
                    assert(views(list@) =~= before.push(conv(ev)));
                    assert(done.push(ev).filter(pred).map_values(conv) =~= done.filter(pred).map_values(conv).push(conv(ev)));
                } else {
                    assert(views(list@) =~= before);
                }
                done = done.push(ev);
            }
            assert(done + rest@ =~= all);
        }
        assert(done =~= all);
        let sorted = sort_files(list);
        self.files = sorted;
        let n = self.files.len();
        if n == 0 {
            self.selected = 0;
        } else if self.selected >= n {
            self.selected = n - 1;
        }
    }

    /// Moves to directory `path`; the caller then reads it and calls `refresh`.
    pub fn set_cwd(&mut self, path: &str)
        requires
            old(self).wf(),
        ensures
            final(self).wf(),
            final(self)@ == (ExplorerView { cwd: path@, ..old(self)@ }),
    {
        self.cwd = path.to_owned();
    }

    /// Shows or hides hidden files (from the next `refresh` on).
    pub fn set_show_hidden(&mut self, show: bool)
        requires
            old(self).wf(),
        ensures
            final(self).wf(),
            final(self)@ == (ExplorerView { show_hidden: show, ..old(self)@ }),
    {
        self.show_hidden = show;
    }

    /// The selected file.
    pub fn current(&self) -> (f: &File)
        requires
            self.wf(),
            self@.files.len() > 0,
        ensures
            f@ == self@.files[self@.selected as int],
    {
        &self.files[self.selected]
    }

    /// The current directory.
    pub fn cwd(&self) -> (r: &str)
        ensures
            r@ == self@.cwd,
    {
        self.cwd.as_str()
    }

    /// The files listed, in order.
    pub fn files(&self) -> (r: &[File])
        ensures
            views(r@) == self@.files,
    {
        self.files.as_slice()
    }

    /// The position of the selected file.
    pub fn selected_idx(&self) -> (r: usize)
        ensures
            r as nat == self@.selected,
    {
        self.selected
    }

    /// Whether hidden files are shown.
    pub fn show_hidden(&self) -> (r: bool)
        ensures
            r == self@.show_hidden,
    {
        self.show_hidden
    }

    /// What the delete key deletes: the path of the selected file or
    /// directory, or `None` when nothing is listed or the entry leading to
    /// the parent directory is selected.
    pub fn delete_target(&self) -> (r: Option<String>)
        requires
            self.wf(),
        ensures
            match r {
                Some(p) => delete_target_of(self@) == Some(p@),
                None => delete_target_of(self@) is None,
            },
    {
        if self.selected < self.files.len() {
            let f = &self.files[self.selected];
            let dots = chars_of("../");
            let name = chars_of(f.name.as_str());
            proof {
                reveal_strlit("../");
            }
            if chars_eq(name.as_slice(), dots.as_slice()) {
                None
            } else {
                Some(f.path.clone())
            }
        } else {
            None
        }
    }

    /// A file or directory was deleted: it is no longer listed.  Every
    /// entry with that path leaves the listing, the rest keep their order,
    /// and the selection is kept if still in range, else moved to the last
    /// file.
    pub fn remove_listed(&mut self, path: &str)
        requires
            old(self).wf(),
        ensures
            final(self).wf(),
            final(self)@.cwd == old(self)@.cwd,
            final(self)@.show_hidden == old(self)@.show_hidden,
            final(self)@.files == without_path(old(self)@.files, path@),
            final(self)@.selected == clamp_selection(old(self)@.selected, final(self)@.files.len()),
    {
        let target = chars_of(path);
        let ghost pred = |f: FileView| f.path != path@;
        let mut rest: Vec<File> = Vec::new();
        std::mem::swap(&mut rest, &mut self.files);
        let ghost all = views(rest@);
        let ghost mut done: Seq<FileView> = Seq::empty();
        let mut kept: Vec<File> = Vec::new();
        assert(done.filter(pred) =~= Seq::<FileView>::empty());
        while rest.len() > 0
            invariant
                done + views(rest@) == all,
                target@ == path@,
                views(kept@) == done.filter(pred),
                pred == (|f: FileView| f.path != path@),
            decreases rest@.len(),
        {
            let ghost r0 = views(rest@);
            let f = rest.remove(0);
            let ghost fv = f@;
            assert(r0[0] == fv);
            assert(views(rest@) =~= r0.drop_first());
            let c = chars_of(f.path.as_str());
            let keep = !chars_eq(c.as_slice(), target.as_slice());
            let ghost before = views(kept@);
            if keep {
                kept.push(f);
            }
            proof {
                done.lemma_filter_push(fv, pred);
                if keep {
                    assert(views(kept@) =~= before.push(fv));
                } else {
                    assert(views(kept@) =~= before);
                }
                done = done.push(fv);
            }
            assert(done + views(rest@) =~= all);
        }
        assert(done =~= all);
        self.files = kept;
        let n = self.files.len();
        if n == 0 {
            self.selected = 0;
        } else if self.selected >= n {
            self.selected = n - 1;
        }
    }

    /// Reacts to a key.  Up/`k` and Down/`j` move the selection by one,
    /// Home/`g` and End/`G` to the ends, PageUp and PageDown by ten within the
    /// list; Left/`h` moves to the parent directory, Right/`l`/Enter into the
    /// selected directory, and Ctrl+`.` toggles hidden files.  When the
    /// listing must be read again the directory to read is returned.
    pub fn handle(&mut self, key: KeyInput) -> (reread: Option<String>)
        requires
            old(self).wf(),
        ensures
            final(self).wf(),
            handle_outcome(old(self)@, key, final(self)@, match reread {
                Some(d) => Some(d@),
                None => None,
            }),
    {
        let n = self.files.len();
        match key.code {
            KeyCode::Up | KeyCode::Char('k') => {
                if self.selected > 0 {
                    self.selected = self.selected - 1;
                }
                None
            },
            KeyCode::Down | KeyCode::Char('j') => {
                if self.selected + 1 < n {
                    self.selected = self.selected + 1;
                }
                None
            },
            KeyCode::Left | KeyCode::Char('h') => {
                match parent(self.cwd.as_str()) {
                    Some(p) => {
                        self.cwd = p.clone();
                        Some(p)
                    },
                    None => None,
                }
            },
            KeyCode::Right | KeyCode::Char('l') | KeyCode::Enter => {
                if self.selected < n && self.files[self.selected].is_dir {
                    let p = self.files[self.selected].path.clone();
                    self.cwd = p.clone();
                    Some(p)
                } else {
                    None
                }
            },
            KeyCode::Home | KeyCode::Char('g') => {
                self.selected = 0;
                None
            },
            KeyCode::End | KeyCode::Char('G') => {
                if n > 0 {
                    self.selected = n - 1;
                }
                None
            },
            KeyCode::PageUp => {
                self.selected = if self.selected >= 10 { self.selected - 10 } else { 0 };
                None
            },
            KeyCode::PageDown => {
                let last = if n > 0 { n - 1 } else { 0 };
                self.selected = if last >= 10 && self.selected < last - 10 { self.selected + 10 } else { last };
                None
            },
            KeyCode::Char('.') => {
                if key.ctrl {
                    self.show_hidden = !self.show_hidden;
                    Some(self.cwd.clone())
                } else {
                    None
                }
            },
            _ => None,
        }
    }
}

/// A listing as `refresh` makes it starts with the entry leading to the
/// parent directory (listed as `../`) whenever the directory has a parent,
/// lists every directory before any other file, and orders each group by
/// lower-cased name.
pub proof fn law_listing_order(out: Seq<FileView>, cwd: Seq<char>, entries: Seq<FileEntry>, show_hidden: bool)
    requires
        is_stable_sort_of(out, unsorted_listing(cwd, entries, show_hidden)),
    ensures
        parent_of(cwd) is Some ==> out.len() > 0 && out[0].name == seq!['.', '.', '/'],
        forall|i: int, j: int| 0 <= i < j < out.len()
            ==> sort_rank(#[trigger] out[i]) <= sort_rank(#[trigger] out[j]),
        forall|i: int, j: int| 0 <= i < j < out.len() && sort_rank(#[trigger] out[i]) == sort_rank(#[trigger] out[j])
            ==> chars_le(unicode_lowercase(out[i].name), unicode_lowercase(out[j].name)),
{
    assert forall|i: int, j: int| 0 <= i < j < out.len()
        implies sort_rank(#[trigger] out[i]) <= sort_rank(#[trigger] out[j]) by {
        assert(key_le(sort_key(out[i]), sort_key(out[j])));
    }
    assert forall|i: int, j: int| 0 <= i < j < out.len() && sort_rank(#[trigger] out[i]) == sort_rank(#[trigger] out[j])
        implies chars_le(unicode_lowercase(out[i].name), unicode_lowercase(out[j].name)) by {
        assert(key_le(sort_key(out[i]), sort_key(out[j])));
    }
    if parent_of(cwd) is Some {
        let inp = unsorted_listing(cwd, entries, show_hidden);
        let pf = parent_file(parent_of(cwd)->0);
        assert(inp[0] == pf);
        let k = sort_key(pf);
        inp.lemma_filter_contains(has_key(k), 0);
        assert(key_class(out, k) == key_class(inp, k));
        out.lemma_filter_contains_rev(has_key(k), pf);
        let m = choose|m: int| 0 <= m < out.len() && out[m] == pf;
        assert(sort_rank(pf) == 0);
        if m > 0 {
            assert(key_le(sort_key(out[0]), sort_key(out[m])));
        }
    }
}

/// What the delete key deletes in explorer state `v`: the path of the
/// selected entry, unless nothing is listed or the selected entry is the
/// one leading to the parent directory (listed as `../`).
pub open spec fn delete_target_of(v: ExplorerView) -> Option<Seq<char>> {
    if v.selected < v.files.len() && v.files[v.selected as int].name != "../"@ {
        Some(v.files[v.selected as int].path)
    } else {
        None
    }
}

/// A listing without the entries of path `path`.
pub open spec fn without_path(files: Seq<FileView>, path: Seq<char>) -> Seq<FileView> {
    files.filter(|f: FileView| f.path != path)
}

/// After a deletion, the deleted path is no longer listed, and every
/// entry of another path still is.
pub proof fn law_deleted_path_not_listed(files: Seq<FileView>, path: Seq<char>)
    ensures
        forall|i: int| 0 <= i < without_path(files, path).len()
            ==> (#[trigger] without_path(files, path)[i]).path != path,
        forall|i: int| 0 <= i < files.len() && (#[trigger] files[i]).path != path
            ==> without_path(files, path).contains(files[i]),
{
    let pred = |f: FileView| f.path != path;
    assert forall|i: int| 0 <= i < without_path(files, path).len()
        implies (#[trigger] without_path(files, path)[i]).path != path by {
        files.lemma_filter_pred(pred, i);
    }
    assert forall|i: int| 0 <= i < files.len() && (#[trigger] files[i]).path != path
        implies without_path(files, path).contains(files[i]) by {
        files.lemma_filter_contains(pred, i);
    }
}

/// Whether the key is one of the two given codes.
pub open spec fn is_key(key: KeyInput, a: KeyCode, b: KeyCode) -> bool {
    key.code == a || key.code == b
}

/// What `handle` does: the state `after` and the directory to read again
/// (`reread`) for a key pressed in state `before`.
pub open spec fn handle_outcome(before: ExplorerView, key: KeyInput, after: ExplorerView, reread: Option<Seq<char>>) -> bool {
    let n = before.files.len();
    let sel = before.selected;
    if is_key(key, KeyCode::Up, KeyCode::Char('k')) {
        after == (ExplorerView { selected: if sel > 0 { (sel - 1) as nat } else { sel }, ..before })
            && reread is None
    } else if is_key(key, KeyCode::Down, KeyCode::Char('j')) {
        after == (ExplorerView { selected: if sel + 1 < n { sel + 1 } else { sel }, ..before })
            && reread is None
    } else if is_key(key, KeyCode::Left, KeyCode::Char('h')) {
        match parent_of(before.cwd) {
            Some(p) => after == (ExplorerView { cwd: p, ..before }) && reread == Some(p),
            None => after == before && reread is None,
        }
    } else if is_key(key, KeyCode::Right, KeyCode::Char('l')) || key.code == KeyCode::Enter {
        if sel < n && before.files[sel as int].is_dir {
            after == (ExplorerView { cwd: before.files[sel as int].path, ..before })
                && reread == Some(before.files[sel as int].path)
        } else {
            after == before && reread is None
        }
    } else if is_key(key, KeyCode::Home, KeyCode::Char('g')) {
        after == (ExplorerView { selected: 0, ..before }) && reread is None
    } else if is_key(key, KeyCode::End, KeyCode::Char('G')) {
        after == (ExplorerView { selected: if n > 0 { (n - 1) as nat } else { sel }, ..before })
            && reread is None
    } else if key.code == KeyCode::PageUp {
        after == (ExplorerView { selected: if sel >= 10 { (sel - 10) as nat } else { 0 }, ..before })
            && reread is None
    } else if key.code == KeyCode::PageDown {
        let last: nat = if n > 0 { (n - 1) as nat } else { 0 };
        after == (ExplorerView { selected: if sel + 10 < last { sel + 10 } else { last }, ..before })
            && reread is None
    } else if key.code == KeyCode::Char('.') && key.ctrl {
        after == (ExplorerView { show_hidden: !before.show_hidden, ..before }) && reread == Some(before.cwd)
    } else {
        after == before && reread is None
    }
}

/// How the movement keys move the selection of a listing of `n` files
/// (without changing the listing, the directory or the hidden-file
/// setting): Up/`k` one place towards the top and Down/`j` one towards the
/// bottom, each stopping at its end; Home/`g` to the top and End/`G` to the
/// bottom; PageUp/PageDown by ten, stopping at the ends.
pub proof fn law_selection_moves(before: ExplorerView, key: KeyInput, after: ExplorerView, reread: Option<Seq<char>>)
    requires
        handle_outcome(before, key, after, reread),
    ensures
        is_key(key, KeyCode::Up, KeyCode::Char('k')) ==> {
            &&& after.selected <= before.selected
            &&& (before.selected > 0 ==> after.selected + 1 == before.selected)
            &&& after.files == before.files && after.cwd == before.cwd && reread is None
        },
        is_key(key, KeyCode::Down, KeyCode::Char('j')) ==> {
            &&& after.selected >= before.selected
            &&& (before.selected + 1 < before.files.len() ==> after.selected == before.selected + 1)
            &&& (before.selected + 1 >= before.files.len() ==> after.selected == before.selected)
            &&& after.files == before.files && after.cwd == before.cwd && reread is None
        },
        is_key(key, KeyCode::Home, KeyCode::Char('g')) ==> after.selected == 0 && after.files == before.files,
        is_key(key, KeyCode::End, KeyCode::Char('G')) && before.files.len() > 0
            ==> after.selected + 1 == before.files.len() && after.files == before.files,
        key.code == KeyCode::PageUp ==> after.selected <= before.selected
            && before.selected - after.selected <= 10
            && (before.selected >= 10 ==> after.selected + 10 == before.selected),
        key.code == KeyCode::PageDown && before.files.len() > 0 && before.selected < before.files.len()
            ==> after.selected >= before.selected
            && after.selected - before.selected <= 10
            && after.selected < before.files.len()
            && (before.selected + 10 < before.files.len() ==> after.selected == before.selected + 10),
{
}

/// Inside the list, Up undoes Down and Down undoes Up.
pub proof fn law_up_down_inverse(
    v0: ExplorerView, down: KeyInput, v1: ExplorerView, r1: Option<Seq<char>>,
    up: KeyInput, v2: ExplorerView, r2: Option<Seq<char>>,
)
    requires
        down.code == KeyCode::Down,
        up.code == KeyCode::Up,
    ensures
        handle_outcome(v0, down, v1, r1) && handle_outcome(v1, up, v2, r2)
            && v0.selected + 1 < v0.files.len() ==> v2 == v0,
        handle_outcome(v0, up, v1, r1) && handle_outcome(v1, down, v2, r2)
            && 0 < v0.selected < v0.files.len() ==> v2 == v0,
{
}

/// Left/`h` moves to the parent directory (and asks for it to be read);
/// Right/`l`/Enter on a directory moves into it; Ctrl+`.` flips whether
/// hidden files are shown and asks for the directory to be read again.
pub proof fn law_directory_moves(before: ExplorerView, key: KeyInput, after: ExplorerView, reread: Option<Seq<char>>)
    requires
        handle_outcome(before, key, after, reread),
    ensures
        is_key(key, KeyCode::Left, KeyCode::Char('h')) && parent_of(before.cwd) is Some
            ==> after.cwd == parent_of(before.cwd)->0 && reread == Some(after.cwd),
        (is_key(key, KeyCode::Right, KeyCode::Char('l')) || key.code == KeyCode::Enter)
            && before.selected < before.files.len() && before.files[before.selected as int].is_dir
            ==> after.cwd == before.files[before.selected as int].path && reread == Some(after.cwd),
        (is_key(key, KeyCode::Right, KeyCode::Char('l')) || key.code == KeyCode::Enter)
            && before.selected < before.files.len() && !before.files[before.selected as int].is_dir
            ==> after == before && reread is None,
        key.code == KeyCode::Char('.') && key.ctrl
            ==> after.show_hidden == !before.show_hidden && reread == Some(before.cwd) && after.cwd == before.cwd,
{
}

} // verus!
