use vstd::prelude::*;
use vstd::string::*;

use crate::error::{Error, ErrorView};

verus! {

/// Number of open files a cache allows when it is created with no limit of its own.
pub const DEFAULT_MAX_FILES: usize = 100;

/// What a cache knows of one open texture.
pub struct EntryView {
    /// Resolved path of the texture: the key of the entry.
    pub path: Seq<char>,
    /// Handle of the open texture in the texture store.
    pub handle: u64,
    /// Number of outstanding borrows of the handle.
    pub borrows: u64,
    /// Memory that the open texture holds, in bytes.
    pub memory: nat,
}

/// One open texture held by a cache.
pub struct CacheEntry {
    path: String,
    handle: u64,
    borrows: u64,
    memory: usize,
}

impl View for CacheEntry {
    type V = EntryView;

    closed spec fn view(&self) -> EntryView {
        EntryView { path: self.path@, handle: self.handle, borrows: self.borrows, memory: self.memory as nat }
    }
}

/// The entries of a cache as plain values, least recently used first.
pub open spec fn entries_view(v: Seq<CacheEntry>) -> Seq<EntryView> {
    v.map_values(|e: CacheEntry| e@)
}

/// Position of the entry whose key is `path`, or -1 when there is none.
pub open spec fn index_of(s: Seq<EntryView>, path: Seq<char>) -> int {
    if exists|i: int| 0 <= i < s.len() && s[i].path == path {
        choose|i: int| 0 <= i < s.len() && s[i].path == path
    } else {
        -1
    }
}

/// No two entries share a key.
pub open spec fn unique_paths(s: Seq<EntryView>) -> bool {
    forall|i: int, j: int| 0 <= i < j < s.len() ==> s[i].path != s[j].path
}

/// Memory held by all entries.
pub open spec fn total_memory(s: Seq<EntryView>) -> nat
    decreases s.len(),
{
    if s.len() == 0 {
        0
    } else {
        total_memory(s.drop_last()) + s.last().memory
    }
}

/// Position of the least recently used entry with no outstanding borrow,
/// or the length when every entry is borrowed.
pub open spec fn first_idle(s: Seq<EntryView>) -> nat
    decreases s.len(),
{
    if s.len() == 0 {
        0
    } else if s[0].borrows == 0 {
        0
    } else {
        1 + first_idle(s.drop_first())
    }
}

/// The entries exceed the open-file limit, or a memory limit (0 means none).
pub open spec fn over_limit(s: Seq<EntryView>, max_files: nat, max_mem: nat) -> bool {
    s.len() > max_files || (max_mem > 0 && total_memory(s) > max_mem)
}

/// Close least recently used idle entries while the limits are exceeded:
/// the entries that stay, and the handles closed, in the order closed.
pub open spec fn evict(s: Seq<EntryView>, max_files: nat, max_mem: nat) -> (Seq<EntryView>, Seq<u64>)
    decreases s.len(),
{
    if over_limit(s, max_files, max_mem) && first_idle(s) < s.len() {
        let i = first_idle(s) as int;
        let r = evict(s.remove(i), max_files, max_mem);
        (r.0, seq![s[i].handle] + r.1)
    } else {
        (s, Seq::empty())
    }
}

/// One more borrow, saturating at the largest count.
pub open spec fn borrow_once(b: u64) -> u64 {
    if b == u64::MAX {
        b
    } else {
        (b + 1) as u64
    }
}

/// The entry at `i` borrowed once more and moved to the most recently used end.
pub open spec fn touch(s: Seq<EntryView>, i: int) -> Seq<EntryView> {
    s.remove(i).push(EntryView { borrows: borrow_once(s[i].borrows), ..s[i] })
}

/// The state of a cache as plain values.
pub struct CacheView {
    /// Most open textures kept once released ones can be closed.
    pub max_files: nat,
    /// Most memory kept once released textures can be closed; 0 means no limit.
    pub max_mem: nat,
    /// Whether textures are premultiplied by alpha when read.
    pub premultiply: bool,
    /// Colon-separated directories searched for relative paths.
    pub search_path: Seq<char>,
    /// Open textures, least recently used first.
    pub entries: Seq<EntryView>,
}

impl CacheView {
    /// A usable open-file limit, and one entry per key.
    pub open spec fn wf(self) -> bool {
        &&& self.max_files >= 1
        &&& unique_paths(self.entries)
    }

    /// Look `path` up: on a hit the entry is borrowed once more and becomes
    /// the most recently used, and its handle is returned.
    pub open spec fn spec_lookup(self, path: Seq<char>) -> (CacheView, Option<u64>) {
        let i = index_of(self.entries, path);
        if i >= 0 {
            (CacheView { entries: touch(self.entries, i), ..self }, Some(self.entries[i].handle))
        } else {
            (self, None)
        }
    }

    /// Take in a texture opened at `path`, borrowed once, as the most
    /// recently used entry, then close idle entries while over a limit.
    /// Returns the handles to close. When `path` is already held, the held
    /// entry is borrowed instead and the new handle is the one to close.
    pub open spec fn spec_insert(self, path: Seq<char>, handle: u64, memory: nat) -> (
        CacheView,
        Seq<u64>,
    ) {
        let i = index_of(self.entries, path);
        if i >= 0 {
            (CacheView { entries: touch(self.entries, i), ..self }, seq![handle])
        } else {
            let added = self.entries.push(
                EntryView { path, handle, borrows: 1, memory },
            );
            let r = evict(added, self.max_files, self.max_mem);
            (CacheView { entries: r.0, ..self }, r.1)
        }
    }

    /// Give back one borrow of the entry at `path`; false when there is no
    /// such entry or it has no outstanding borrow.
    pub open spec fn spec_release(self, path: Seq<char>) -> (CacheView, bool) {
        let i = index_of(self.entries, path);
        if i >= 0 && self.entries[i].borrows > 0 {
            let e = self.entries[i];
            (
                CacheView {
                    entries: self.entries.update(i, EntryView { borrows: (e.borrows - 1) as u64, ..e }),
                    ..self
                },
                true,
            )
        } else {
            (self, false)
        }
    }
}

/// Memory of the entries without the one at `i` is the total less its memory.
proof fn lemma_total_memory_remove(s: Seq<EntryView>, i: int)
    requires
        0 <= i < s.len(),
    ensures
        total_memory(s.remove(i)) + s[i].memory == total_memory(s),
    decreases s.len(),
{
    if i == s.len() - 1 {
        assert(s.remove(i) =~= s.drop_last());
    } else {
        lemma_total_memory_remove(s.drop_last(), i);
        assert(s.remove(i).drop_last() =~= s.drop_last().remove(i));
        assert(s.remove(i).last() == s.last());
    }
}

/// Each entry holds less than 2^64 bytes, so all of them less than 2^64 per entry.
proof fn lemma_total_memory_bound(s: Seq<EntryView>)
    requires
        forall|i: int| 0 <= i < s.len() ==> (#[trigger] s[i]).memory < 0x1_0000_0000_0000_0000,
    ensures
        total_memory(s) <= s.len() * 0x1_0000_0000_0000_0000,
    decreases s.len(),
{
    if s.len() > 0 {
        lemma_total_memory_bound(s.drop_last());
    }
}

/// Replacing the entry at `i` by one holding the same memory keeps the total.
proof fn lemma_total_memory_update(s: Seq<EntryView>, i: int, e: EntryView)
    requires
        0 <= i < s.len(),
        e.memory == s[i].memory,
    ensures
        total_memory(s.update(i, e)) == total_memory(s),
    decreases s.len(),
{
    if i < s.len() - 1 {
        lemma_total_memory_update(s.drop_last(), i, e);
        assert(s.update(i, e).drop_last() =~= s.drop_last().update(i, e));
    } else {
        assert(s.update(i, e).drop_last() =~= s.drop_last());
    }
}

/// The pieces of a colon-separated list, empty ones included.
pub open spec fn pieces(s: Seq<char>) -> Seq<Seq<char>>
    decreases s.len(),
{
    if s.len() == 0 {
        seq![Seq::<char>::empty()]
    } else {
        let p = pieces(s.drop_last());
        if s.last() == ':' {
            p.push(Seq::<char>::empty())
        } else {
            p.update(p.len() - 1, p.last().push(s.last()))
        }
    }
}

/// The non-empty members of `ps`, in order.
pub open spec fn nonempty(ps: Seq<Seq<char>>) -> Seq<Seq<char>>
    decreases ps.len(),
{
    if ps.len() == 0 {
        Seq::empty()
    } else if ps.last().len() > 0 {
        nonempty(ps.drop_last()).push(ps.last())
    } else {
        nonempty(ps.drop_last())
    }
}

/// The directories of a colon-separated search path; empty entries are skipped.
pub open spec fn search_dirs(search_path: Seq<char>) -> Seq<Seq<char>> {
    nonempty(pieces(search_path))
}

/// The character sequences of a sequence of strings.
pub open spec fn string_views(v: Seq<String>) -> Seq<Seq<char>> {
    v.map_values(|s: String| s@)
}

/// A directory joined to a file name.
pub open spec fn joined(dir: Seq<char>, filename: Seq<char>) -> Seq<char> {
    dir + "/"@ + filename
}

/// Each directory joined to a file name.
pub open spec fn joined_all(dirs: Seq<Seq<char>>, filename: Seq<char>) -> Seq<Seq<char>> {
    dirs.map_values(|d: Seq<char>| joined(d, filename))
}

/// A path that starts at the root is used as it is.
pub open spec fn is_absolute(path: Seq<char>) -> bool {
    path.len() > 0 && path[0] == '/'
}

/// The paths tried, in order, for a file name: each search directory joined
/// to the name. None for an absolute name or an empty search path, where
/// the name is used as it is.
pub open spec fn candidates(search_path: Seq<char>, filename: Seq<char>) -> Seq<Seq<char>> {
    if is_absolute(filename) {
        Seq::empty()
    } else {
        joined_all(search_dirs(search_path), filename)
    }
}

/// Position of the first of the first `n` flags that is set, or `n` when none is
/// (flags past the end of `found` count as unset).
pub open spec fn first_found(found: Seq<bool>, n: nat) -> nat
    decreases n,
{
    if n == 0 {
        0
    } else {
        let k = first_found(found, (n - 1) as nat);
        if k < n - 1 {
            k
        } else if n - 1 < found.len() && found[n - 1] {
            (n - 1) as nat
        } else {
            n
        }
    }
}

/// The reason given when no search directory holds a file.
pub open spec fn not_found_message(filename: Seq<char>) -> Seq<char> {
    "can't find ptex file: "@ + filename
}

proof fn lemma_first_found_stays(found: Seq<bool>, k: nat, n: nat)
    requires
        k < n,
        first_found(found, (k + 1) as nat) == k,
    ensures
        first_found(found, n) == k,
    decreases n,
{
    if n > k + 1 {
        lemma_first_found_stays(found, k, (n - 1) as nat);
    }
}

/// File-handle and memory cache for reading textures.
///
/// Open textures are kept in least-recently-used order. A texture stays in
/// the cache after its borrowers release it, and is only closed when the
/// open-file or memory limit is exceeded; a borrowed texture is never closed.
pub struct Cache {
    max_files: usize,
    max_mem: usize,
    premultiply: bool,
    search_path: String,
    entries: Vec<CacheEntry>,
    mem_in_use: u128,
}

impl View for Cache {
    type V = CacheView;

    closed spec fn view(&self) -> CacheView {
        CacheView {
            max_files: self.max_files as nat,
            max_mem: self.max_mem as nat,
            premultiply: self.premultiply,
            search_path: self.search_path@,
            entries: entries_view(self.entries@),
        }
    }
}

impl Cache {
    /// The cache's bookkeeping agrees with its entries.
    pub closed spec fn wf(&self) -> bool {
        &&& self@.wf()
        &&& self.mem_in_use as nat == total_memory(self@.entries)
    }

    /// A cache with the given limits. `max_files` of zero or less stands for
    /// [`DEFAULT_MAX_FILES`]; `max_mem` of zero means no memory limit.
    /// With `premultiply`, textures are premultiplied by alpha when read.
    pub fn new(max_files: i32, max_mem: usize, premultiply: bool) -> (r: Cache)
        ensures
            r.wf(),
            r@.wf(),
            r@.max_files == (if max_files > 0 {
                max_files as nat
            } else {
                DEFAULT_MAX_FILES as nat
            }),
            r@.max_mem == max_mem,
            r@.premultiply == premultiply,
            r@.search_path == Seq::<char>::empty(),
            r@.entries == Seq::<EntryView>::empty(),
    {
        let files: usize = if max_files > 0 {
            max_files as usize
        } else {
            DEFAULT_MAX_FILES
        };
        let r = Cache {
            max_files: files,
            max_mem,
            premultiply,
            search_path: String::new(),
            entries: Vec::new(),
            mem_in_use: 0,
        };
        assert(r@.entries =~= Seq::<EntryView>::empty());
        r
    }

    /// Position of the entry whose key is `path`.
    fn find(&self, path: &String) -> (r: Option<usize>)
        requires
            self.wf(),
        ensures
            match r {
                Some(i) => i < self@.entries.len() && i as int == index_of(self@.entries, path@),
                None => index_of(self@.entries, path@) == -1,
            },
    {
        let ghost s = self@.entries;
        let mut i: usize = 0;
        while i < self.entries.len()
            invariant
                self.wf(),
                s == self@.entries,
                i <= s.len(),
                forall|k: int| 0 <= k < i ==> s[k].path != path@,
            decreases self.entries.len() - i,
        {
            if self.entries[i].path == *path {
                assert(s[i as int].path == path@);
                let ghost j = index_of(s, path@);
                assert(j == i as int) by {
                    if j != i as int {
                        assert(s[j].path == path@);
                    }
                }
                return Some(i);
            }
            i = i + 1;
        }
        None
    }

    /// Memory held by the open textures, in bytes.
    pub fn memory_in_use(&self) -> (r: u128)
        requires
            self.wf(),
        ensures
            r as nat == total_memory(self@.entries),
    {
        self.mem_in_use
    }

    /// Move the entry at `i` to the most recently used end, borrowed once more.
    fn touch_at(&mut self, i: usize) -> (h: u64)
        requires
            old(self).wf(),
            i < old(self)@.entries.len(),
        ensures
            final(self).wf(),
            final(self)@ == (CacheView { entries: touch(old(self)@.entries, i as int), ..old(self)@ }),
            h == old(self)@.entries[i as int].handle,
    {
        let ghost s = self@.entries;
        let mut e = self.entries.remove(i);
        if e.borrows < u64::MAX {
            e.borrows = e.borrows + 1;
        }
        let h = e.handle;
        self.entries.push(e);
        proof {
            assert(entries_view(self.entries@) =~= touch(s, i as int));
            lemma_total_memory_remove(s, i as int);
            let t = touch(s, i as int);
            assert(t.drop_last() =~= s.remove(i as int));
            assert forall|a: int, b: int| 0 <= a < b < t.len() implies t[a].path != t[b].path by {
                if b == t.len() - 1 {
                    if a < i {
                        assert(s[a].path != s[i as int].path);
                    } else {
                        assert(s[a + 1].path != s[i as int].path);
                    }
                } else {
                    let a2 = if a < i { a } else { a + 1 };
                    let b2 = if b < i { b } else { b + 1 };
                    assert(s[a2].path != s[b2].path);
                }
            }
        }
        h
    }

    /// Position of the least recently used entry with no outstanding borrow,
    /// or the number of entries when every one is borrowed.
    fn first_idle_index(&self) -> (r: usize)
        requires
            self.wf(),
        ensures
            r as nat == first_idle(self@.entries),
    {
        let ghost s = self@.entries;
        let mut j: usize = 0;
        assert(s.subrange(0, s.len() as int) =~= s);
        while j < self.entries.len()
            invariant
                s == self@.entries,
                j <= s.len(),
                first_idle(s) == j + first_idle(s.subrange(j as int, s.len() as int)),
            decreases self.entries.len() - j,
        {
            let ghost t = s.subrange(j as int, s.len() as int);
            assert(t[0] == s[j as int]);
            if self.entries[j].borrows == 0 {
                return j;
            }
            assert(t.drop_first() =~= s.subrange(j + 1, s.len() as int));
            j = j + 1;
        }
        j
    }

    /// Close least recently used idle entries while a limit is exceeded;
    /// returns their handles, in the order closed.
    fn evict_idle(&mut self) -> (closed: Vec<u64>)
        requires
            old(self).wf(),
        ensures
            final(self).wf(),
            final(self)@ == (CacheView {
                entries: evict(old(self)@.entries, old(self)@.max_files, old(self)@.max_mem).0,
                ..old(self)@
            }),
            closed@ == evict(old(self)@.entries, old(self)@.max_files, old(self)@.max_mem).1,
    {
        let ghost v0 = self@;
        let ghost mf = v0.max_files;
        let ghost mm = v0.max_mem;
        assert(self.max_files as nat == mf && self.max_mem as nat == mm);
        let mut closed: Vec<u64> = Vec::new();
        loop
            invariant
                self.wf(),
                self@ == (CacheView { entries: self@.entries, ..v0 }),
                self.max_files as nat == mf,
                self.max_mem as nat == mm,
                evict(v0.entries, mf, mm).0 == evict(self@.entries, mf, mm).0,
                evict(v0.entries, mf, mm).1 == closed@ + evict(self@.entries, mf, mm).1,
            ensures
                self.wf(),
                self@ == (CacheView { entries: self@.entries, ..v0 }),
                evict(v0.entries, mf, mm).0 == self@.entries,
                evict(v0.entries, mf, mm).1 == closed@,
            decreases self.entries.len(),
        {
            let ghost s = self@.entries;
            let over = self.entries.len() > self.max_files || (self.max_mem > 0 && self.mem_in_use
                > self.max_mem as u128);
            if !over {
                assert(!over_limit(s, mf, mm));
                assert(evict(s, mf, mm) == (s, Seq::<u64>::empty()));
                assert(closed@ + Seq::<u64>::empty() =~= closed@);
                break;
            }
            let j = self.first_idle_index();
            if j >= self.entries.len() {
                assert(closed@ + Seq::<u64>::empty() =~= closed@);
                break;
            }
            let e = self.entries.remove(j);
            proof {
                lemma_total_memory_remove(s, j as int);
                assert(entries_view(self.entries@) =~= s.remove(j as int));
            }
            self.mem_in_use = self.mem_in_use - e.memory as u128;
            let ghost before = closed@;
            closed.push(e.handle);
            proof {
                let r = evict(s.remove(j as int), mf, mm);
                assert(before + (seq![e.handle] + r.1) =~= closed@ + r.1);
                let t = s.remove(j as int);
                assert forall|a: int, b: int| 0 <= a < b < t.len() implies t[a].path != t[b].path by {
                    let a2 = if a < j { a } else { a + 1 };
                    let b2 = if b < j { b } else { b + 1 };
                    assert(s[a2].path != s[b2].path);
                }
            }
        }
        closed
    }

    /// Take in a texture just opened at the resolved `path`, with its
    /// handle and the memory it holds. It is borrowed once and becomes the
    /// most recently used; then idle textures are closed, least recently
    /// used first, while a limit is exceeded. Returns the handle to use and
    /// the handles that the caller must close. When `path` is already held,
    /// the held texture is borrowed and used instead, and the caller must
    /// close the new `handle`.
    pub fn insert(&mut self, path: &str, handle: u64, memory: usize) -> (r: (u64, Vec<u64>))
        requires
            old(self).wf(),
        ensures
            final(self).wf(),
            (final(self)@, r.1@) == old(self)@.spec_insert(path@, handle, memory as nat),
            r.0 == (if index_of(old(self)@.entries, path@) >= 0 {
                old(self)@.entries[index_of(old(self)@.entries, path@)].handle
            } else {
                handle
            }),
    {
        let key = String::from_str(path);
        match self.find(&key) {
            Some(i) => {
                let held = self.touch_at(i);
                let mut closed: Vec<u64> = Vec::new();
                closed.push(handle);
                assert(closed@ =~= seq![handle]);
                (held, closed)
            },
            None => {
                let ghost s = self@.entries;
                proof {
                    assert(s.len() == self.entries.len());
                    lemma_total_memory_bound(s);
                    assert(s.len() * 0x1_0000_0000_0000_0000 + memory < 0x1_0000_0000_0000_0000_0000_0000_0000_0000) by (nonlinear_arith)
                        requires
                            s.len() <= usize::MAX,
                            memory <= usize::MAX,
                            usize::MAX < 0x1_0000_0000_0000_0000,
                    ;
                }
                self.entries.push(CacheEntry { path: key, handle, borrows: 1, memory });
                self.mem_in_use = self.mem_in_use + memory as u128;
                proof {
                    let t = s.push(EntryView { path: path@, handle, borrows: 1, memory: memory as nat });
                    assert(entries_view(self.entries@) =~= t);
                    assert(t.drop_last() =~= s);
                    assert forall|k: int| 0 <= k < s.len() implies s[k].path != path@ by {
                        if s[k].path == path@ {
                            assert(exists|i: int| 0 <= i < s.len() && s[i].path == path@);
                        }
                    }
                }
                (handle, self.evict_idle())
            },
        }
    }

    /// Give back one borrow of the texture at the resolved `path`. It stays
    /// open until a limit makes it the one to close. Returns false, changing
    /// nothing, when no texture is held there or none of it is borrowed.
    pub fn release(&mut self, path: &str) -> (r: bool)
        requires
            old(self).wf(),
        ensures
            final(self).wf(),
            (final(self)@, r) == old(self)@.spec_release(path@),
    {
        let key = String::from_str(path);
        match self.find(&key) {
            Some(i) => {
                if self.entries[i].borrows == 0 {
                    return false;
                }
                let ghost s = self@.entries;
                let mut e = self.entries.remove(i);
                e.borrows = e.borrows - 1;
                self.entries.insert(i, e);
                proof {
                    let t = s.update(i as int, EntryView { borrows: (s[i as int].borrows - 1) as u64, ..s[i as int] });
                    assert(entries_view(self.entries@) =~= t);
                    lemma_total_memory_update(s, i as int, t[i as int]);
                }
                true
            },
            None => false,
        }
    }

    /// Whether textures are premultiplied by alpha when read.
    pub fn premultiply(&self) -> (r: bool)
        ensures
            r == self@.premultiply,
    {
        self.premultiply
    }

    /// The colon-separated directories searched for relative file names.
    pub fn search_path(&self) -> (r: String)
        ensures
            r@ == self@.search_path,
    {
        self.search_path.clone()
    }

    /// Replace the search path.
    pub fn set_search_path(&mut self, path: &str)
        requires
            old(self).wf(),
        ensures
            final(self).wf(),
            final(self)@ == (CacheView { search_path: path@, ..old(self)@ }),
    {
        self.search_path = String::from_str(path);
    }

    /// The directories of the search path, in order, without empty entries.
    pub fn search_dirs(&self) -> (r: Vec<String>)
        ensures
            string_views(r@) == search_dirs(self@.search_path),
    {
        let s = self.search_path.as_str();
        let n = s.unicode_len();
        let ghost sv = s@;
        let mut dirs: Vec<String> = Vec::new();
        let mut start: usize = 0;
        let mut i: usize = 0;
        assert(sv.subrange(0, 0) =~= Seq::<char>::empty());
        while i < n
            invariant
                sv == s@,
                n == sv.len(),
                start <= i <= n,
                pieces(sv.subrange(0, i as int)).len() >= 1,
                string_views(dirs@) == nonempty(
                    pieces(sv.subrange(0, i as int)).drop_last(),
                ),
                pieces(sv.subrange(0, i as int)).last() == sv.subrange(start as int, i as int),
            decreases n - i,
        {
            let c = s.get_char(i);
            let ghost p = pieces(sv.subrange(0, i as int));
            let ghost before = string_views(dirs@);
            assert(sv.subrange(0, i + 1).drop_last() =~= sv.subrange(0, i as int));
            assert(sv.subrange(0, i + 1).last() == c);
            if c == ':' {
                if start < i {
                    let d = s.substring_char(start, i);
                    dirs.push(String::from_str(d));
                    assert(string_views(dirs@) =~= before.push(p.last()));
                }
                assert(p.push(Seq::<char>::empty()).drop_last() =~= p);
                start = i + 1;
                assert(sv.subrange(start as int, start as int) =~= Seq::<char>::empty());
            } else {
                assert(p.update(p.len() - 1, p.last().push(c)).drop_last() =~= p.drop_last());
                assert(sv.subrange(start as int, i as int).push(c) =~= sv.subrange(
                    start as int,
                    i + 1,
                ));
            }
            i = i + 1;
        }
        assert(sv.subrange(0, n as int) =~= sv);
        if start < n {
            let ghost before = string_views(dirs@);
            let d = s.substring_char(start, n);
            dirs.push(String::from_str(d));
            assert(string_views(dirs@) =~= before.push(sv.subrange(start as int, n as int)));
        }
        dirs
    }

    /// The paths to try, in order, for `filename`: each search directory
    /// joined to it. Empty when `filename` is absolute or there is no search
    /// directory: the name is then used as it is.
    pub fn candidates(&self, filename: &str) -> (r: Vec<String>)
        ensures
            string_views(r@) == candidates(self@.search_path, filename@),
    {
        let mut r: Vec<String> = Vec::new();
        if filename.unicode_len() > 0 && filename.get_char(0) == '/' {
            assert(string_views(r@) =~= Seq::<Seq<char>>::empty());
            return r;
        }
        let dirs = self.search_dirs();
        let ghost dv = string_views(dirs@);
        let mut i: usize = 0;
        while i < dirs.len()
            invariant
                i <= dirs.len(),
                r@.len() == i,
                dv == string_views(dirs@),
                string_views(r@) == joined_all(dv.subrange(0, i as int), filename@),
            decreases dirs.len() - i,
        {
            let ghost before = r@;
            let p = dirs[i].clone().concat("/").concat(filename);
            assert(p@ == joined(dv[i as int], filename@));
            r.push(p);
            proof {
                let lhs = string_views(r@);
                let rhs = joined_all(dv.subrange(0, i + 1), filename@);
                assert forall|j: int| 0 <= j < i + 1 implies lhs[j] == rhs[j] by {
                    if j < i {
                        assert(r@[j] == before[j]);
                        assert(string_views(before)[j] == joined_all(dv.subrange(0, i as int), filename@)[j]);
                    }
                }
                assert(lhs =~= rhs);
            }
            i = i + 1;
        }
        assert(dv.subrange(0, dirs.len() as int) =~= dv);
        r
    }

    /// The path to open for `filename`, given for each candidate path (see
    /// [`Cache::candidates`]) whether a file exists there. With no candidate
    /// the name is used as it is; otherwise the first candidate that exists
    /// is taken, and when none does the name is rejected.
    pub fn resolve(&self, filename: &str, found: &[bool]) -> (r: Result<String, Error>)
        ensures
            ({
                let c = candidates(self@.search_path, filename@);
                let k = first_found(found@, c.len());
                &&& c.len() == 0 ==> (r matches Ok(p) && p@ == filename@)
                &&& (c.len() > 0 && k < c.len()) ==> (r matches Ok(p) && p@ == c[k as int])
                &&& (c.len() > 0 && k == c.len()) ==> (r matches Err(e) && e@
                    == ErrorView::OpenFailed(filename@, not_found_message(filename@)))
            }),
    {
        let c = self.candidates(filename);
        let ghost cv = string_views(c@);
        if c.len() == 0 {
            return Ok(String::from_str(filename));
        }
        let mut i: usize = 0;
        while i < c.len()
            invariant
                i <= c.len(),
                cv == string_views(c@),
                cv == candidates(self@.search_path, filename@),
                first_found(found@, i as nat) == i,
            decreases c.len() - i,
        {
            if i < found.len() && found[i] {
                proof {
                    assert(first_found(found@, (i + 1) as nat) == i);
                    lemma_first_found_stays(found@, i as nat, c.len() as nat);
                }
                let p = c[i].clone();
                assert(p@ == cv[i as int]);
                return Ok(p);
            }
            i = i + 1;
        }
        Err(Error::OpenFailed(String::from_str(filename), String::from_str("can't find ptex file: ").concat(filename)))
    }

    /// Look a resolved path up. On a hit the texture is borrowed once more,
    /// becomes the most recently used, and its handle is returned; on a miss
    /// nothing changes and the caller opens the texture.
    pub fn lookup(&mut self, path: &str) -> (r: Option<u64>)
        requires
            old(self).wf(),
        ensures
            final(self).wf(),
            (final(self)@, r) == old(self)@.spec_lookup(path@),
    {
        let key = String::from_str(path);
        match self.find(&key) {
            Some(i) => Some(self.touch_at(i)),
            None => None,
        }
    }
}

} // verus!
