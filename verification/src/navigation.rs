//! The folder being browsed: its image files in natural order and the
//! position of the image on screen.
use vstd::prelude::*;
use crate::natural::{natural_sort_order, is_natural_arrangement, string_views};
use crate::paths::{file_name, file_name_of, is_supported_image, is_supported_path};

verus! {

/// The images of one folder and the position of the one on screen.
pub struct FolderNavigator {
    pub files: Vec<String>,
    pub current_index: usize,
    pub current_dir: Option<String>,
}

/// One regular file found in a folder: its path and its canonical form (the
/// path itself when it could not be canonicalized).
pub struct ListedFile {
    pub path: String,
    pub canonical: String,
}

/// A request from the edge buttons.
#[derive(Clone, Copy, Debug, PartialEq, Eq, Structural)]
pub enum NavAction {
    NoAction,
    Prev,
    Next,
}

/// Which way a change of image moves through the folder.
#[derive(Clone, Copy, Debug, PartialEq, Eq, Structural)]
pub enum Direction {
    Backward,
    Forward,
}

/// The position after a step forward, if there is one.
pub open spec fn next_position(len: int, idx: int, wrap: bool) -> Option<int> {
    if len <= 0 {
        None
    } else if idx + 1 < len {
        Some(idx + 1)
    } else if wrap {
        Some(0)
    } else {
        None
    }
}

/// The position after a step backward, if there is one.
pub open spec fn prev_position(len: int, idx: int, wrap: bool) -> Option<int> {
    if len <= 0 {
        None
    } else if idx > 0 {
        Some(idx - 1)
    } else if wrap {
        Some(len - 1)
    } else {
        None
    }
}

/// The characters of an optional string.
pub open spec fn option_view(o: Option<String>) -> Option<Seq<char>> {
    match o {
        Some(s) => Some(s@),
        None => None,
    }
}

/// The key by which a file is ordered: its file name, or nothing.
pub open spec fn name_key(path: Seq<char>) -> Seq<char> {
    match file_name_of(path) {
        Some(name) => name,
        None => Seq::empty(),
    }
}

/// The files of a listing that name supported images, in listing order.
pub open spec fn supported_files(entries: Seq<ListedFile>) -> Seq<ListedFile> {
    entries.filter(|e: ListedFile| is_supported_path(e.path@))
}

/// The ordering keys of a listing.
pub open spec fn listing_keys(entries: Seq<ListedFile>) -> Seq<Seq<char>> {
    entries.map_values(|e: ListedFile| name_key(e.path@))
}

/// Position of the first element of `s` equal to `t`, or -1.
pub open spec fn first_index_of(s: Seq<Seq<char>>, t: Seq<char>) -> int
    decreases s.len(),
{
    if s.len() == 0 {
        -1
    } else if s[0] == t {
        0
    } else {
        let r = first_index_of(s.drop_first(), t);
        if r < 0 {
            -1
        } else {
            r + 1
        }
    }
}

/// The position a scan opens at: the first file whose canonical path is the
/// target's, or the first file.
pub open spec fn opening_position(canonicals: Seq<Seq<char>>, target: Option<Seq<char>>) -> int {
    match target {
        Some(t) => if first_index_of(canonicals, t) >= 0 {
            first_index_of(canonicals, t)
        } else {
            0
        },
        None => 0,
    }
}

/// The prefetch candidate `k` steps ahead.
pub open spec fn forward_candidate(cur: int, total: int, k: int, wrap: bool) -> Option<int> {
    if cur + k < total {
        Some(cur + k)
    } else if wrap {
        Some((cur + k) % total)
    } else {
        None
    }
}

/// The prefetch candidate `k` steps behind. Going back past the first image
/// wraps to the end of the folder; a step longer than the folder wraps to no
/// image.
pub open spec fn backward_candidate(cur: int, total: int, k: int, wrap: bool) -> Option<int> {
    if cur >= k {
        Some(cur - k)
    } else if wrap && k - cur <= total {
        Some(total - (k - cur))
    } else {
        None
    }
}

/// A candidate that names a file of the folder, as a sequence of zero or one positions.
pub open spec fn if_in_folder(c: Option<int>, total: int) -> Seq<int> {
    match c {
        Some(i) => if 0 <= i < total {
            seq![i]
        } else {
            Seq::empty()
        },
        None => Seq::empty(),
    }
}

/// The positions to prefetch around `cur`, in request order: one step ahead,
/// one step behind, two steps ahead, and so on up to `count` steps. Nothing is
/// prefetched in a folder of at most one image.
pub open spec fn prefetch_plan(cur: int, total: int, count: nat, wrap: bool) -> Seq<int>
    decreases count,
{
    if total <= 1 || count == 0 {
        Seq::empty()
    } else {
        prefetch_plan(cur, total, (count - 1) as nat, wrap) + if_in_folder(
            forward_candidate(cur, total, count as int, wrap),
            total,
        ) + if_in_folder(backward_candidate(cur, total, count as int, wrap), total)
    }
}

/// `files[i]` is the path of `entries[p[i]]`.
pub open spec fn arranged_paths(files: Seq<String>, entries: Seq<ListedFile>, p: Seq<usize>) -> bool {
    &&& files.len() == p.len()
    &&& forall|i: int| 0 <= i < p.len() ==> #[trigger] files[i]@ == entries[p[i] as int].path@
}

/// The canonical paths of `entries` in the arrangement `p`.
pub open spec fn arranged_canonicals(entries: Seq<ListedFile>, p: Seq<usize>) -> Seq<Seq<char>> {
    p.map_values(|i: usize| entries[i as int].canonical@)
}

impl FolderNavigator {
    /// Whether the position is on a file of the folder, or the folder is empty.
    pub open spec fn position_valid(&self) -> bool {
        self.files@.len() == 0 || self.current_index < self.files@.len()
    }

    /// An empty navigator.
    pub fn new() -> (nav: FolderNavigator)
        ensures
            nav.files@.len() == 0,
            nav.current_index == 0,
            nav.current_dir is None,
    {
        FolderNavigator { files: Vec::new(), current_index: 0, current_dir: None }
    }

    /// Whether a path names an image that a folder scan keeps.
    pub fn is_supported_image(path: &str) -> (b: bool)
        ensures
            b == is_supported_path(path@),
    {
        is_supported_image(path)
    }

    /// Takes the regular files found in `dir`: keeps those that name supported
    /// images, orders them by the natural order of their file names (equal names
    /// in listing order), and opens at the first file whose canonical path is
    /// `target` (the first file when there is none or no target).
    pub fn apply_listing(&mut self, dir: String, entries: Vec<ListedFile>, target: Option<String>)
        ensures
            final(self).current_dir == Some(dir),
            exists|p: Seq<usize>|
                {
                    &&& is_natural_arrangement(listing_keys(supported_files(entries@)), p)
                    &&& arranged_paths(final(self).files@, supported_files(entries@), p)
                    &&& final(self).current_index == opening_position(
                        arranged_canonicals(supported_files(entries@), p),
                        option_view(target),
                    )
                },
            final(self).position_valid(),
    {
        let mut kept: Vec<ListedFile> = Vec::new();
        let mut keys: Vec<String> = Vec::new();
        for i in 0..entries.len()
            invariant
                kept@ == entries@.subrange(0, i as int).filter(|e: ListedFile| is_supported_path(e.path@)),
                string_views(keys@) == listing_keys(kept@),
                keys@.len() == kept@.len(),
        {
            let ghost old_kept = kept@;
            let ghost old_keys = keys@;
            let keep = is_supported_image(entries[i].path.as_str());
            assert(keep == is_supported_path(entries@[i as int].path@));
            if keep {
                let key = match file_name(entries[i].path.as_str()) {
                    Some(name) => name,
                    None => String::new(),
                };
                assert(key@ == name_key(entries@[i as int].path@));
                let item = ListedFile {
                    path: entries[i].path.clone(),
                    canonical: entries[i].canonical.clone(),
                };
                assert(item == entries@[i as int]);
                kept.push(item);
                keys.push(key);
                proof {
                    reveal_with_fuel(Seq::<_>::filter, 1);
                    assert(entries@.subrange(0, i + 1).drop_last() =~= entries@.subrange(0, i as int));
                    assert(entries@.subrange(0, i + 1).last() == entries@[i as int]);
                    assert(is_supported_path(entries@[i as int].path@));
                    assert(entries@.subrange(0, i + 1).filter(|e: ListedFile| is_supported_path(e.path@)) == old_kept.push(
                        entries@[i as int],
                    ));
                    assert(string_views(keys@) =~= listing_keys(kept@)) by {
                        assert(string_views(old_keys) == listing_keys(old_kept));
                        assert forall|m: int| 0 <= m < keys@.len() implies #[trigger] string_views(
                            keys@,
                        )[m] == listing_keys(kept@)[m] by {
                            if m < old_keys.len() {
                                assert(string_views(old_keys)[m] == listing_keys(old_kept)[m]);
                                assert(keys@[m] == old_keys[m]);
                                assert(kept@[m] == old_kept[m]);
                            } else {
                                assert(keys@[m] == key);
                                assert(kept@[m] == entries@[i as int]);
                            }
                        }
                    }
                }
            } else {
                proof {
                    reveal_with_fuel(Seq::<_>::filter, 1);
                    assert(entries@.subrange(0, i + 1).drop_last() =~= entries@.subrange(0, i as int));
                    assert(entries@.subrange(0, i + 1).last() == entries@[i as int]);
                    assert(!is_supported_path(entries@[i as int].path@));
                    assert(entries@.subrange(0, i + 1).filter(|e: ListedFile| is_supported_path(e.path@)) == old_kept);
                }
            }
        }
        assert(entries@.subrange(0, entries@.len() as int) =~= entries@);
        let p = natural_sort_order(&keys);
        let mut files: Vec<String> = Vec::new();
        let mut index: usize = 0;
        let mut found = false;
        let ghost canon = arranged_canonicals(kept@, p@);
        let ghost t = option_view(target);
        let (has_target, wanted) = match target {
            Some(w) => (true, w),
            None => (false, String::new()),
        };
        for i in 0..p.len()
            invariant
                is_natural_arrangement(string_views(keys@), p@),
                string_views(keys@) == listing_keys(kept@),
                canon == arranged_canonicals(kept@, p@),
                kept@.len() == keys@.len(),
                has_target ==> t == Some(wanted@),
                !has_target ==> t is None,
                files@.len() == i,
                forall|m: int| 0 <= m < i ==> #[trigger] files@[m]@ == kept@[p@[m] as int].path@,
                found ==> (t is Some && index < i && first_index_of(canon, t->0) == index),
                !found ==> index == 0 && (t is Some ==> forall|m: int|
                    0 <= m < i ==> canon[m] != t->0),
        {
            let ghost kv = kept@[p@[i as int] as int];
            files.push(kept[p[i]].path.clone());
            if !found && has_target {
                assert(canon[i as int] == kept@[p@[i as int] as int].canonical@);
                if kept[p[i]].canonical == wanted {
                    proof {
                        lemma_first_index_of_prefix(canon, wanted@, i as int);
                    }
                    found = true;
                    index = i;
                }
            }
        }
        proof {
            if !found && t is Some {
                lemma_first_index_of_absent(canon, t->0);
            }
        }
        self.files = files;
        self.current_index = index;
        self.current_dir = Some(dir);
        assert(arranged_paths(self.files@, supported_files(entries@), p@));
    }

    /// The path of the image on screen, when the position is on a file.
    pub fn current_path(&self) -> (r: Option<&String>)
        ensures
            match r {
                Some(p) => self.current_index < self.files@.len() && *p
                    == self.files@[self.current_index as int],
                None => self.current_index >= self.files@.len(),
            },
    {
        if self.current_index < self.files.len() {
            Some(&self.files[self.current_index])
        } else {
            None
        }
    }

    /// Steps to the next image; past the last one it wraps to the first when
    /// `wrap` is set. Returns the new position, or `None` (nothing changes).
    pub fn next(&mut self, wrap: bool) -> (r: Option<usize>)
        ensures
            match r {
                Some(i) => next_position(old(self).files@.len() as int, old(self).current_index as int, wrap)
                    == Some(i as int) && final(self).current_index == i,
                None => next_position(old(self).files@.len() as int, old(self).current_index as int, wrap)
                    is None && final(self).current_index == old(self).current_index,
            },
            final(self).files == old(self).files,
            final(self).current_dir == old(self).current_dir,
            old(self).position_valid() ==> final(self).position_valid(),
    {
        if self.files.len() == 0 {
            return None;
        }
        if self.current_index < self.files.len() - 1 {
            self.current_index = self.current_index + 1;
            Some(self.current_index)
        } else if wrap {
            self.current_index = 0;
            Some(self.current_index)
        } else {
            None
        }
    }

    /// Steps to the previous image; before the first one it wraps to the last
    /// when `wrap` is set. Returns the new position, or `None` (nothing changes).
    pub fn prev(&mut self, wrap: bool) -> (r: Option<usize>)
        ensures
            match r {
                Some(i) => prev_position(old(self).files@.len() as int, old(self).current_index as int, wrap)
                    == Some(i as int) && final(self).current_index == i,
                None => prev_position(old(self).files@.len() as int, old(self).current_index as int, wrap)
                    is None && final(self).current_index == old(self).current_index,
            },
            final(self).files == old(self).files,
            final(self).current_dir == old(self).current_dir,
            old(self).position_valid() ==> final(self).position_valid(),
    {
        if self.files.len() == 0 {
            return None;
        }
        if self.current_index > 0 {
            self.current_index = self.current_index - 1;
            Some(self.current_index)
        } else if wrap {
            self.current_index = self.files.len() - 1;
            Some(self.current_index)
        } else {
            None
        }
    }

    /// Moves to `index` when it is a position of the folder.
    pub fn jump_to(&mut self, index: usize) -> (r: Option<usize>)
        ensures
            index < old(self).files@.len() ==> r == Some(index) && final(self).current_index == index,
            index >= old(self).files@.len() ==> r is None && final(self).current_index
                == old(self).current_index,
            final(self).files == old(self).files,
            final(self).current_dir == old(self).current_dir,
            old(self).position_valid() ==> final(self).position_valid(),
    {
        if index < self.files.len() {
            self.current_index = index;
            Some(self.current_index)
        } else {
            None
        }
    }

    /// The number of images in the folder.
    pub fn total_count(&self) -> (n: usize)
        ensures
            n == self.files@.len(),
    {
        self.files.len()
    }

    /// Which way a jump to `index` moves.
    pub fn direction_to(&self, index: usize) -> (d: Direction)
        ensures
            d == (if index < self.current_index {
                Direction::Backward
            } else {
                Direction::Forward
            }),
    {
        if index < self.current_index {
            Direction::Backward
        } else {
            Direction::Forward
        }
    }

    /// Whether `path` at `index` is the image on screen.
    pub fn is_current(&self, path: &String, index: usize) -> (b: bool)
        ensures
            b == (self.current_index < self.files@.len() && self.files@[self.current_index as int]@
                == path@ && index == self.current_index),
    {
        self.current_index < self.files.len() && self.files[self.current_index] == *path && index
            == self.current_index
    }

    /// Whether the folder holds `path` at `index`.
    pub fn holds_at(&self, index: usize, path: &String) -> (b: bool)
        ensures
            b == (index < self.files@.len() && self.files@[index as int]@ == path@),
    {
        index < self.files.len() && self.files[index] == *path
    }

    /// The positions to prefetch around the image on screen, `count` steps each
    /// way, in request order (see `prefetch_plan`).
    pub fn prefetch_indices(&self, count: usize, wrap: bool) -> (r: Vec<usize>)
        ensures
            r@.len() == prefetch_plan(
                self.current_index as int,
                self.files@.len() as int,
                count as nat,
                wrap,
            ).len(),
            forall|i: int|
                0 <= i < r@.len() ==> r@[i] as int == #[trigger] prefetch_plan(
                    self.current_index as int,
                    self.files@.len() as int,
                    count as nat,
                    wrap,
                )[i],
    {
        let cur = self.current_index;
        let total = self.files.len();
        let mut r: Vec<usize> = Vec::new();
        if total <= 1 {
            return r;
        }
        let mut k: usize = 0;
        while k < count
            invariant
                total == self.files@.len(),
                cur == self.current_index,
                total > 1,
                k <= count,
                r@.len() == prefetch_plan(cur as int, total as int, k as nat, wrap).len(),
                forall|i: int|
                    0 <= i < r@.len() ==> r@[i] as int == #[trigger] prefetch_plan(
                        cur as int,
                        total as int,
                        k as nat,
                        wrap,
                    )[i],
            decreases count - k,
        {
            k = k + 1;
            let ghost before = r@;
            let ghost prior = prefetch_plan(cur as int, total as int, (k - 1) as nat, wrap);
            let ghost fwd = if_in_folder(forward_candidate(cur as int, total as int, k as int, wrap), total as int);
            let ghost bwd = if_in_folder(backward_candidate(cur as int, total as int, k as int, wrap), total as int);
            if cur < total && k < total - cur {
                r.push(cur + k);
            } else if wrap {
                let a = cur % total;
                let b = k % total;
                let idx = if a >= total - b {
                    a - (total - b)
                } else {
                    a + b
                };
                proof {
                    vstd::arithmetic::div_mod::lemma_add_mod_noop(cur as int, k as int, total as int);
                    if a >= total - b {
                        vstd::arithmetic::div_mod::lemma_mod_sub_multiples_vanish((a + b) as int, total as int);
                        vstd::arithmetic::div_mod::lemma_small_mod((a + b - total) as nat, total as nat);
                    } else {
                        vstd::arithmetic::div_mod::lemma_small_mod((a + b) as nat, total as nat);
                    }
                }
                r.push(idx);
            }
            assert(r@.len() == before.len() + fwd.len());
            if cur >= k {
                if cur - k < total {
                    r.push(cur - k);
                }
            } else if wrap && k - cur <= total {
                r.push(total - (k - cur));
            }
            assert(prefetch_plan(cur as int, total as int, k as nat, wrap) == prior + fwd + bwd);
            assert forall|i: int| 0 <= i < r@.len() implies r@[i] as int == #[trigger] prefetch_plan(
                cur as int,
                total as int,
                k as nat,
                wrap,
            )[i] by {
                if i < before.len() {
                    assert(r@[i] == before[i]);
                }
            }
        }
        r
    }
}

/// The folder to list for a file whose parent path is `parent`: a bare file
/// name has an empty parent and lies in the current folder, `.`.
pub fn listing_folder(parent: &str) -> (folder: String)
    ensures
        folder@ == (if parent@.len() == 0 {
            "."@
        } else {
            parent@
        }),
{
    if parent.unicode_len() == 0 {
        String::from_str(".")
    } else {
        String::from_str(parent)
    }
}

/// Whether the edge buttons may offer navigation: they are enabled and the
/// folder has more than one image.
pub fn edge_navigation_available(enabled: bool, total_files: usize) -> (b: bool)
    ensures
        b == (enabled && total_files > 1),
{
    enabled && total_files > 1
}

/// The position after `k` steps forward with wrapping.
pub open spec fn advance_wrapping(len: int, idx: int, k: nat) -> int
    decreases k,
{
    if k == 0 {
        idx
    } else {
        match next_position(len, advance_wrapping(len, idx, (k - 1) as nat), true) {
            Some(j) => j,
            None => advance_wrapping(len, idx, (k - 1) as nat),
        }
    }
}

/// A step forward followed by a step backward returns to the same image.
pub proof fn lemma_next_then_prev(len: int, idx: int, wrap: bool)
    requires
        0 <= idx < len,
        next_position(len, idx, wrap) is Some,
    ensures
        prev_position(len, next_position(len, idx, wrap)->0, wrap) == Some(idx),
{
}

/// A step backward followed by a step forward returns to the same image.
pub proof fn lemma_prev_then_next(len: int, idx: int, wrap: bool)
    requires
        0 <= idx < len,
        prev_position(len, idx, wrap) is Some,
    ensures
        next_position(len, prev_position(len, idx, wrap)->0, wrap) == Some(idx),
{
}

/// With wrapping, every step forward succeeds and `k` steps forward from a
/// position land `k` places further, counted around the folder.
pub proof fn lemma_advance_wrapping(len: int, idx: int, k: nat)
    requires
        0 <= idx < len,
    ensures
        advance_wrapping(len, idx, k) == (idx + k) % len,
    decreases k,
{
    if k == 0 {
        vstd::arithmetic::div_mod::lemma_small_mod(idx as nat, len as nat);
    } else {
        lemma_advance_wrapping(len, idx, (k - 1) as nat);
        let prev = (idx + k - 1) % len;
        vstd::arithmetic::div_mod::lemma_mod_bound(idx + k - 1, len);
        vstd::arithmetic::div_mod::lemma_add_mod_noop(idx + k - 1, 1, len);
        vstd::arithmetic::div_mod::lemma_mod_bound(idx + k, len);
        if len > 1 {
            vstd::arithmetic::div_mod::lemma_small_mod(1, len as nat);
        }
        if prev + 1 < len {
            vstd::arithmetic::div_mod::lemma_small_mod((prev + 1) as nat, len as nat);
        } else {
            vstd::arithmetic::div_mod::lemma_mod_self_0(len);
        }
    }
}

/// Stepping forward through a whole folder with wrapping comes back to the
/// image it started from.
pub proof fn lemma_full_cycle_returns(len: int, idx: int)
    requires
        0 <= idx < len,
    ensures
        advance_wrapping(len, idx, len as nat) == idx,
{
    lemma_advance_wrapping(len, idx, len as nat);
    vstd::arithmetic::div_mod::lemma_mod_add_multiples_vanish(idx, len);
    vstd::arithmetic::div_mod::lemma_small_mod(idx as nat, len as nat);
}

/// Every position that prefetching asks for is a position of the folder,
/// at most `count` steps away from the current one (counted around the folder).
pub proof fn lemma_prefetch_in_folder(cur: int, total: int, count: nat, wrap: bool)
    requires
        0 <= cur < total,
    ensures
        forall|i: int|
            0 <= i < prefetch_plan(cur, total, count, wrap).len() ==> 0 <= #[trigger] prefetch_plan(
                cur,
                total,
                count,
                wrap,
            )[i] < total,
    decreases count,
{
    if total > 1 && count > 0 {
        lemma_prefetch_in_folder(cur, total, (count - 1) as nat, wrap);
        let prior = prefetch_plan(cur, total, (count - 1) as nat, wrap);
        let fwd = if_in_folder(forward_candidate(cur, total, count as int, wrap), total);
        let bwd = if_in_folder(backward_candidate(cur, total, count as int, wrap), total);
        assert(prefetch_plan(cur, total, count, wrap) == prior + fwd + bwd);
        assert forall|i: int| 0 <= i < (prior + fwd + bwd).len() implies 0 <= #[trigger] (prior + fwd
            + bwd)[i] < total by {
            if i < prior.len() {
                assert((prior + fwd + bwd)[i] == prior[i]);
            } else if i < prior.len() + fwd.len() {
                assert((prior + fwd + bwd)[i] == fwd[i - prior.len()]);
            } else {
                assert((prior + fwd + bwd)[i] == bwd[i - prior.len() - fwd.len()]);
            }
        }
    }
}

/// Opening a file shows that file: when some canonical path of the folder is
/// the target's, the folder opens at a file with that canonical path, and at
/// the first such file.
pub proof fn lemma_opening_position_finds_target(canonicals: Seq<Seq<char>>, target: Seq<char>)
    requires
        canonicals.contains(target),
    ensures
        0 <= opening_position(canonicals, Some(target)) < canonicals.len(),
        canonicals[opening_position(canonicals, Some(target))] == target,
        forall|m: int| 0 <= m < opening_position(canonicals, Some(target)) ==> canonicals[m] != target,
{
    lemma_first_index_of_found(canonicals, target);
}

/// When `t` occurs in `s`, `first_index_of` finds its first occurrence.
proof fn lemma_first_index_of_found(s: Seq<Seq<char>>, t: Seq<char>)
    requires
        s.contains(t),
    ensures
        0 <= first_index_of(s, t) < s.len(),
        s[first_index_of(s, t)] == t,
        forall|m: int| 0 <= m < first_index_of(s, t) ==> s[m] != t,
    decreases s.len(),
{
    if s[0] != t {
        let j = choose|j: int| 0 <= j < s.len() && s[j] == t;
        assert(s.drop_first()[j - 1] == t);
        lemma_first_index_of_found(s.drop_first(), t);
        let r = first_index_of(s.drop_first(), t);
        assert forall|m: int| 0 <= m < r + 1 implies s[m] != t by {
            if m > 0 {
                assert(s[m] == s.drop_first()[m - 1]);
            }
        }
    }
}

/// If `s[i] == t` and no earlier element is `t`, the first index of `t` is `i`.
proof fn lemma_first_index_of_prefix(s: Seq<Seq<char>>, t: Seq<char>, i: int)
    requires
        0 <= i < s.len(),
        s[i] == t,
        forall|m: int| 0 <= m < i ==> s[m] != t,
    ensures
        first_index_of(s, t) == i,
    decreases i,
{
    if i > 0 {
        lemma_first_index_of_prefix(s.drop_first(), t, i - 1);
    }
}

/// If no element is `t`, the first index of `t` is -1.
proof fn lemma_first_index_of_absent(s: Seq<Seq<char>>, t: Seq<char>)
    requires
        forall|m: int| 0 <= m < s.len() ==> s[m] != t,
    ensures
        first_index_of(s, t) == -1,
    decreases s.len(),
{
    if s.len() > 0 {
        lemma_first_index_of_absent(s.drop_first(), t);
    }
}

} // verus!
