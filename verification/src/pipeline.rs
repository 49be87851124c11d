//! Scheduling of background image loads: which requests are queued, which
//! results still matter, and how many workers run.
use vstd::prelude::*;
use crate::natural::string_views;
use crate::navigation::FolderNavigator;

verus! {

/// How urgently a full image is wanted.
#[derive(Clone, Copy, Debug, PartialEq, Eq, Structural)]
pub enum Priority {
    Immediate,
    ImmediateWithPreview,
    Prefetch,
}

/// The queue a full-image task goes to.
#[derive(Clone, Copy, Debug, PartialEq, Eq, Structural)]
pub enum TaskQueue {
    Immediate,
    Prefetch,
}

/// A request to decode a full image.
pub struct FullImageTask {
    pub path: String,
    pub index: usize,
    pub epoch: u64,
    pub priority: Priority,
}

/// A request to make a thumbnail.
pub struct ThumbnailTask {
    pub path: String,
    pub index: usize,
    pub max_dim: u32,
}

/// The epoch a loader starts in.
pub const FIRST_EPOCH: u64 = 1;

/// How many thumbnail tasks may wait at once.
pub const THUMBNAIL_QUEUE_CAPACITY: usize = 64;

/// The paths whose work has been queued and not yet finished; no path occurs twice.
pub struct PendingSet {
    paths: Vec<String>,
}

impl View for PendingSet {
    type V = Set<Seq<char>>;

    closed spec fn view(&self) -> Set<Seq<char>> {
        string_views(self.paths@).to_set()
    }
}

impl PendingSet {
    /// The stored paths are distinct.
    #[verifier::type_invariant]
    spec fn wf(self) -> bool {
        string_views(self.paths@).no_duplicates()
    }

    /// An empty set.
    pub fn new() -> (s: PendingSet)
        ensures
            s@ == Set::<Seq<char>>::empty(),
    {
        let s = PendingSet { paths: Vec::new() };
        assert(string_views(s.paths@).to_set() =~= Set::<Seq<char>>::empty());
        s
    }

    /// Position of `path` among the stored paths.
    fn position(&self, path: &String) -> (r: Option<usize>)
        ensures
            match r {
                Some(i) => i < self.paths@.len() && self.paths@[i as int]@ == path@,
                None => !string_views(self.paths@).contains(path@),
            },
    {
        let mut i: usize = 0;
        while i < self.paths.len()
            invariant
                i <= self.paths@.len(),
                forall|j: int| 0 <= j < i ==> self.paths@[j]@ != path@,
            decreases self.paths@.len() - i,
        {
            if self.paths[i] == *path {
                return Some(i);
            }
            i = i + 1;
        }
        proof {
            if string_views(self.paths@).contains(path@) {
                let j = choose|j: int| 0 <= j < self.paths@.len() && string_views(self.paths@)[j] == path@;
                assert(self.paths@[j]@ == path@);
            }
        }
        None
    }

    /// Whether `path` is pending.
    pub fn contains(&self, path: &String) -> (b: bool)
        ensures
            b == self@.contains(path@),
    {
        let r = self.position(path);
        proof {
            if let Some(i) = r {
                assert(string_views(self.paths@)[i as int] == path@);
            }
        }
        r.is_some()
    }

    /// Adds `path`; answers whether it was absent.
    pub fn insert(&mut self, path: String) -> (added: bool)
        ensures
            final(self)@ == old(self)@.insert(path@),
            added == !old(self)@.contains(path@),
    {
        proof {
            use_type_invariant(&*self);
        }
        let r = self.position(&path);
        match r {
            Some(i) => {
                proof {
                    assert(string_views(self.paths@)[i as int] == path@);
                    assert(self@.insert(path@) =~= self@);
                }
                false
            },
            None => {
                let ghost before = string_views(self.paths@);
                let mut paths: Vec<String> = Vec::new();
                std::mem::swap(&mut paths, &mut self.paths);
                paths.push(path);
                proof {
                    assert(string_views(paths@) =~= before.push(path@));
                    assert(string_views(paths@).to_set() =~= before.to_set().insert(path@)) by {
                        assert forall|x: Seq<char>| string_views(paths@).to_set().contains(x)
                            <==> before.to_set().insert(path@).contains(x) by {
                            if x != path@ && string_views(paths@).contains(x) {
                                let j = choose|j: int| 0 <= j < string_views(paths@).len()
                                    && string_views(paths@)[j] == x;
                                assert(before[j] == x);
                            }
                            if before.contains(x) {
                                let j = choose|j: int| 0 <= j < before.len() && before[j] == x;
                                assert(string_views(paths@)[j] == x);
                            }
                            if x == path@ {
                                assert(string_views(paths@)[before.len() as int] == x);
                            }
                        }
                    }
                }
                self.paths = paths;
                true
            },
        }
    }

    /// Removes `path`; answers whether it was present.
    pub fn remove(&mut self, path: &String) -> (removed: bool)
        ensures
            final(self)@ == old(self)@.remove(path@),
            removed == old(self)@.contains(path@),
    {
        proof {
            use_type_invariant(&*self);
        }
        let r = self.position(path);
        match r {
            Some(i) => {
                let ghost before = string_views(self.paths@);
                let mut paths: Vec<String> = Vec::new();
                std::mem::swap(&mut paths, &mut self.paths);
                paths.remove(i);
                proof {
                    let after = string_views(paths@);
                    assert(after =~= before.remove(i as int));
                    assert(before[i as int] == path@);
                    assert(after.to_set() =~= before.to_set().remove(path@)) by {
                        assert forall|x: Seq<char>| after.to_set().contains(x)
                            <==> before.to_set().remove(path@).contains(x) by {
                            if after.contains(x) {
                                let j = choose|j: int| 0 <= j < after.len() && after[j] == x;
                                if j < i {
                                    assert(before[j] == x);
                                } else {
                                    assert(before[j + 1] == x);
                                }
                            }
                            if x != path@ && before.contains(x) {
                                let j = choose|j: int| 0 <= j < before.len() && before[j] == x;
                                if j < i {
                                    assert(after[j] == x);
                                } else if j > i {
                                    assert(after[j - 1] == x);
                                }
                            }
                        }
                    }
                    assert(after.no_duplicates()) by {
                        assert forall|a: int, b: int| 0 <= a < after.len() && 0 <= b < after.len() && a != b
                            implies after[a] != after[b] by {
                            let oa = if a < i { a } else { a + 1 };
                            let ob = if b < i { b } else { b + 1 };
                            assert(after[a] == before[oa]);
                            assert(after[b] == before[ob]);
                        }
                    }
                }
                self.paths = paths;
                true
            },
            None => {
                assert(self@.remove(path@) =~= self@);
                false
            },
        }
    }

    /// Forgets every path.
    pub fn clear(&mut self)
        ensures
            final(self)@ == Set::<Seq<char>>::empty(),
    {
        self.paths = Vec::new();
        assert(string_views(self.paths@).to_set() =~= Set::<Seq<char>>::empty());
    }
}

/// The queue that serves a priority: both immediate kinds share one queue.
pub fn task_queue(priority: Priority) -> (q: TaskQueue)
    ensures
        q == (if priority == Priority::Prefetch {
            TaskQueue::Prefetch
        } else {
            TaskQueue::Immediate
        }),
{
    match priority {
        Priority::Prefetch => TaskQueue::Prefetch,
        _ => TaskQueue::Immediate,
    }
}

/// Whether a full-image request is queued: every request is, except a
/// prefetch of a path already pending.
pub open spec fn full_request_queued(pending: Set<Seq<char>>, path: Seq<char>, priority: Priority) -> bool {
    !(priority == Priority::Prefetch && pending.contains(path))
}

/// Whether a thumbnail request is queued: only when its path is not pending.
pub open spec fn thumbnail_request_queued(pending: Set<Seq<char>>, path: Seq<char>) -> bool {
    !pending.contains(path)
}

/// Records a full-image request that the cache could not answer and returns
/// the task to queue, if any. The path becomes pending. A prefetch of a path
/// already pending is dropped; an immediate request is always queued.
pub fn plan_full_request(
    pending: &mut PendingSet,
    path: String,
    index: usize,
    priority: Priority,
    epoch: u64,
) -> (task: Option<FullImageTask>)
    ensures
        final(pending)@ == old(pending)@.insert(path@),
        !full_request_queued(old(pending)@, path@, priority) ==> task is None,
        !old(pending)@.contains(path@) ==> task is Some,
        priority != Priority::Prefetch ==> task is Some,
        (priority == Priority::Prefetch && old(pending)@.contains(path@)) ==> task is None,
        full_request_queued(old(pending)@, path@, priority) ==> (task matches Some(
            t,
        ) && t.path@ == path@ && t.index == index && t.epoch == epoch && t.priority == priority),
{
    let added = pending.insert(path.clone());
    if priority == Priority::Prefetch && !added {
        None
    } else {
        Some(FullImageTask { path, index, epoch, priority })
    }
}

/// Records a thumbnail request that the cache could not answer and returns
/// the task to queue: none when the path is already pending.
pub fn plan_thumbnail_request(pending: &mut PendingSet, path: String, index: usize, max_dim: u32) -> (task:
    Option<ThumbnailTask>)
    ensures
        final(pending)@ == old(pending)@.insert(path@),
        !thumbnail_request_queued(old(pending)@, path@) ==> task is None,
        (task is Some) == !old(pending)@.contains(path@),
        thumbnail_request_queued(old(pending)@, path@) ==> (task matches Some(t) && t.path@ == path@ && t.index
            == index && t.max_dim == max_dim),
{
    let added = pending.insert(path.clone());
    if added {
        Some(ThumbnailTask { path, index, max_dim })
    } else {
        None
    }
}

/// Starts a new epoch: the returned epoch follows the previous one, and the
/// pending full-image paths are forgotten.
pub fn begin_epoch(previous: u64, pending_full: &mut PendingSet) -> (epoch: u64)
    requires
        previous < u64::MAX,
    ensures
        epoch == previous + 1,
        final(pending_full)@ == Set::<Seq<char>>::empty(),
{
    pending_full.clear();
    previous + 1
}

/// A task made in an earlier epoch is obsolete and is dropped.
pub fn task_is_stale(task_epoch: u64, current_epoch: u64) -> (b: bool)
    ensures
        b == (task_epoch < current_epoch),
{
    task_epoch < current_epoch
}

/// A decoded full image is shown only when it belongs to the current epoch
/// and is the image on screen, at the same position.
pub fn full_result_applies(
    epoch: u64,
    current_epoch: u64,
    nav: &FolderNavigator,
    path: &String,
    index: usize,
) -> (b: bool)
    ensures
        b == (epoch == current_epoch && nav.current_index < nav.files@.len()
            && nav.files@[nav.current_index as int]@ == path@ && index == nav.current_index),
{
    epoch == current_epoch && nav.is_current(path, index)
}

/// A thumbnail is kept only when the folder still holds its path at its position.
pub fn thumbnail_result_applies(nav: &FolderNavigator, path: &String, index: usize) -> (b: bool)
    ensures
        b == (index < nav.files@.len() && nav.files@[index as int]@ == path@),
{
    nav.holds_at(index, path)
}

/// What a full-image worker does with a task it took.
#[derive(Clone, Copy, Debug, PartialEq, Eq, Structural)]
pub enum FullTaskStep {
    /// The task is from an earlier epoch: forget it.
    Drop,
    /// The image is cached: send the cached image.
    SendCached,
    /// Decode the image, sending a quick preview first.
    DecodeWithPreview,
    /// Decode the image.
    Decode,
}

/// The step for a full-image task: stale tasks are dropped first, then a
/// cached image is sent as it is, and otherwise the image is decoded, with a
/// preview when the request asked for one.
pub fn full_task_step(task_epoch: u64, current_epoch: u64, cached: bool, priority: Priority) -> (step:
    FullTaskStep)
    ensures
        step == spec_full_task_step(task_epoch, current_epoch, cached, priority),
        (step == FullTaskStep::Drop) == (task_epoch < current_epoch),
        (step == FullTaskStep::SendCached) == (task_epoch >= current_epoch && cached),
        (step == FullTaskStep::DecodeWithPreview) == (task_epoch >= current_epoch && !cached
            && priority == Priority::ImmediateWithPreview),
        (step == FullTaskStep::Decode) == (task_epoch >= current_epoch && !cached && priority
            != Priority::ImmediateWithPreview),
{
    if task_is_stale(task_epoch, current_epoch) {
        FullTaskStep::Drop
    } else if cached {
        FullTaskStep::SendCached
    } else if priority == Priority::ImmediateWithPreview {
        FullTaskStep::DecodeWithPreview
    } else {
        FullTaskStep::Decode
    }
}

/// One thing a full-image worker does for a task, in the order given.
#[derive(Clone, Copy, Debug, PartialEq, Eq, Structural)]
pub enum WorkerAction {
    /// Put the decoded image into the full-image cache.
    CacheImage,
    /// Send the task's result: the cached image, the decoded image or the error.
    SendResult,
    /// Take the task's path out of the pending set.
    ForgetPending,
    /// Make the image's thumbnail from the cache, if the cache has none yet.
    MakeThumbnail,
}

/// What a full-image worker does after taking the step `step` for a task:
/// a stale task is only forgotten; a cached image is sent and forgotten; a
/// decoded image is cached, then sent, forgotten and given a thumbnail, and a
/// failed decode is sent, forgotten and offered a thumbnail in the same way.
pub open spec fn full_task_plan(step: FullTaskStep, decoded_ok: bool) -> Seq<WorkerAction> {
    match step {
        FullTaskStep::Drop => seq![WorkerAction::ForgetPending],
        FullTaskStep::SendCached => seq![WorkerAction::SendResult, WorkerAction::ForgetPending],
        _ => if decoded_ok {
            seq![
                WorkerAction::CacheImage,
                WorkerAction::SendResult,
                WorkerAction::ForgetPending,
                WorkerAction::MakeThumbnail,
            ]
        } else {
            seq![WorkerAction::SendResult, WorkerAction::ForgetPending, WorkerAction::MakeThumbnail]
        },
    }
}

/// The actions of a full-image worker for a task, in order (see `full_task_plan`);
/// `decoded_ok` tells whether a decode it made succeeded.
pub fn full_task_actions(step: FullTaskStep, decoded_ok: bool) -> (actions: Vec<WorkerAction>)
    ensures
        actions@ == full_task_plan(step, decoded_ok),
{
    match step {
        FullTaskStep::Drop => vec![WorkerAction::ForgetPending],
        FullTaskStep::SendCached => vec![WorkerAction::SendResult, WorkerAction::ForgetPending],
        _ => if decoded_ok {
            vec![
                WorkerAction::CacheImage,
                WorkerAction::SendResult,
                WorkerAction::ForgetPending,
                WorkerAction::MakeThumbnail,
            ]
        } else {
            vec![WorkerAction::SendResult, WorkerAction::ForgetPending, WorkerAction::MakeThumbnail]
        },
    }
}

/// The step `full_task_step` takes for a task.
pub open spec fn spec_full_task_step(task_epoch: u64, current_epoch: u64, cached: bool, priority: Priority) -> FullTaskStep {
    if task_epoch < current_epoch {
        FullTaskStep::Drop
    } else if cached {
        FullTaskStep::SendCached
    } else if priority == Priority::ImmediateWithPreview {
        FullTaskStep::DecodeWithPreview
    } else {
        FullTaskStep::Decode
    }
}

/// The plan sends no result.
pub open spec fn sends_no_result(plan: Seq<WorkerAction>) -> bool {
    forall|i: int| 0 <= i < plan.len() ==> plan[i] != WorkerAction::SendResult
}

/// The plan sends exactly one result, at position `k`.
pub open spec fn sends_one_result_at(plan: Seq<WorkerAction>, k: int) -> bool {
    &&& 0 <= k < plan.len()
    &&& plan[k] == WorkerAction::SendResult
    &&& forall|j: int| 0 <= j < plan.len() && j != k ==> plan[j] != WorkerAction::SendResult
}

/// A task from an earlier epoch gets no result; every other task gets exactly
/// one; in either case its path leaves the pending set. A decoded image is in
/// the cache before its result is sent.
pub proof fn lemma_one_result_per_task(
    task_epoch: u64,
    current_epoch: u64,
    cached: bool,
    priority: Priority,
    decoded_ok: bool,
)
    ensures
        task_epoch < current_epoch ==> sends_no_result(
            full_task_plan(spec_full_task_step(task_epoch, current_epoch, cached, priority), decoded_ok),
        ),
        task_epoch >= current_epoch ==> exists|k: int|
            sends_one_result_at(
                full_task_plan(spec_full_task_step(task_epoch, current_epoch, cached, priority), decoded_ok),
                k,
            ),
        full_task_plan(spec_full_task_step(task_epoch, current_epoch, cached, priority), decoded_ok).contains(
            WorkerAction::ForgetPending,
        ),
        (task_epoch >= current_epoch && !cached && decoded_ok) ==> full_task_plan(
            spec_full_task_step(task_epoch, current_epoch, cached, priority),
            decoded_ok,
        ).subrange(0, 2) == seq![WorkerAction::CacheImage, WorkerAction::SendResult],
{
    let plan = full_task_plan(spec_full_task_step(task_epoch, current_epoch, cached, priority), decoded_ok);
    if task_epoch < current_epoch {
        assert(plan =~= seq![WorkerAction::ForgetPending]);
        assert(plan[0] == WorkerAction::ForgetPending);
    } else if cached {
        assert(plan =~= seq![WorkerAction::SendResult, WorkerAction::ForgetPending]);
        assert(sends_one_result_at(plan, 0));
        assert(plan[1] == WorkerAction::ForgetPending);
    } else if decoded_ok {
        assert(plan =~= seq![
            WorkerAction::CacheImage,
            WorkerAction::SendResult,
            WorkerAction::ForgetPending,
            WorkerAction::MakeThumbnail,
        ]);
        assert(sends_one_result_at(plan, 1));
        assert(plan[2] == WorkerAction::ForgetPending);
        assert(plan.subrange(0, 2) =~= seq![WorkerAction::CacheImage, WorkerAction::SendResult]);
    } else {
        assert(plan =~= seq![
            WorkerAction::SendResult,
            WorkerAction::ForgetPending,
            WorkerAction::MakeThumbnail,
        ]);
        assert(sends_one_result_at(plan, 0));
        assert(plan[1] == WorkerAction::ForgetPending);
    }
}

/// Where a thumbnail worker gets a thumbnail from.
#[derive(Clone, Copy, Debug, PartialEq, Eq, Structural)]
pub enum ThumbnailSource {
    /// The thumbnail cache already holds it.
    Cached,
    /// Scale down the cached full image.
    FromFullImage,
    /// Decode the file.
    DecodeFile,
}

/// The source of a thumbnail: the thumbnail cache first, then the cached full
/// image, and only otherwise the file.
pub fn thumbnail_source(thumbnail_cached: bool, full_cached: bool) -> (s: ThumbnailSource)
    ensures
        s == (if thumbnail_cached {
            ThumbnailSource::Cached
        } else if full_cached {
            ThumbnailSource::FromFullImage
        } else {
            ThumbnailSource::DecodeFile
        }),
{
    if thumbnail_cached {
        ThumbnailSource::Cached
    } else if full_cached {
        ThumbnailSource::FromFullImage
    } else {
        ThumbnailSource::DecodeFile
    }
}

/// What the viewer does to show the image at the current position.
#[derive(Clone, Copy, Debug, PartialEq, Eq, Structural)]
pub enum LoadStep {
    /// The folder has no image at the position: show nothing.
    ShowNothing,
    /// Show the cached image at once and prefetch its neighbours.
    ShowCached,
    /// Ask the loader for the image at once and wait for it.
    RequestImmediate,
}

/// The step for showing the current image: nothing without a current image,
/// the cached image when there is one, and otherwise an immediate request.
pub fn load_step(has_current: bool, cached: bool) -> (step: LoadStep)
    ensures
        step == (if !has_current {
            LoadStep::ShowNothing
        } else if cached {
            LoadStep::ShowCached
        } else {
            LoadStep::RequestImmediate
        }),
{
    if !has_current {
        LoadStep::ShowNothing
    } else if cached {
        LoadStep::ShowCached
    } else {
        LoadStep::RequestImmediate
    }
}

/// The number of full-image workers: half the threads, at least one, at most two.
pub fn full_worker_count(num_threads: usize) -> (n: usize)
    ensures
        n == (if num_threads / 2 < 1 {
            1
        } else if num_threads / 2 > 2 {
            2
        } else {
            num_threads / 2
        }),
        1 <= n <= 2,
{
    let half = num_threads / 2;
    if half < 1 {
        1
    } else if half > 2 {
        2
    } else {
        half
    }
}

/// The number of thumbnail workers: a quarter of the threads, at least one,
/// at most two.
pub fn thumbnail_worker_count(num_threads: usize) -> (n: usize)
    ensures
        n == (if num_threads / 4 < 1 {
            1
        } else if num_threads / 4 > 2 {
            2
        } else {
            num_threads / 4
        }),
        1 <= n <= 2,
{
    let quarter = num_threads / 4;
    if quarter < 1 {
        1
    } else if quarter > 2 {
        2
    } else {
        quarter
    }
}

/// Whether full-image worker `worker_index` of `full_workers` also takes
/// prefetch work. Every worker but the last is kept for images the user opened.
pub fn worker_takes_prefetch(worker_index: usize, full_workers: usize) -> (b: bool)
    ensures
        b == !(worker_index + 1 < full_workers),
{
    full_workers == 0 || worker_index >= full_workers - 1
}

/// The size limit of the quick preview made while a full image decodes: the
/// thumbnail size, but at least 512.
pub fn preview_max_dim(thumbnail_size: u32) -> (d: u32)
    ensures
        d == (if thumbnail_size < 512 {
            512
        } else {
            thumbnail_size
        }),
{
    if thumbnail_size < 512 {
        512
    } else {
        thumbnail_size
    }
}

/// Which work a full-image worker does is decided by the task alone: a task
/// from an earlier epoch is dropped; otherwise a cached image is sent; otherwise
/// the image is decoded, with a preview exactly when the request asked for one.
pub proof fn lemma_task_steps(task_epoch: u64, current_epoch: u64, cached: bool, priority: Priority)
    ensures
        (spec_full_task_step(task_epoch, current_epoch, cached, priority) == FullTaskStep::Drop)
            == (task_epoch < current_epoch),
        (spec_full_task_step(task_epoch, current_epoch, cached, priority) == FullTaskStep::SendCached)
            == (task_epoch >= current_epoch && cached),
        task_epoch >= current_epoch && !cached ==> ((spec_full_task_step(
            task_epoch,
            current_epoch,
            cached,
            priority,
        ) == FullTaskStep::DecodeWithPreview) == (priority == Priority::ImmediateWithPreview)),
        task_epoch >= current_epoch && !cached ==> (spec_full_task_step(
            task_epoch,
            current_epoch,
            cached,
            priority,
        ) == FullTaskStep::Decode || spec_full_task_step(task_epoch, current_epoch, cached, priority)
            == FullTaskStep::DecodeWithPreview),
{
}

/// A request for a path that is not pending is always queued, whatever other
/// paths are pending; a request the user made is queued even when its path is
/// pending; only a prefetch of a pending path is dropped.
pub proof fn lemma_requests_for_new_paths_queued(pending: Set<Seq<char>>, path: Seq<char>, priority: Priority)
    ensures
        !pending.contains(path) ==> full_request_queued(pending, path, priority),
        !pending.contains(path) ==> thumbnail_request_queued(pending, path),
        priority != Priority::Prefetch ==> full_request_queued(pending, path, priority),
        pending.contains(path) ==> !full_request_queued(pending, path, Priority::Prefetch),
        pending.contains(path) ==> !thumbnail_request_queued(pending, path),
{
}

/// A second thumbnail request for a path is not queued while the first is pending.
pub proof fn lemma_duplicate_thumbnail_not_queued(pending: Set<Seq<char>>, path: Seq<char>)
    ensures
        !thumbnail_request_queued(pending.insert(path), path),
{
}

/// Once a thumbnail's work completes (its path leaves the pending set), a new
/// request for it is queued again.
pub proof fn lemma_completed_thumbnail_queued_again(pending: Set<Seq<char>>, path: Seq<char>)
    ensures
        thumbnail_request_queued(pending.insert(path).remove(path), path),
{
}

/// A second prefetch of a path is not queued while the first is pending, but
/// a request for an image the user opened always is.
pub proof fn lemma_duplicate_prefetch_not_queued(pending: Set<Seq<char>>, path: Seq<char>, priority: Priority)
    ensures
        !full_request_queued(pending.insert(path), path, Priority::Prefetch),
        priority != Priority::Prefetch ==> full_request_queued(pending.insert(path), path, priority),
{
}

/// After a new epoch begins, every task made before it is stale, and since
/// the pending set was emptied, a prefetch of any path is queued again.
pub proof fn lemma_new_epoch(previous: u64, task_epoch: u64, path: Seq<char>)
    requires
        task_epoch <= previous < u64::MAX,
    ensures
        task_epoch < previous + 1,
        full_request_queued(Set::<Seq<char>>::empty(), path, Priority::Prefetch),
{
}

} // verus!
