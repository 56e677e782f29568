//! The build queue: one first-in first-out queue of builds per project, and
//! the build each project is processing, so that a project's builds run one
//! after another while different projects run side by side.
use vstd::prelude::*;

verus! {

/// The queued builds of one project.
pub open spec fn queue_of(queues: Map<i64, Seq<i64>>, project_id: i64) -> Seq<i64> {
    if queues.contains_key(project_id) {
        queues[project_id]
    } else {
        seq![]
    }
}

/// The queues once `build_id` is queued for `project_id`: at the end of its queue.
pub open spec fn enqueued(queues: Map<i64, Seq<i64>>, project_id: i64, build_id: i64) -> Map<i64, Seq<i64>> {
    queues.insert(project_id, queue_of(queues, project_id).push(build_id))
}

/// The build a dequeue takes for `project_id` (the oldest queued), and the
/// queues after it.
pub open spec fn dequeued(queues: Map<i64, Seq<i64>>, project_id: i64) -> (Option<i64>, Map<i64, Seq<i64>>) {
    let q = queue_of(queues, project_id);
    if q.len() > 0 {
        (Some(q[0]), queues.insert(project_id, q.drop_first()))
    } else {
        (None, queues)
    }
}

/// Builds waiting and running, per project.
pub struct BuildQueue {
    /// Each project that ever had a build queued, with its queue (oldest first).
    queues: Vec<(i64, Vec<i64>)>,
    /// Each project processing a build, with that build.
    processing: Vec<(i64, i64)>,
}

/// The keys of a list of pairs.
pub open spec fn keys_of<V>(v: Seq<(i64, V)>) -> Seq<i64> {
    v.map_values(|p: (i64, V)| p.0)
}

impl BuildQueue {
    /// Each project occurs once in each list.
    pub closed spec fn wf(&self) -> bool {
        &&& keys_of(self.queues@).no_duplicates()
        &&& keys_of(self.processing@).no_duplicates()
    }

    /// The queues, per project.
    pub closed spec fn queues_view(&self) -> Map<i64, Seq<i64>> {
        Map::new(
            |k: i64| keys_of(self.queues@).contains(k),
            |k: i64| self.queues@[keys_of(self.queues@).index_of(k)].1@,
        )
    }

    /// The build each processing project is running.
    pub closed spec fn processing_view(&self) -> Map<i64, i64> {
        Map::new(
            |k: i64| keys_of(self.processing@).contains(k),
            |k: i64| self.processing@[keys_of(self.processing@).index_of(k)].1,
        )
    }

    /// An empty queue, processing nothing.
    pub fn new() -> (r: BuildQueue)
        ensures
            r.wf(),
            r.queues_view() == Map::<i64, Seq<i64>>::empty(),
            r.processing_view() == Map::<i64, i64>::empty(),
    {
        let r = BuildQueue { queues: Vec::new(), processing: Vec::new() };
        assert(keys_of(r.queues@) =~= Seq::<i64>::empty());
        assert(keys_of(r.processing@) =~= Seq::<i64>::empty());
        assert(r.queues_view() =~= Map::<i64, Seq<i64>>::empty());
        assert(r.processing_view() =~= Map::<i64, i64>::empty());
        r
    }
}

/// The position of `k` among the keys of `v`.
fn position<V>(v: &Vec<(i64, V)>, k: i64) -> (r: Option<usize>)
    requires
        keys_of(v@).no_duplicates(),
    ensures
        match r {
            Some(i) => i < v@.len() && v@[i as int].0 == k && keys_of(v@).index_of(k) == i,
            None => !keys_of(v@).contains(k),
        },
{
    let mut i: usize = 0;
    while i < v.len()
        invariant
            i <= v@.len(),
            keys_of(v@).no_duplicates(),
            forall|j: int| 0 <= j < i ==> v@[j].0 != k,
        decreases v@.len() - i,
    {
        if v[i].0 == k {
            proof {
                assert(keys_of(v@)[i as int] == k);
                assert(keys_of(v@).contains(k));
                let j = keys_of(v@).index_of(k);
                assert(0 <= j < keys_of(v@).len() && keys_of(v@)[j] == k);
                if j != i {
                    assert(keys_of(v@)[j] != keys_of(v@)[i as int]);
                }
            }
            return Some(i);
        }
        i = i + 1;
    }
    proof {
        if keys_of(v@).contains(k) {
            let j = choose|j: int| 0 <= j < keys_of(v@).len() && keys_of(v@)[j] == k;
            assert(v@[j].0 == k);
        }
    }
    None
}


/// In a list without repeats, the index found for an item is where it stands.
proof fn lemma_index_of_unique(s: Seq<i64>, i: int)
    requires
        s.no_duplicates(),
        0 <= i < s.len(),
    ensures
        s.index_of(s[i]) == i,
        s.contains(s[i]),
{
    assert(s.contains(s[i]));
    let j = s.index_of(s[i]);
    assert(0 <= j < s.len() && s[j] == s[i]);
}

/// A copy of a list of build ids.
fn copy_ids(v: &Vec<i64>) -> (r: Vec<i64>)
    ensures
        r@ == v@,
{
    let mut out: Vec<i64> = Vec::new();
    let mut i: usize = 0;
    while i < v.len()
        invariant
            i <= v@.len(),
            out@ == v@.take(i as int),
        decreases v@.len() - i,
    {
        out.push(v[i]);
        i = i + 1;
        assert(out@ =~= v@.take(i as int));
    }
    assert(v@.take(v@.len() as int) =~= v@);
    out
}

impl BuildQueue {
    /// Queues `build_id` behind the builds already queued for `project_id`.
    pub fn enqueue(&mut self, project_id: i64, build_id: i64)
        requires
            old(self).wf(),
        ensures
            final(self).wf(),
            final(self).queues_view() == enqueued(old(self).queues_view(), project_id, build_id),
            final(self).processing_view() == old(self).processing_view(),
    {
        let ghost old_view = self.queues_view();
        let ghost old_keys = keys_of(self.queues@);
        match position(&self.queues, project_id) {
            Some(i) => {
                proof {
                    lemma_index_of_unique(old_keys, i as int);
                }
                let mut q = copy_ids(&self.queues[i].1);
                q.push(build_id);
                let ghost qv = q@;
                self.queues.set(i, (project_id, q));
                assert(keys_of(self.queues@) =~= old_keys);
                assert forall|k: i64| #[trigger] keys_of(self.queues@).contains(k) implies self.queues@[keys_of(self.queues@).index_of(k)].1@ == if k == project_id {
                    qv
                } else {
                    old_view[k]
                } by {
                    let j = old_keys.index_of(k);
                    assert(0 <= j < old_keys.len() && old_keys[j] == k);
                    lemma_index_of_unique(old_keys, j);
                    if k == project_id {
                        assert(j == i);
                    } else {
                        assert(j != i);
                    }
                }
                assert(self.queues_view() =~= enqueued(old_view, project_id, build_id));
            },
            None => {
                let mut q: Vec<i64> = Vec::new();
                q.push(build_id);
                let ghost qv = q@;
                self.queues.push((project_id, q));
                let ghost nk = keys_of(self.queues@);
                assert(nk =~= old_keys.push(project_id));
                assert forall|a: int, b: int| 0 <= a < nk.len() && 0 <= b < nk.len() && a != b implies nk[a] != nk[b] by {
                    if a < old_keys.len() && b < old_keys.len() {
                        assert(old_keys[a] != old_keys[b]);
                    } else if a < old_keys.len() {
                        assert(old_keys[a] != project_id);
                    } else {
                        assert(old_keys[b] != project_id);
                    }
                }
                assert forall|k: i64| #[trigger] nk.contains(k) implies self.queues@[nk.index_of(k)].1@ == if k == project_id {
                    qv
                } else {
                    old_view[k]
                } by {
                    let j = nk.index_of(k);
                    assert(0 <= j < nk.len() && nk[j] == k);
                    lemma_index_of_unique(nk, j);
                    if k != project_id {
                        assert(j < old_keys.len());
                        assert(old_keys[j] == k);
                        lemma_index_of_unique(old_keys, j);
                    } else {
                        assert(j == old_keys.len());
                    }
                }
                assert forall|k: i64| nk.contains(k) <==> (old_keys.contains(k) || k == project_id) by {
                    if nk.contains(k) {
                        let j = choose|j: int| 0 <= j < nk.len() && nk[j] == k;
                        if j < old_keys.len() {
                            assert(old_keys[j] == k);
                        }
                    }
                    if old_keys.contains(k) {
                        let j = choose|j: int| 0 <= j < old_keys.len() && old_keys[j] == k;
                        assert(nk[j] == k);
                    }
                    if k == project_id {
                        assert(nk[old_keys.len() as int] == k);
                    }
                }
                assert(self.queues_view() =~= enqueued(old_view, project_id, build_id));
            },
        }
    }

    /// Takes the oldest build queued for `project_id`, if any.
    pub fn dequeue(&mut self, project_id: i64) -> (r: Option<i64>)
        requires
            old(self).wf(),
        ensures
            final(self).wf(),
            (r, final(self).queues_view()) == dequeued(old(self).queues_view(), project_id),
            final(self).processing_view() == old(self).processing_view(),
    {
        let ghost old_view = self.queues_view();
        let ghost old_keys = keys_of(self.queues@);
        match position(&self.queues, project_id) {
            Some(i) => {
                proof {
                    lemma_index_of_unique(old_keys, i as int);
                }
                if self.queues[i].1.len() == 0 {
                    return None;
                }
                let first = self.queues[i].1[0];
                let old_q = copy_ids(&self.queues[i].1);
                let mut q: Vec<i64> = Vec::new();
                let mut j: usize = 1;
                while j < old_q.len()
                    invariant
                        1 <= j <= old_q@.len(),
                        q@ == old_q@.subrange(1, j as int),
                    decreases old_q@.len() - j,
                {
                    q.push(old_q[j]);
                    j = j + 1;
                    assert(q@ =~= old_q@.subrange(1, j as int));
                }
                let ghost qv = q@;
                assert(qv =~= old_view[project_id].drop_first());
                self.queues.set(i, (project_id, q));
                assert(keys_of(self.queues@) =~= old_keys);
                assert forall|k: i64| #[trigger] keys_of(self.queues@).contains(k) implies self.queues@[keys_of(self.queues@).index_of(k)].1@ == if k == project_id {
                    qv
                } else {
                    old_view[k]
                } by {
                    let jj = old_keys.index_of(k);
                    assert(0 <= jj < old_keys.len() && old_keys[jj] == k);
                    lemma_index_of_unique(old_keys, jj);
                    if k == project_id {
                        assert(jj == i);
                    } else {
                        assert(jj != i);
                    }
                }
                assert(self.queues_view() =~= old_view.insert(project_id, qv));
                Some(first)
            },
            None => None,
        }
    }

    /// The number of builds queued for `project_id`.
    pub fn get_queue_length(&self, project_id: i64) -> (r: usize)
        requires
            self.wf(),
        ensures
            r == queue_of(self.queues_view(), project_id).len(),
    {
        match position(&self.queues, project_id) {
            Some(i) => {
                proof {
                    lemma_index_of_unique(keys_of(self.queues@), i as int);
                }
                self.queues[i].1.len()
            },
            None => 0,
        }
    }

    /// Whether `project_id` is processing a build.
    pub fn is_processing(&self, project_id: i64) -> (r: bool)
        requires
            self.wf(),
        ensures
            r == self.processing_view().contains_key(project_id),
    {
        match position(&self.processing, project_id) {
            Some(i) => {
                assert(keys_of(self.processing@)[i as int] == project_id);
                true
            },
            None => false,
        }
    }
}


impl BuildQueue {
    /// Records that `project_id` is processing `build_id`.
    pub fn start_processing(&mut self, project_id: i64, build_id: i64)
        requires
            old(self).wf(),
        ensures
            final(self).wf(),
            final(self).processing_view() == old(self).processing_view().insert(project_id, build_id),
            final(self).queues_view() == old(self).queues_view(),
    {
        let ghost old_view = self.processing_view();
        let ghost old_keys = keys_of(self.processing@);
        match position(&self.processing, project_id) {
            Some(i) => {
                proof {
                    lemma_index_of_unique(old_keys, i as int);
                }
                self.processing.set(i, (project_id, build_id));
                assert(keys_of(self.processing@) =~= old_keys);
                assert forall|k: i64| #[trigger] keys_of(self.processing@).contains(k) implies self.processing@[keys_of(self.processing@).index_of(k)].1 == if k == project_id {
                    build_id
                } else {
                    old_view[k]
                } by {
                    let j = old_keys.index_of(k);
                    assert(0 <= j < old_keys.len() && old_keys[j] == k);
                    lemma_index_of_unique(old_keys, j);
                    if k == project_id {
                        assert(j == i);
                    } else {
                        assert(j != i);
                    }
                }
                assert(self.processing_view() =~= old_view.insert(project_id, build_id));
            },
            None => {
                self.processing.push((project_id, build_id));
                let ghost nk = keys_of(self.processing@);
                assert(nk =~= old_keys.push(project_id));
                assert forall|a: int, b: int| 0 <= a < nk.len() && 0 <= b < nk.len() && a != b implies nk[a] != nk[b] by {
                    if a < old_keys.len() && b < old_keys.len() {
                        assert(old_keys[a] != old_keys[b]);
                    } else if a < old_keys.len() {
                        assert(old_keys[a] != project_id);
                    } else {
                        assert(old_keys[b] != project_id);
                    }
                }
                assert forall|k: i64| #[trigger] nk.contains(k) implies self.processing@[nk.index_of(k)].1 == if k == project_id {
                    build_id
                } else {
                    old_view[k]
                } by {
                    let j = nk.index_of(k);
                    assert(0 <= j < nk.len() && nk[j] == k);
                    lemma_index_of_unique(nk, j);
                    if k != project_id {
                        assert(j < old_keys.len());
                        assert(old_keys[j] == k);
                        lemma_index_of_unique(old_keys, j);
                    } else {
                        assert(j == old_keys.len());
                    }
                }
                assert forall|k: i64| nk.contains(k) <==> (old_keys.contains(k) || k == project_id) by {
                    if nk.contains(k) {
                        let j = choose|j: int| 0 <= j < nk.len() && nk[j] == k;
                        if j < old_keys.len() {
                            assert(old_keys[j] == k);
                        }
                    }
                    if old_keys.contains(k) {
                        let j = choose|j: int| 0 <= j < old_keys.len() && old_keys[j] == k;
                        assert(nk[j] == k);
                    }
                    if k == project_id {
                        assert(nk[old_keys.len() as int] == k);
                    }
                }
                assert(self.processing_view() =~= old_view.insert(project_id, build_id));
            },
        }
    }

    /// Records that `project_id` is no longer processing a build.
    pub fn finish_processing(&mut self, project_id: i64)
        requires
            old(self).wf(),
        ensures
            final(self).wf(),
            final(self).processing_view() == old(self).processing_view().remove(project_id),
            final(self).queues_view() == old(self).queues_view(),
    {
        let ghost old_view = self.processing_view();
        let ghost old_keys = keys_of(self.processing@);
        match position(&self.processing, project_id) {
            Some(i) => {
                proof {
                    lemma_index_of_unique(old_keys, i as int);
                }
                self.processing.remove(i);
                let ghost nk = keys_of(self.processing@);
                assert(nk =~= old_keys.remove(i as int));
                assert forall|a: int, b: int| 0 <= a < nk.len() && 0 <= b < nk.len() && a != b implies nk[a] != nk[b] by {
                    let a2 = if a < i { a } else { a + 1 };
                    let b2 = if b < i { b } else { b + 1 };
                    assert(nk[a] == old_keys[a2]);
                    assert(nk[b] == old_keys[b2]);
                }
                assert forall|k: i64| nk.contains(k) <==> (old_keys.contains(k) && k != project_id) by {
                    if nk.contains(k) {
                        let j = choose|j: int| 0 <= j < nk.len() && nk[j] == k;
                        let j2 = if j < i { j } else { j + 1 };
                        assert(old_keys[j2] == k);
                        assert(j2 != i);
                    }
                    if old_keys.contains(k) && k != project_id {
                        let j = choose|j: int| 0 <= j < old_keys.len() && old_keys[j] == k;
                        assert(j != i);
                        let j2 = if j < i { j } else { j - 1 };
                        assert(nk[j2] == k);
                    }
                }
                assert forall|k: i64| #[trigger] nk.contains(k) implies self.processing@[nk.index_of(k)].1 == old_view[k] by {
                    let j = nk.index_of(k);
                    assert(0 <= j < nk.len() && nk[j] == k);
                    let j2 = if j < i { j } else { j + 1 };
                    assert(old_keys[j2] == k);
                    lemma_index_of_unique(old_keys, j2);
                }
                assert(self.processing_view() =~= old_view.remove(project_id));
            },
            None => {
                assert(self.processing_view() =~= old_view.remove(project_id));
            },
        }
    }

    /// Every project that ever had a build queued, with its queue, each once,
    /// in the order the projects were first queued for.
    pub fn get_all_queued_builds(&self) -> (r: Vec<(i64, Vec<i64>)>)
        requires
            self.wf(),
        ensures
            keys_of(r@).no_duplicates(),
            forall|k: i64| keys_of(r@).contains(k) <==> self.queues_view().contains_key(k),
            forall|i: int| 0 <= i < r@.len() ==> (#[trigger] r@[i]).1@ == self.queues_view()[r@[i].0],
    {
        let mut out: Vec<(i64, Vec<i64>)> = Vec::new();
        let mut i: usize = 0;
        while i < self.queues.len()
            invariant
                self.wf(),
                i <= self.queues@.len(),
                out@.len() == i,
                forall|j: int| 0 <= j < i ==> (#[trigger] out@[j]).0 == self.queues@[j].0 && out@[j].1@
                    == self.queues@[j].1@,
            decreases self.queues@.len() - i,
        {
            out.push((self.queues[i].0, copy_ids(&self.queues[i].1)));
            i = i + 1;
        }
        assert(keys_of(out@) =~= keys_of(self.queues@));
        assert forall|j: int| 0 <= j < out@.len() implies (#[trigger] out@[j]).1@ == self.queues_view()[out@[j].0] by {
            lemma_index_of_unique(keys_of(self.queues@), j);
            assert(keys_of(self.queues@)[j] == out@[j].0);
        }
        out
    }
}

/// Queueing a build puts it at the end of its project's queue and leaves
/// every other project's queue as it was.
pub proof fn law_enqueue_appends(queues: Map<i64, Seq<i64>>, project_id: i64, build_id: i64, other: i64)
    requires
        other != project_id,
    ensures
        queue_of(enqueued(queues, project_id, build_id), project_id) == queue_of(queues, project_id).push(
            build_id,
        ),
        queue_of(enqueued(queues, project_id, build_id), other) == queue_of(queues, other),
{
}

/// Builds leave a project's queue in the order they were queued: on an
/// empty queue, what is queued first is dequeued first, and the second
/// after it.
pub proof fn law_fifo(queues: Map<i64, Seq<i64>>, project_id: i64, first: i64, second: i64)
    requires
        queue_of(queues, project_id).len() == 0,
    ensures
        ({
            let q2 = enqueued(enqueued(queues, project_id, first), project_id, second);
            let (a, q3) = dequeued(q2, project_id);
            let (b, q4) = dequeued(q3, project_id);
            a == Some(first) && b == Some(second) && queue_of(q4, project_id).len() == 0
        }),
{
    let q1 = enqueued(queues, project_id, first);
    let q2 = enqueued(q1, project_id, second);
    assert(queue_of(q2, project_id) =~= seq![first, second]);
    let q3 = dequeued(q2, project_id).1;
    assert(queue_of(q3, project_id) =~= seq![second]);
    let q4 = dequeued(q3, project_id).1;
    assert(queue_of(q4, project_id) =~= Seq::<i64>::empty());
}

/// Dequeueing takes the oldest queued build of the project and keeps the
/// rest in order; an empty queue gives nothing and stays as it was.
pub proof fn law_dequeue_takes_oldest(queues: Map<i64, Seq<i64>>, project_id: i64)
    ensures
        queue_of(queues, project_id).len() > 0 ==> dequeued(queues, project_id).0 == Some(
            queue_of(queues, project_id)[0],
        ) && queue_of(dequeued(queues, project_id).1, project_id) == queue_of(queues, project_id).drop_first(),
        queue_of(queues, project_id).len() == 0 ==> dequeued(queues, project_id) == (None::<i64>, queues),
{
}


/// A project whose next build can start: it has builds queued and is not
/// processing one.
pub open spec fn is_ready(queues: Map<i64, Seq<i64>>, processing: Map<i64, i64>, p: i64) -> bool {
    queue_of(queues, p).len() > 0 && !processing.contains_key(p)
}

/// The outcome of starting ready builds, for project `p`: a ready project's
/// oldest build moves from its queue to processing; any other project stays as it was.
pub open spec fn started_for(
    q0: Map<i64, Seq<i64>>,
    p0: Map<i64, i64>,
    q1: Map<i64, Seq<i64>>,
    p1: Map<i64, i64>,
    p: i64,
) -> bool {
    if is_ready(q0, p0, p) {
        queue_of(q1, p) == queue_of(q0, p).drop_first() && p1.contains_key(p) && p1[p] == queue_of(q0, p)[0]
    } else {
        queue_of(q1, p) == queue_of(q0, p) && p1.contains_key(p) == p0.contains_key(p) && (p0.contains_key(p)
            ==> p1[p] == p0[p])
    }
}

impl BuildQueue {
    /// Starts the next build of every project that has builds queued and
    /// none processing: each such project's oldest build leaves its queue
    /// and becomes the one it processes. Gives the builds started, with
    /// their projects, each project once, in the order projects were first
    /// queued for.
    pub fn take_ready_builds(&mut self) -> (r: Vec<(i64, i64)>)
        requires
            old(self).wf(),
        ensures
            final(self).wf(),
            forall|p: i64|
                started_for(
                    old(self).queues_view(),
                    old(self).processing_view(),
                    final(self).queues_view(),
                    final(self).processing_view(),
                    p,
                ),
            forall|k: int|
                0 <= k < r@.len() ==> is_ready(old(self).queues_view(), old(self).processing_view(), #[trigger] r@[k].0)
                    && r@[k].1 == queue_of(old(self).queues_view(), r@[k].0)[0],
            forall|p: i64|
                is_ready(old(self).queues_view(), old(self).processing_view(), p) ==> keys_of(r@).contains(p),
            keys_of(r@).no_duplicates(),
    {
        let ghost q0 = self.queues_view();
        let ghost p0 = self.processing_view();
        let mut keys: Vec<i64> = Vec::new();
        let mut j: usize = 0;
        while j < self.queues.len()
            invariant
                j <= self.queues@.len(),
                keys@ == keys_of(self.queues@).take(j as int),
            decreases self.queues@.len() - j,
        {
            keys.push(self.queues[j].0);
            j = j + 1;
            assert(keys@ =~= keys_of(self.queues@).take(j as int));
        }
        assert(keys@ =~= keys_of(self.queues@));
        let mut out: Vec<(i64, i64)> = Vec::new();
        let mut i: usize = 0;
        while i < keys.len()
            invariant
                self.wf(),
                i <= keys@.len(),
                keys@.no_duplicates(),
                forall|p: i64| #[trigger] q0.contains_key(p) <==> keys@.contains(p),
                forall|p: i64|
                    keys@.take(i as int).contains(p) ==> started_for(
                        q0,
                        p0,
                        self.queues_view(),
                        self.processing_view(),
                        p,
                    ),
                forall|p: i64|
                    !keys@.take(i as int).contains(p) ==> queue_of(self.queues_view(), p) == queue_of(q0, p)
                        && self.processing_view().contains_key(p) == p0.contains_key(p) && (p0.contains_key(p)
                        ==> self.processing_view()[p] == p0[p]),
                forall|k: int|
                    0 <= k < out@.len() ==> is_ready(q0, p0, #[trigger] out@[k].0) && out@[k].1 == queue_of(q0, out@[k].0)[0]
                        && keys@.take(i as int).contains(out@[k].0),
                forall|p: i64| keys@.take(i as int).contains(p) && is_ready(q0, p0, p) ==> keys_of(out@).contains(p),
                keys_of(out@).no_duplicates(),
            decreases keys@.len() - i,
        {
            let p = keys[i];
            let ghost qb = self.queues_view();
            let ghost pb = self.processing_view();
            let ghost out_before = out@;
            proof {
                assert(!keys@.take(i as int).contains(p)) by {
                    if keys@.take(i as int).contains(p) {
                        let k = choose|k: int| 0 <= k < i && #[trigger] keys@.take(i as int)[k] == p;
                        assert(keys@[k] == keys@[i as int]);
                    }
                }
                assert(keys@.take(i + 1) =~= keys@.take(i as int).push(p));
            }
            if !self.is_processing(p) {
                let taken = self.dequeue(p);
                match taken {
                    Some(b) => {
                        self.start_processing(p, b);
                        let ghost before = keys_of(out@);
                        out.push((p, b));
                        assert(keys_of(out@) =~= before.push(p));
                        assert(!before.contains(p)) by {
                            if before.contains(p) {
                                let k = choose|k: int| 0 <= k < before.len() && before[k] == p;
                                assert(keys@.take(i as int).contains(out@[k].0));
                            }
                        }
                        assert forall|a: int, c: int| 0 <= a < keys_of(out@).len() && 0 <= c < keys_of(out@).len() && a != c implies keys_of(out@)[a] != keys_of(out@)[c] by {
                            if a < before.len() && c < before.len() {
                                assert(before[a] != before[c]);
                            } else if a < before.len() {
                                assert(before[a] != p);
                                assert(before.contains(before[a]));
                            } else {
                                assert(before[c] != p);
                                assert(before.contains(before[c]));
                            }
                        }
                    },
                    None => {},
                }
            }
            assert forall|x: i64| keys@.take(i + 1).contains(x) implies started_for(
                q0,
                p0,
                self.queues_view(),
                self.processing_view(),
                x,
            ) by {
                if x != p {
                    assert(keys@.take(i as int).contains(x)) by {
                        let k = choose|k: int| 0 <= k < i + 1 && #[trigger] keys@.take(i + 1)[k] == x;
                        assert(k < i);
                        assert(keys@.take(i as int)[k] == x);
                    }
                }
            }
            assert forall|x: i64| keys@.take(i + 1).contains(x) && is_ready(q0, p0, x) implies keys_of(out@).contains(x) by {
                if x != p {
                    assert(keys@.take(i as int).contains(x)) by {
                        let k = choose|k: int| 0 <= k < i + 1 && #[trigger] keys@.take(i + 1)[k] == x;
                        assert(k < i);
                        assert(keys@.take(i as int)[k] == x);
                    }
                    assert(keys_of(out_before).contains(x));
                    let k = choose|k: int| 0 <= k < keys_of(out_before).len() && #[trigger] keys_of(out_before)[k] == x;
                    assert(out@[k] == out_before[k]);
                    assert(keys_of(out@)[k] == x);
                } else {
                    assert(queue_of(qb, p) == queue_of(q0, p));
                    assert(pb.contains_key(p) == p0.contains_key(p));
                    assert(out@.len() == out_before.len() + 1);
                    assert(keys_of(out@)[out@.len() - 1] == p);
                }
            }
            assert forall|x: i64| !keys@.take(i + 1).contains(x) implies queue_of(self.queues_view(), x) == queue_of(q0, x)
                && self.processing_view().contains_key(x) == p0.contains_key(x) && (p0.contains_key(x)
                ==> self.processing_view()[x] == p0[x]) by {
                assert(!keys@.take(i as int).contains(x)) by {
                    if keys@.take(i as int).contains(x) {
                        let k = choose|k: int| 0 <= k < i && #[trigger] keys@.take(i as int)[k] == x;
                        assert(keys@.take(i + 1)[k] == x);
                    }
                }
                assert(x != p) by {
                    assert(keys@.take(i + 1)[i as int] == p);
                }
            }
            assert forall|k: int| 0 <= k < out@.len() implies is_ready(q0, p0, #[trigger] out@[k].0) && out@[k].1 == queue_of(
                q0,
                out@[k].0,
            )[0] by {
                if k < out_before.len() {
                    assert(out@[k] == out_before[k]);
                } else {
                    assert(out@[k].0 == p);
                    assert(queue_of(qb, p) == queue_of(q0, p));
                    assert(pb.contains_key(p) == p0.contains_key(p));
                }
            }
            assert forall|k: int| 0 <= k < out@.len() implies keys@.take(i + 1).contains(#[trigger] out@[k].0) by {
                if k < out@.len() - 1 || keys@.take(i as int).contains(out@[k].0) {
                    if keys@.take(i as int).contains(out@[k].0) {
                        let m = choose|m: int| 0 <= m < i && #[trigger] keys@.take(i as int)[m] == out@[k].0;
                        assert(keys@.take(i + 1)[m] == out@[k].0);
                    }
                } else {
                    assert(keys@.take(i + 1)[i as int] == p);
                }
            }
            i = i + 1;
        }
        assert(keys@.take(keys@.len() as int) =~= keys@);
        assert forall|x: i64| #[trigger] started_for(q0, p0, self.queues_view(), self.processing_view(), x) by {
            if !keys@.contains(x) {
                assert(!q0.contains_key(x));
            }
        }
        assert forall|x: i64| is_ready(q0, p0, x) implies keys_of(out@).contains(x) by {
            assert(q0.contains_key(x));
            assert(keys@.contains(x));
        }
        out
    }
}

/// Starting ready builds leaves a project that is processing a build as it
/// was: the build it runs stays, and its queue keeps every waiting build, so
/// a project's builds run one after another.
pub proof fn law_one_build_at_a_time(
    q0: Map<i64, Seq<i64>>,
    p0: Map<i64, i64>,
    q1: Map<i64, Seq<i64>>,
    p1: Map<i64, i64>,
    p: i64,
)
    requires
        p0.contains_key(p),
        started_for(q0, p0, q1, p1, p),
    ensures
        queue_of(q1, p) == queue_of(q0, p),
        p1.contains_key(p),
        p1[p] == p0[p],
{
}

} // verus!
