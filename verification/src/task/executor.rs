//! The cooperative executor: which task runs next, when the processor
//! may halt, and how yielding tasks come back.

use crossbeam::queue::ArrayQueue;
use std::collections::BTreeSet;
use std::collections::VecDeque;
use vstd::prelude::*;

verus! {

/// Capacity of the queue of ready tasks, of the queue of spawned tasks
/// and of the queue of yielders.
pub const QUEUE_CAPACITY: usize = 100;

/// `crossbeam::queue::ArrayQueue`, a bounded queue. Nothing is known of
/// a queue but what the functions below say of it.
#[verifier::external_type_specification]
#[verifier::external_body]
#[verifier::reject_recursive_types(T)]
pub struct ExArrayQueue<T>(ArrayQueue<T>);

/// The ids that a queue holds, the one that leaves next first.
pub uninterp spec fn queued(q: ArrayQueue<u64>) -> Seq<u64>;

/// The capacity that a queue was made with.
pub uninterp spec fn queue_limit(q: ArrayQueue<u64>) -> nat;

/// `ArrayQueue::new`: an empty queue of the given capacity. The outside
/// function panics on a capacity of zero and on one so large that the
/// next power of two does not fit.
#[verifier::external_body]
fn queue_new(cap: usize) -> (q: ArrayQueue<u64>)
    requires
        0 < cap <= 0x1_0000,
    ensures
        queued(q) == Seq::<u64>::empty(),
        queue_limit(q) == cap,
{
    ArrayQueue::new(cap)
}

/// A queue holds fewer values than its capacity.
pub open spec fn has_room(q: ArrayQueue<u64>) -> bool {
    queued(q).len() < queue_limit(q)
}

/// `ArrayQueue::push` on a queue that nobody else holds: the value goes
/// to the back if the queue holds fewer values than its capacity, and
/// comes back as the error if the queue is full.
#[verifier::external_body]
fn queue_push(q: &mut ArrayQueue<u64>, value: u64) -> (r: Result<(), u64>)
    ensures
        queue_limit(*final(q)) == queue_limit(*old(q)),
        r is Ok == has_room(*old(q)),
        r is Ok ==> queued(*final(q)) == queued(*old(q)).push(value),
        r is Err ==> r->Err_0 == value && queued(*final(q)) == queued(*old(q)),
{
    q.push(value)
}

/// `ArrayQueue::pop` on a queue that nobody else holds: the value at the
/// front leaves the queue, if there is one.
#[verifier::external_body]
fn queue_pop(q: &mut ArrayQueue<u64>) -> (r: Option<u64>)
    ensures
        queue_limit(*final(q)) == queue_limit(*old(q)),
        r is Some == (queued(*old(q)).len() != 0),
        r is Some ==> r->0 == queued(*old(q))[0] && queued(*final(q)) == queued(*old(q)).skip(1),
        r is None ==> queued(*final(q)) == queued(*old(q)),
{
    q.pop()
}

/// `ArrayQueue::is_empty`: whether the queue holds no value.
#[verifier::external_body]
fn queue_is_empty(q: &ArrayQueue<u64>) -> (r: bool)
    ensures
        r == (queued(*q).len() == 0),
{
    q.is_empty()
}

/// `ArrayQueue::len`: the number of values in the queue.
#[verifier::external_body]
fn queue_len(q: &ArrayQueue<u64>) -> (r: usize)
    ensures
        r == queued(*q).len(),
{
    q.len()
}

broadcast use vstd::std_specs::btree::group_btree_axioms;

/// Whether a future has finished.
#[derive(Clone, Copy, Debug, PartialEq, Eq, Structural)]
pub enum Poll {
    Ready,
    Pending,
}

/// A task as the executor knows it: by its id. The future that belongs
/// to the id is kept by whoever polls it.
#[derive(Clone, Copy, Debug, PartialEq, Eq, Structural)]
pub struct Task {
    pub id: u64,
}

/// Hands out task ids, each one higher than the last.
pub struct TaskIds {
    next: u64,
}

impl TaskIds {
    /// The id that will be handed out next.
    pub closed spec fn upcoming(&self) -> u64 {
        self.next
    }

    /// An allocator whose first id is zero.
    pub fn new() -> (r: Self)
        ensures
            r.upcoming() == 0,
    {
        TaskIds { next: 0 }
    }

    /// Whether there is an id left to hand out.
    pub fn has_next(&self) -> (r: bool)
        ensures
            r == (self.upcoming() < u64::MAX),
    {
        self.next < u64::MAX
    }

    /// A new task with the next id.
    pub fn task(&mut self) -> (t: Task)
        requires
            old(self).upcoming() < u64::MAX,
        ensures
            t.id == old(self).upcoming(),
            final(self).upcoming() == old(self).upcoming() + 1,
    {
        let id: u64 = self.next;
        self.next = id + 1;
        Task { id }
    }
}

/// The position in `queue` of the first id that is in `live`, if there
/// is one.
pub open spec fn first_live(queue: Seq<u64>, live: Set<u64>) -> Option<int>
    decreases queue.len(),
{
    if queue.len() == 0 {
        None
    } else if live.contains(queue[0]) {
        Some(0)
    } else {
        match first_live(queue.skip(1), live) {
            Some(k) => Some(k + 1),
            None => None,
        }
    }
}

/// Why the executor cannot go on.
#[derive(Clone, Copy, Debug, PartialEq, Eq, Structural)]
pub enum ExecutorError {
    /// A task with this id is already known.
    DuplicateTask(u64),
    /// The queue of ready tasks is full.
    QueueFull,
}

/// The scheduling state of the executor: the ids of the tasks that are
/// alive, the queue of ids that are ready to be polled, the queue of ids
/// that were spawned and not yet admitted, the ids that have a waker,
/// and the queue of tasks that have yielded.
pub struct Executor {
    tasks: BTreeSet<u64>,
    task_queue: ArrayQueue<u64>,
    spawn_queue: ArrayQueue<u64>,
    waker_cache: BTreeSet<u64>,
    yielders: ArrayQueue<u64>,
}

impl Executor {
    /// The ids of the tasks that are alive.
    pub closed spec fn tasks(&self) -> Set<u64> {
        self.tasks@
    }

    /// The ids that are ready to be polled, the next one first.
    pub closed spec fn ready(&self) -> Seq<u64> {
        queued(self.task_queue)
    }

    /// The ids that were spawned and not yet admitted, oldest first.
    pub closed spec fn spawned(&self) -> Seq<u64> {
        queued(self.spawn_queue)
    }

    /// The ids that have a waker.
    pub closed spec fn wakers(&self) -> Set<u64> {
        self.waker_cache@
    }

    /// The ids of the tasks that have yielded, oldest first.
    pub closed spec fn yielded(&self) -> Seq<u64> {
        queued(self.yielders)
    }

    /// Each of the three queues can hold 100 ids and holds no more.
    pub closed spec fn wf(&self) -> bool {
        &&& queue_limit(self.task_queue) == 100
        &&& queue_limit(self.spawn_queue) == 100
        &&& queue_limit(self.yielders) == 100
        &&& queued(self.task_queue).len() <= 100
        &&& queued(self.spawn_queue).len() <= 100
        &&& queued(self.yielders).len() <= 100
    }

    /// An executor without tasks.
    pub fn new() -> (r: Self)
        ensures
            r.wf(),
            r.tasks() == Set::<u64>::empty(),
            r.ready() == Seq::<u64>::empty(),
            r.spawned() == Seq::<u64>::empty(),
            r.wakers() == Set::<u64>::empty(),
            r.yielded() == Seq::<u64>::empty(),
    {
        Executor {
            tasks: BTreeSet::new(),
            task_queue: queue_new(QUEUE_CAPACITY),
            spawn_queue: queue_new(QUEUE_CAPACITY),
            waker_cache: BTreeSet::new(),
            yielders: queue_new(QUEUE_CAPACITY),
        }
    }

    /// Whether a task with this id is alive.
    pub fn is_alive(&self, id: u64) -> (r: bool)
        ensures
            r == self.tasks().contains(id),
    {
        self.tasks.contains(&id)
    }

    /// Number of ids in the queue of ready tasks.
    pub fn ready_count(&self) -> (n: usize)
        ensures
            n == self.ready().len(),
    {
        queue_len(&self.task_queue)
    }

    /// Whether a task can be handed to the executor from outside its
    /// loop: the queue of spawned tasks has room.
    pub fn can_hand_over(&self) -> (r: bool)
        requires
            self.wf(),
        ensures
            r == (self.spawned().len() < 100),
    {
        queue_len(&self.spawn_queue) < QUEUE_CAPACITY
    }

    /// Hands a new task to the executor from outside its loop: the task
    /// waits at the back of the queue of spawned tasks until the loop
    /// admits it.
    pub fn spawner_run(&mut self, task: Task)
        requires
            old(self).wf(),
            old(self).spawned().len() < 100,
        ensures
            final(self).wf(),
            final(self).tasks() == old(self).tasks(),
            final(self).ready() == old(self).ready(),
            final(self).wakers() == old(self).wakers(),
            final(self).yielded() == old(self).yielded(),
            final(self).spawned() == old(self).spawned().push(task.id),
    {
        let _pushed: Result<(), u64> = queue_push(&mut self.spawn_queue, task.id);
    }

    /// Whether `task` can be admitted: its id is not that of a live task
    /// and the queue of ready tasks has room.
    pub fn can_spawn(&self, task: &Task) -> (r: bool)
        requires
            self.wf(),
        ensures
            r == (!self.tasks().contains(task.id) && self.ready().len() < 100),
    {
        !self.tasks.contains(&task.id) && queue_len(&self.task_queue) < QUEUE_CAPACITY
    }

    /// Admits a task: it becomes alive and ready.
    pub fn spawn(&mut self, task: Task)
        requires
            old(self).wf(),
            !old(self).tasks().contains(task.id),
            old(self).ready().len() < 100,
        ensures
            final(self).wf(),
            final(self).tasks() == old(self).tasks().insert(task.id),
            final(self).ready() == old(self).ready().push(task.id),
            final(self).spawned() == old(self).spawned(),
            final(self).wakers() == old(self).wakers(),
            final(self).yielded() == old(self).yielded(),
    {
        let _fresh: bool = self.tasks.insert(task.id);
        let _pushed: Result<(), u64> = queue_push(&mut self.task_queue, task.id);
    }

    /// Admits every task that waits in the queue of spawned tasks, oldest
    /// first. Stops at the first task that cannot be admitted, which is
    /// then no longer in the queue, and says why.
    pub fn admit_spawned(&mut self) -> (r: Result<(), ExecutorError>)
        requires
            old(self).wf(),
        ensures
            final(self).wf(),
            final(self).wakers() == old(self).wakers(),
            final(self).yielded() == old(self).yielded(),
            r is Ok ==> final(self).spawned().len() == 0 && final(self).ready() == old(self).ready() + old(self).spawned() && final(self).tasks() == old(self).tasks().union(
                old(self).spawned().to_set(),
            ),
            r is Ok <==> old(self).spawned().no_duplicates() && old(self).ready().len() + old(self).spawned().len() <= 100 && old(self).tasks().disjoint(old(self).spawned().to_set()),
            r is Err ==> {
                let admitted = old(self).spawned().len() - final(self).spawned().len() - 1;
                &&& 0 <= admitted < old(self).spawned().len()
                &&& final(self).spawned() == old(self).spawned().skip(admitted + 1)
                &&& final(self).ready() == old(self).ready() + old(self).spawned().take(admitted)
                &&& final(self).tasks() == old(self).tasks().union(
                    old(self).spawned().take(admitted).to_set(),
                )
                &&& match r->Err_0 {
                    ExecutorError::DuplicateTask(id) => id == old(self).spawned()[admitted]
                        && final(self).tasks().contains(id),
                    ExecutorError::QueueFull => final(self).ready().len() == 100 && !final(self).tasks().contains(old(self).spawned()[admitted]),
                }
            },
    {
        let ghost start = old(self).spawned();
        let ghost done: Seq<u64> = Seq::empty();
        loop
            invariant
                self.wf(),
                self.wakers() == old(self).wakers(),
                self.yielded() == old(self).yielded(),
                start == old(self).spawned(),
                start == done + self.spawned(),
                self.ready() == old(self).ready() + done,
                self.tasks() == old(self).tasks().union(done.to_set()),
                done.no_duplicates(),
                old(self).tasks().disjoint(done.to_set()),
            decreases self.spawned().len(),
        {
            let ghost waiting = self.spawned();
            match queue_pop(&mut self.spawn_queue) {
                None => {
                    proof {
                        assert(done =~= start);
                    }
                    return Ok(());
                },
                Some(id) => {
                    let task = Task { id };
                    proof {
                        assert(waiting[0] == id);
                        assert(start[done.len() as int] == id);
                        assert(start.to_set().contains(id));
                    }
                    proof {
                        assert(start.take(done.len() as int) =~= done);
                        assert(self.spawned() =~= start.skip(done.len() as int + 1));
                    }
                    if self.tasks.contains(&id) {
                        proof {
                            if done.contains(id) {
                                let k = choose|k: int| 0 <= k < done.len() && done[k] == id;
                                assert(start[k] == id);
                            }
                        }
                        return Err(ExecutorError::DuplicateTask(id));
                    }
                    if queue_len(&self.task_queue) >= QUEUE_CAPACITY {
                        return Err(ExecutorError::QueueFull);
                    }
                    let ghost tasks_before = self.tasks();
                    self.spawn(task);
                    proof {
                        let grown = done.push(id);
                        assert(start =~= grown + self.spawned());
                        assert(self.ready() =~= old(self).ready() + grown);
                        lemma_push_to_set(done, id);
                        assert(self.tasks() =~= old(self).tasks().union(grown.to_set()));
                        done = grown;
                    }
                },
            }
        }
    }

    /// Takes ids from the queue of ready tasks until one is that of a
    /// live task, and returns it together with whether the task has no
    /// waker yet; the task then has one. Ids of tasks that have ended are
    /// dropped. Returns nothing when the queue holds no live task; the
    /// queue is then empty.
    pub fn next_ready(&mut self) -> (r: Option<(u64, bool)>)
        requires
            old(self).wf(),
        ensures
            final(self).wf(),
            final(self).tasks() == old(self).tasks(),
            final(self).spawned() == old(self).spawned(),
            final(self).yielded() == old(self).yielded(),
            match first_live(old(self).ready(), old(self).tasks()) {
                Some(k) => r is Some && (r->0).0 == old(self).ready()[k] && (r->0).1 == !old(self).wakers().contains((r->0).0) && final(self).ready() == old(self).ready().skip(
                    k + 1,
                ) && final(self).wakers() == old(self).wakers().insert((r->0).0),
                None => r is None && final(self).ready().len() == 0 && final(self).wakers() == old(self).wakers(),
            },
    {
        let ghost mut n: int = 0;
        proof {
            assert(old(self).ready().skip(0) =~= old(self).ready());
        }
        loop
            invariant
                self.wf(),
                self.tasks() == old(self).tasks(),
                self.spawned() == old(self).spawned(),
                self.yielded() == old(self).yielded(),
                self.wakers() == old(self).wakers(),
                0 <= n <= old(self).ready().len(),
                self.ready() == old(self).ready().skip(n),
                dropped(old(self).ready(), old(self).tasks(), n),
            decreases self.ready().len(),
        {
            match queue_pop(&mut self.task_queue) {
                None => {
                    proof {
                        lemma_dropped(old(self).ready(), old(self).tasks(), n);
                    }
                    return None;
                },
                Some(id) => {
                    proof {
                        lemma_dropped(old(self).ready(), old(self).tasks(), n);
                        assert(old(self).ready().skip(n).skip(1) =~= old(self).ready().skip(n + 1));
                    }
                    if self.tasks.contains(&id) {
                        let fresh: bool = self.waker_cache.insert(id);
                        return Some((id, fresh));
                    }
                    proof {
                        assert(dropped(old(self).ready(), old(self).tasks(), n + 1));
                        n = n + 1;
                    }
                },
            }
        }
    }

    /// Records the outcome of polling task `id`: a task that is ready
    /// has ended, and it and its waker are forgotten.
    pub fn complete(&mut self, id: u64, outcome: Poll)
        requires
            old(self).wf(),
        ensures
            final(self).wf(),
            final(self).ready() == old(self).ready(),
            final(self).spawned() == old(self).spawned(),
            final(self).yielded() == old(self).yielded(),
            outcome == Poll::Ready ==> final(self).tasks() == old(self).tasks().remove(id)
                && final(self).wakers() == old(self).wakers().remove(id),
            outcome == Poll::Pending ==> final(self).tasks() == old(self).tasks() && final(self).wakers() == old(self).wakers(),
    {
        match outcome {
            Poll::Ready => {
                let _was_alive: bool = self.tasks.remove(&id);
                let _had_waker: bool = self.waker_cache.remove(&id);
            },
            Poll::Pending => {},
        }
    }

    /// Whether task `id` can be woken: the queue of ready tasks has room.
    pub fn can_wake(&self) -> (r: bool)
        requires
            self.wf(),
        ensures
            r == (self.ready().len() < 100),
    {
        queue_len(&self.task_queue) < QUEUE_CAPACITY
    }

    /// Wakes task `id`: its id joins the queue of ready tasks.
    pub fn wake(&mut self, id: u64)
        requires
            old(self).wf(),
            old(self).ready().len() < 100,
        ensures
            final(self).wf(),
            final(self).ready() == old(self).ready().push(id),
            final(self).tasks() == old(self).tasks(),
            final(self).spawned() == old(self).spawned(),
            final(self).wakers() == old(self).wakers(),
            final(self).yielded() == old(self).yielded(),
    {
        let _pushed: Result<(), u64> = queue_push(&mut self.task_queue, id);
    }

    /// Whether the processor may halt until the next interrupt: no task
    /// is ready and none waits to be admitted.
    pub fn is_idle(&self) -> (r: bool)
        requires
            self.wf(),
        ensures
            r == (self.ready().len() == 0 && self.spawned().len() == 0),
    {
        queue_is_empty(&self.task_queue) && queue_is_empty(&self.spawn_queue)
    }

    /// Whether a task can yield: the queue of yielders has room.
    pub fn can_yield(&self) -> (r: bool)
        requires
            self.wf(),
        ensures
            r == (self.yielded().len() < 100),
    {
        queue_len(&self.yielders) < QUEUE_CAPACITY
    }

    /// Enters task `id` at the back of the queue of yielders.
    pub fn add_yielder(&mut self, id: u64)
        requires
            old(self).wf(),
            old(self).yielded().len() < 100,
        ensures
            final(self).wf(),
            final(self).tasks() == old(self).tasks(),
            final(self).ready() == old(self).ready(),
            final(self).spawned() == old(self).spawned(),
            final(self).wakers() == old(self).wakers(),
            final(self).yielded() == old(self).yielded().push(id),
    {
        let _pushed: Result<(), u64> = queue_push(&mut self.yielders, id);
    }

    /// Wakes every task that has yielded, oldest first. Stops when the
    /// queue of ready tasks is full; the yielder that did not fit is
    /// then no longer in the queue of yielders.
    pub fn wake_yielders(&mut self) -> (r: Result<(), ExecutorError>)
        requires
            old(self).wf(),
        ensures
            final(self).wf(),
            final(self).tasks() == old(self).tasks(),
            final(self).spawned() == old(self).spawned(),
            final(self).wakers() == old(self).wakers(),
            r is Ok ==> final(self).yielded().len() == 0 && final(self).ready() == old(self).ready() + old(self).yielded(),
            r is Ok <==> old(self).ready().len() + old(self).yielded().len() <= 100,
            r is Err ==> {
                let woken = old(self).yielded().len() - final(self).yielded().len() - 1;
                &&& r == Err::<(), ExecutorError>(ExecutorError::QueueFull)
                &&& 0 <= woken < old(self).yielded().len()
                &&& final(self).yielded() == old(self).yielded().skip(woken + 1)
                &&& final(self).ready() == old(self).ready() + old(self).yielded().take(woken)
                &&& final(self).ready().len() == 100
            },
    {
        let ghost start = old(self).yielded();
        let ghost done: Seq<u64> = Seq::empty();
        loop
            invariant
                self.wf(),
                self.tasks() == old(self).tasks(),
                self.spawned() == old(self).spawned(),
                self.wakers() == old(self).wakers(),
                start == old(self).yielded(),
                start == done + self.yielded(),
                self.ready() == old(self).ready() + done,
            decreases self.yielded().len(),
        {
            match queue_pop(&mut self.yielders) {
                None => {
                    proof {
                        assert(done =~= start);
                    }
                    return Ok(());
                },
                Some(id) => {
                    proof {
                        assert(start.take(done.len() as int) =~= done);
                        assert(self.yielded() =~= start.skip(done.len() as int + 1));
                    }
                    if queue_len(&self.task_queue) >= QUEUE_CAPACITY {
                        return Err(ExecutorError::QueueFull);
                    }
                    self.wake(id);
                    proof {
                        let grown = done.push(id);
                        assert(start =~= grown + self.yielded());
                        assert(self.ready() =~= old(self).ready() + grown);
                        done = grown;
                    }
                },
            }
        }
    }
}

/// The ids of a queue that has grown by one are the ids it had, and the
/// new one.
pub proof fn lemma_push_to_set(queue: Seq<u64>, id: u64)
    ensures
        queue.push(id).to_set() == queue.to_set().insert(id),
{
    let grown = queue.push(id);
    assert forall|x: u64| grown.to_set().contains(x) <==> queue.to_set().insert(id).contains(
        x,
    ) by {
        if grown.contains(x) {
            let k = choose|k: int| 0 <= k < grown.len() && grown[k] == x;
            if k < queue.len() {
                assert(queue[k] == x);
            }
        }
        if queue.contains(x) {
            let k = choose|k: int| 0 <= k < queue.len() && queue[k] == x;
            assert(grown[k] == x);
        }
        if x == id {
            assert(grown[queue.len() as int] == x);
        }
    }
    assert(grown.to_set() =~= queue.to_set().insert(id));
}

/// None of the first `n` ids of `queue` is in `live`.
pub open spec fn dropped(queue: Seq<u64>, live: Set<u64>, n: int) -> bool {
    forall|i: int| 0 <= i < n ==> !live.contains(#[trigger] queue[i])
}

/// When none of the first `n` ids is live, the first live id of the
/// queue is the first live id of the rest, `n` places further on.
pub proof fn lemma_dropped(queue: Seq<u64>, live: Set<u64>, n: int)
    requires
        0 <= n <= queue.len(),
        dropped(queue, live, n),
    ensures
        first_live(queue, live) == match first_live(queue.skip(n), live) {
            Some(k) => Some(k + n),
            None => None,
        },
    decreases n,
{
    if n == 0 {
        assert(queue.skip(0) =~= queue);
    } else {
        assert(!live.contains(queue[0]));
        assert(dropped(queue.skip(1), live, n - 1)) by {
            assert forall|i: int| 0 <= i < n - 1 implies !live.contains(
                #[trigger] queue.skip(1)[i],
            ) by {
                assert(queue.skip(1)[i] == queue[i + 1]);
            }
        }
        lemma_dropped(queue.skip(1), live, n - 1);
        assert(queue.skip(1).skip(n - 1) =~= queue.skip(n));
    }
}

/// A task that is woken while nothing was ready is the next to run: its
/// id is then alone in the queue of ready tasks, so the executor is not
/// idle, and the next look at the queue hands out that task.
pub proof fn lemma_wake_after_idle(live: Set<u64>, id: u64)
    requires
        live.contains(id),
    ensures
        Seq::<u64>::empty().push(id).len() == 1,
        first_live(Seq::<u64>::empty().push(id), live) == Some(0int),
        Seq::<u64>::empty().push(id)[0] == id,
{
}

/// A task that is woken is found: once the id of a live task has joined
/// the queue of ready tasks, the executor is not idle and its next look
/// at the queue yields a task.
pub proof fn lemma_wake_is_seen(queue: Seq<u64>, live: Set<u64>, id: u64)
    requires
        live.contains(id),
    ensures
        queue.push(id).len() > 0,
        first_live(queue.push(id), live) is Some,
    decreases queue.len(),
{
    let grown = queue.push(id);
    if queue.len() == 0 {
        assert(grown[0] == id);
    } else if !live.contains(grown[0]) {
        assert(grown.skip(1) =~= queue.skip(1).push(id));
        lemma_wake_is_seen(queue.skip(1), live, id);
    }
}

/// A future that gives way once: pending at its first poll, ready at
/// its second.
pub struct YieldOnce(bool);

impl YieldOnce {
    /// Whether the future has been polled.
    pub closed spec fn polled(&self) -> bool {
        self.0
    }

    /// A future that has not been polled.
    pub fn new() -> (r: Self)
        ensures
            !r.polled(),
    {
        YieldOnce(false)
    }

    /// Whether the future has been polled.
    pub fn is_polled(&self) -> (r: bool)
        ensures
            r == self.polled(),
    {
        self.0
    }

    /// Polls the future on behalf of task `task`. The first poll enters
    /// the task among the yielders of the executor and is pending; every
    /// later poll is ready and changes nothing.
    pub fn poll(&mut self, executor: &mut Executor, task: u64) -> (r: Poll)
        requires
            old(executor).wf(),
            !old(self).polled() ==> old(executor).yielded().len() < 100,
        ensures
            final(executor).wf(),
            final(self).polled(),
            final(executor).tasks() == old(executor).tasks(),
            final(executor).ready() == old(executor).ready(),
            final(executor).spawned() == old(executor).spawned(),
            final(executor).wakers() == old(executor).wakers(),
            old(self).polled() ==> r == Poll::Ready && final(executor).yielded() == old(
                executor,
            ).yielded(),
            !old(self).polled() ==> r == Poll::Pending && final(executor).yielded() == old(
                executor,
            ).yielded().push(task),
    {
        if !self.0 {
            self.0 = true;
            executor.add_yielder(task);
            Poll::Pending
        } else {
            Poll::Ready
        }
    }
}

/// A future that gives way once.
pub fn yield_once() -> (r: YieldOnce)
    ensures
        !r.polled(),
{
    YieldOnce::new()
}

/// An executor that polls its tasks in turn until all have ended.
pub struct SimpleExecutor {
    task_queue: VecDeque<Task>,
}

impl SimpleExecutor {
    /// The tasks that have not ended, the next one to poll first.
    pub closed spec fn waiting(&self) -> Seq<Task> {
        self.task_queue@
    }

    /// An executor without tasks.
    pub fn new() -> (r: SimpleExecutor)
        ensures
            r.waiting() == Seq::<Task>::empty(),
    {
        SimpleExecutor { task_queue: VecDeque::new() }
    }

    /// Adds a task behind those that wait.
    pub fn spawn(&mut self, task: Task)
        ensures
            final(self).waiting() == old(self).waiting().push(task),
    {
        self.task_queue.push_back(task)
    }

    /// Polls the task at the front, through `poll`. A task that is ready
    /// has ended; a task that is pending goes to the back. Returns the
    /// task and the outcome, or nothing if no task waits.
    pub fn run_one<F: Fn(Task) -> Poll>(&mut self, poll: &F) -> (r: Option<(Task, Poll)>)
        requires
            forall|t: Task| poll.requires((t,)),
        ensures
            old(self).waiting().len() == 0 ==> r is None && final(self).waiting() == old(self).waiting(),
            old(self).waiting().len() > 0 ==> {
                &&& r is Some
                &&& (r->0).0 == old(self).waiting()[0]
                &&& poll.ensures(((r->0).0,), (r->0).1)
                &&& (r->0).1 == Poll::Ready ==> final(self).waiting() == old(self).waiting().skip(1)
                &&& (r->0).1 == Poll::Pending ==> final(self).waiting() == old(self).waiting().skip(
                    1,
                ).push(old(self).waiting()[0])
            },
    {
        match self.task_queue.pop_front() {
            Some(task) => {
                let outcome: Poll = poll(task);
                match outcome {
                    Poll::Ready => {},
                    Poll::Pending => {
                        self.task_queue.push_back(task);
                    },
                }
                Some((task, outcome))
            },
            None => None,
        }
    }

    /// Polls the tasks in turn, through `poll`, until none waits or
    /// `budget` polls are spent, each poll as `run_one` makes it. Returns
    /// whether every task has ended. If every poll is ready, a budget of
    /// one poll for each task is enough.
    pub fn run<F: Fn(Task) -> Poll>(&mut self, poll: &F, budget: usize) -> (done: bool)
        requires
            forall|t: Task| poll.requires((t,)),
        ensures
            done == (final(self).waiting().len() == 0),
            exists|polls: nat|
                #![trigger polled_to(poll, old(self).waiting(), final(self).waiting(), polls)]
                polls <= budget && polled_to(
                    poll,
                    old(self).waiting(),
                    final(self).waiting(),
                    polls,
                ) && (!done ==> polls == budget),
            always_ready(poll) && budget >= old(self).waiting().len() ==> done,
    {
        let mut left: usize = budget;
        let ghost mut polls: nat = 0;
        loop
            invariant
                forall|t: Task| poll.requires((t,)),
                polls + left == budget,
                polled_to(poll, old(self).waiting(), self.waiting(), polls),
                always_ready(poll) ==> self.waiting().len() + polls == old(self).waiting().len(),
            decreases left,
        {
            if self.task_queue.len() == 0 {
                return true;
            }
            if left == 0 {
                return false;
            }
            let ghost before = self.waiting();
            let polled: Option<(Task, Poll)> = self.run_one(poll);
            left -= 1;
            proof {
                assert(one_poll(poll, before, self.waiting()));
                lemma_polled_step(poll, old(self).waiting(), before, self.waiting(), polls);
                polls = polls + 1;
            }
        }
    }
}

/// One more poll extends a run of polls by one.
pub proof fn lemma_polled_step<F: Fn(Task) -> Poll>(
    poll: &F,
    before: Seq<Task>,
    mid: Seq<Task>,
    after: Seq<Task>,
    polls: nat,
)
    requires
        polled_to(poll, before, mid, polls),
        one_poll(poll, mid, after),
    ensures
        polled_to(poll, before, after, polls + 1),
{
    let more: nat = polls + 1;
    assert((more - 1) as nat == polls);
    assert(polled_to(poll, before, mid, (more - 1) as nat) && one_poll(poll, mid, after));
    assert(polled_to(poll, before, after, more));
}

/// Every poll through `poll` is ready.
pub open spec fn always_ready<F: Fn(Task) -> Poll>(poll: &F) -> bool {
    forall|t: Task, outcome: Poll| poll.ensures((t,), outcome) ==> outcome == Poll::Ready
}

/// `after` is the queue `before` after one poll of the task at its
/// front: the task has left the queue if the poll was ready, and has
/// gone to the back if it was pending.
pub open spec fn one_poll<F: Fn(Task) -> Poll>(poll: &F, before: Seq<Task>, after: Seq<Task>)
    -> bool {
    &&& before.len() > 0
    &&& exists|outcome: Poll|
        #![trigger poll.ensures((before[0],), outcome)]
        poll.ensures((before[0],), outcome) && after == if outcome == Poll::Ready {
            before.skip(1)
        } else {
            before.skip(1).push(before[0])
        }
}

/// `after` is the queue `before` after `polls` polls, each of the task
/// then at the front.
pub open spec fn polled_to<F: Fn(Task) -> Poll>(
    poll: &F,
    before: Seq<Task>,
    after: Seq<Task>,
    polls: nat,
) -> bool
    decreases polls,
{
    if polls == 0 {
        after == before
    } else {
        exists|mid: Seq<Task>|
            #![trigger one_poll(poll, mid, after)]
            polled_to(poll, before, mid, (polls - 1) as nat) && one_poll(poll, mid, after)
    }
}

} // verus!
