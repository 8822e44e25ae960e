use kernel_core::interrupts::{a_sleep, global_time_ms, wait_block, Clock, Timer};
use kernel_core::task::executor::{
    yield_once, Executor, ExecutorError, Poll, SimpleExecutor, Task, TaskIds, YieldOnce,
};

#[test]
fn task_ids_count_up() {
    let mut ids = TaskIds::new();
    assert!(ids.has_next());
    assert_eq!(ids.task(), Task { id: 0 });
    assert_eq!(ids.task(), Task { id: 1 });
    assert_eq!(ids.task(), Task { id: 2 });
}

#[test]
fn new_executor_is_idle() {
    let mut ex = Executor::new();
    assert!(ex.is_idle());
    assert_eq!(ex.ready_count(), 0);
    assert_eq!(ex.next_ready(), None);
    assert!(!ex.is_alive(0));
    assert!(ex.can_wake());
    assert!(ex.can_spawn(&Task { id: 0 }));
    assert_eq!(ex.admit_spawned(), Ok(()));
    assert_eq!(ex.wake_yielders(), Ok(()));
}

#[test]
fn spawned_tasks_run_in_order() {
    let mut ex = Executor::new();
    for id in [7u64, 3, 9] {
        ex.spawner_run(Task { id });
    }
    assert!(!ex.is_idle());
    assert_eq!(ex.ready_count(), 0);
    assert!(!ex.is_alive(7));
    assert_eq!(ex.admit_spawned(), Ok(()));
    assert!(ex.is_alive(7) && ex.is_alive(3) && ex.is_alive(9));
    assert_eq!(ex.ready_count(), 3);
    assert_eq!(ex.next_ready(), Some((7, true)));
    ex.complete(7, Poll::Pending);
    assert_eq!(ex.next_ready(), Some((3, true)));
    ex.complete(3, Poll::Ready);
    assert!(!ex.is_alive(3));
    assert_eq!(ex.next_ready(), Some((9, true)));
    ex.complete(9, Poll::Pending);
    assert_eq!(ex.next_ready(), None);
    assert!(ex.is_idle());
    assert!(ex.is_alive(7) && ex.is_alive(9));
}

#[test]
fn waker_is_made_once_per_task() {
    let mut ex = Executor::new();
    ex.spawn(Task { id: 1 });
    assert_eq!(ex.next_ready(), Some((1, true)));
    ex.complete(1, Poll::Pending);
    ex.wake(1);
    assert_eq!(ex.next_ready(), Some((1, false)));
    ex.complete(1, Poll::Ready);
    ex.spawn(Task { id: 1 });
    assert_eq!(ex.next_ready(), Some((1, true)));
}

#[test]
fn woken_task_is_polled_after_halt() {
    let mut ex = Executor::new();
    ex.spawn(Task { id: 4 });
    assert_eq!(ex.next_ready(), Some((4, true)));
    ex.complete(4, Poll::Pending);
    assert_eq!(ex.next_ready(), None);
    assert!(ex.is_idle());
    ex.wake(4);
    assert!(!ex.is_idle());
    assert_eq!(ex.next_ready(), Some((4, false)));
}

#[test]
fn ids_of_ended_tasks_are_dropped() {
    let mut ex = Executor::new();
    ex.spawn(Task { id: 1 });
    ex.spawn(Task { id: 2 });
    ex.wake(1);
    ex.wake(5);
    ex.wake(2);
    assert_eq!(ex.next_ready(), Some((1, true)));
    ex.complete(1, Poll::Ready);
    assert_eq!(ex.next_ready(), Some((2, true)));
    ex.complete(2, Poll::Pending);
    assert_eq!(ex.ready_count(), 3);
    assert_eq!(ex.next_ready(), Some((2, false)));
    assert_eq!(ex.ready_count(), 0);
    ex.complete(2, Poll::Ready);
    ex.wake(1);
    ex.wake(2);
    assert_eq!(ex.next_ready(), None);
    assert_eq!(ex.ready_count(), 0);
}

#[test]
fn duplicate_spawn_is_an_error() {
    let mut ex = Executor::new();
    ex.spawn(Task { id: 1 });
    assert!(!ex.can_spawn(&Task { id: 1 }));
    assert!(ex.can_spawn(&Task { id: 2 }));
    ex.spawner_run(Task { id: 2 });
    ex.spawner_run(Task { id: 1 });
    ex.spawner_run(Task { id: 3 });
    assert_eq!(ex.admit_spawned(), Err(ExecutorError::DuplicateTask(1)));
    assert!(ex.is_alive(2));
    assert!(!ex.is_alive(3));
    assert_eq!(ex.admit_spawned(), Ok(()));
    assert!(ex.is_alive(3));
    let mut ex = Executor::new();
    ex.spawner_run(Task { id: 8 });
    ex.spawner_run(Task { id: 8 });
    assert_eq!(ex.admit_spawned(), Err(ExecutorError::DuplicateTask(8)));
}

#[test]
fn queues_hold_one_hundred() {
    let mut ex = Executor::new();
    for id in 0..100u64 {
        ex.spawner_run(Task { id });
    }
    assert!(!ex.can_hand_over());
    assert_eq!(ex.admit_spawned(), Ok(()));
    assert!(ex.can_hand_over());
    assert_eq!(ex.ready_count(), 100);
    assert!(!ex.can_wake());
    assert!(!ex.can_spawn(&Task { id: 100 }));
    ex.spawner_run(Task { id: 100 });
    assert_eq!(ex.admit_spawned(), Err(ExecutorError::QueueFull));
    for id in 0..100u64 {
        assert_eq!(ex.next_ready(), Some((id, true)));
    }
    assert_eq!(ex.next_ready(), None);
}

#[test]
fn yield_once_is_pending_then_ready() {
    let mut ex = Executor::new();
    ex.spawn(Task { id: 1 });
    assert_eq!(ex.next_ready(), Some((1, true)));
    let mut y: YieldOnce = yield_once();
    assert!(!y.is_polled());
    assert_eq!(y.poll(&mut ex, 1), Poll::Pending);
    assert!(y.is_polled());
    ex.complete(1, Poll::Pending);
    assert!(ex.is_idle());
    assert_eq!(ex.wake_yielders(), Ok(()));
    assert_eq!(ex.next_ready(), Some((1, false)));
    assert_eq!(y.poll(&mut ex, 1), Poll::Ready);
    assert_eq!(y.poll(&mut ex, 1), Poll::Ready);
    assert_eq!(ex.wake_yielders(), Ok(()));
    assert_eq!(ex.next_ready(), None);
}

#[test]
fn yielders_wake_in_order_until_the_queue_is_full() {
    let mut ex = Executor::new();
    for id in [5u64, 6, 7] {
        assert!(ex.can_yield());
        ex.add_yielder(id);
    }
    ex.spawn(Task { id: 5 });
    ex.spawn(Task { id: 6 });
    ex.spawn(Task { id: 7 });
    assert_eq!(ex.wake_yielders(), Ok(()));
    let mut order = Vec::new();
    while let Some((id, _)) = ex.next_ready() {
        order.push(id);
    }
    assert_eq!(order, vec![5, 6, 7, 5, 6, 7]);
    for id in 0..100u64 {
        assert!(ex.can_yield());
        ex.add_yielder(id);
    }
    assert!(!ex.can_yield());
    for _ in 0..98 {
        ex.wake(0);
    }
    assert_eq!(ex.wake_yielders(), Err(ExecutorError::QueueFull));
    assert_eq!(ex.ready_count(), 100);
}

#[test]
fn simple_executor_polls_round_robin() {
    let mut ex = SimpleExecutor::new();
    for id in 0..3u64 {
        ex.spawn(Task { id });
    }
    let polls = std::cell::RefCell::new(Vec::new());
    let poll = |t: Task| {
        polls.borrow_mut().push(t.id);
        let seen = polls.borrow().iter().filter(|i| **i == t.id).count() as u64;
        if seen > t.id {
            Poll::Ready
        } else {
            Poll::Pending
        }
    };
    assert_eq!(ex.run_one(&poll), Some((Task { id: 0 }, Poll::Ready)));
    assert!(!ex.run(&poll, 2));
    assert!(ex.run(&poll, 100));
    assert_eq!(*polls.borrow(), vec![0, 1, 2, 1, 2, 2]);
    assert_eq!(ex.run_one(&poll), None);
    assert!(ex.run(&poll, 0));
}

#[test]
fn simple_executor_stops_when_the_budget_is_spent() {
    let mut ex = SimpleExecutor::new();
    for id in 0..3u64 {
        ex.spawn(Task { id });
    }
    let count = std::cell::Cell::new(0);
    let never = |_t: Task| {
        count.set(count.get() + 1);
        Poll::Pending
    };
    assert!(!ex.run(&never, 7));
    assert_eq!(count.get(), 7);
    assert_eq!(ex.run_one(&never), Some((Task { id: 1 }, Poll::Pending)));
    let always = |_t: Task| Poll::Ready;
    assert!(!ex.run(&always, 2));
    assert!(ex.run(&always, 1));
}

#[test]
fn clock_ticks_and_wakes_in_slot_order() {
    let mut clock = Clock::new();
    assert_eq!(global_time_ms(&clock), 0);
    assert!(clock.wakers.iter().all(|w| w.is_none()));
    assert_eq!(clock.add_waker(10), 0);
    assert_eq!(clock.add_waker(11), 1);
    clock.wakers[0] = None;
    assert_eq!(clock.add_waker(12), 0);
    assert_eq!(clock.add_waker(13), 2);
    assert_eq!(clock.tick(), vec![12, 11, 13]);
    assert_eq!(global_time_ms(&clock), 1);
    assert!(clock.wakers.iter().all(|w| w.is_none()));
    assert_eq!(clock.tick(), Vec::<u64>::new());
    assert_eq!(global_time_ms(&clock), 2);
}

#[test]
fn clock_wraps_at_the_end_of_time() {
    let mut clock = Clock::new();
    clock.time_ms = u64::MAX;
    clock.tick();
    assert_eq!(global_time_ms(&clock), 0);
}

#[test]
fn full_waker_table_registers_nothing() {
    let mut clock = Clock::new();
    for task in 0..128u64 {
        assert_eq!(clock.add_waker(task), task);
    }
    assert_eq!(clock.add_waker(999), 0);
    assert_eq!(clock.wakers[0], Some(0));
    assert_eq!(clock.tick(), (0..128).collect::<Vec<u64>>());
}

#[test]
fn timer_ordering() {
    let mut clock = Clock::new();
    let sleeps = [(0u64, a_sleep(&clock, 5)), (1, a_sleep(&clock, 10)), (2, a_sleep(&clock, 15))];
    assert_eq!(sleeps[0].1.deadline(), 5);
    assert_eq!(sleeps[2].1.deadline(), 15);
    let mut resolved: Vec<Option<u64>> = vec![None; 3];
    let mut ready: Vec<u64> = vec![0, 1, 2];
    while global_time_ms(&clock) < 16 {
        for task in ready.drain(..) {
            let (_, timer) = sleeps[task as usize];
            if resolved[task as usize].is_none() {
                match timer.poll(&mut clock, task) {
                    Poll::Ready => resolved[task as usize] = Some(global_time_ms(&clock)),
                    Poll::Pending => {}
                }
            }
        }
        ready = clock.tick();
    }
    assert_eq!(resolved, vec![Some(5), Some(10), Some(15)]);
    assert_eq!(global_time_ms(&clock), 16);
}

#[test]
fn timer_poll_registers_a_waker_each_time() {
    let mut clock = Clock::new();
    clock.time_ms = 100;
    let t = Timer::new(&clock, 2);
    assert_eq!(t.deadline(), 102);
    assert_eq!(t.poll(&mut clock, 3), Poll::Pending);
    assert_eq!(t.poll(&mut clock, 3), Poll::Pending);
    assert_eq!(clock.wakers[0], Some(3));
    assert_eq!(clock.wakers[1], Some(3));
    assert_eq!(clock.wakers[2], None);
    assert_eq!(clock.tick(), vec![3, 3]);
    assert_eq!(clock.tick(), Vec::<u64>::new());
    assert_eq!(t.poll(&mut clock, 3), Poll::Ready);
    assert!(clock.wakers.iter().all(|w| w.is_none()));
    assert_eq!(Timer::new(&clock, 0).poll(&mut clock, 1), Poll::Ready);
}

#[test]
fn busy_wait_ends_after_the_interval() {
    assert!(!wait_block(10, 5, 10));
    assert!(!wait_block(10, 5, 15));
    assert!(wait_block(10, 5, 16));
    assert!(wait_block(0, 0, 1));
    assert!(!wait_block(0, 0, 0));
}
