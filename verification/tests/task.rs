use futures::executor::LocalPool;
use futures::task::LocalSpawnExt;
use purple_rs::{sleep, SleepFuture, SleepPoll, TimerVerdict};
use std::cell::RefCell;
use std::future::Future;
use std::pin::Pin;
use std::rc::Rc;
use std::task::{Context, Poll, Waker};

#[test]
fn first_poll_is_pending_with_the_timer() {
    let mut s = sleep(1000);
    assert_eq!(s.duration(), 1000);
    assert!(!s.slept());
    assert_eq!(s.poll(), SleepPoll::Pending { timer: 1000 });
    assert!(s.slept());
    assert_eq!(s.duration(), 1000);
}

#[test]
fn second_poll_is_ready() {
    let mut s = SleepFuture::new(250);
    assert_eq!(s.poll(), SleepPoll::Pending { timer: 250 });
    assert_eq!(s.poll(), SleepPoll::Ready);
    assert_eq!(s.poll(), SleepPoll::Ready);
    assert!(s.slept());
}

#[test]
fn zero_and_longest_sleep_behave_alike() {
    for d in [0u32, 1, u32::MAX] {
        let mut s = sleep(d);
        assert_eq!(s.poll(), SleepPoll::Pending { timer: d });
        assert_eq!(s.poll(), SleepPoll::Ready);
    }
}

#[test]
fn timer_wakes_drains_and_does_not_repeat() {
    assert_eq!(SleepFuture::timer_fired(), TimerVerdict { wake: true, drain: true, repeat: false });
}

type Timers = Rc<RefCell<Vec<(u32, Waker)>>>;

struct Sleep {
    state: SleepFuture,
    timers: Timers,
}

impl Future for Sleep {
    type Output = ();

    fn poll(mut self: Pin<&mut Self>, cx: &mut Context<'_>) -> Poll<()> {
        match self.state.poll() {
            SleepPoll::Ready => Poll::Ready(()),
            SleepPoll::Pending { timer } => {
                self.timers.borrow_mut().push((timer, cx.waker().clone()));
                Poll::Pending
            }
        }
    }
}

fn fire(pool: &mut LocalPool, timers: &Timers) -> bool {
    let (_, waker) = timers.borrow_mut().remove(0);
    let verdict = SleepFuture::timer_fired();
    if verdict.wake {
        waker.wake_by_ref();
    }
    if verdict.drain {
        pool.run_until_stalled();
    }
    verdict.repeat
}

#[test]
fn task_runs_to_each_sleep_and_no_further() {
    let mut pool = LocalPool::new();
    let timers: Timers = Rc::new(RefCell::new(Vec::new()));
    let seen: Rc<RefCell<Vec<&'static str>>> = Rc::new(RefCell::new(Vec::new()));

    let (t, s) = (timers.clone(), seen.clone());
    pool.spawner()
        .spawn_local(async move {
            s.borrow_mut().push("before sleep");
            Sleep { state: sleep(1000), timers: t.clone() }.await;
            s.borrow_mut().push("after sleep");
            Sleep { state: sleep(1000), timers: t.clone() }.await;
            s.borrow_mut().push("after second sleep");
        })
        .expect("Failed to enqueue task");
    pool.run_until_stalled();

    assert_eq!(*seen.borrow(), vec!["before sleep"]);
    assert_eq!(timers.borrow().len(), 1);
    assert_eq!(timers.borrow()[0].0, 1000);

    pool.run_until_stalled();
    assert_eq!(*seen.borrow(), vec!["before sleep"]);
    assert_eq!(timers.borrow().len(), 1);

    assert!(!fire(&mut pool, &timers));
    assert_eq!(*seen.borrow(), vec!["before sleep", "after sleep"]);
    assert_eq!(timers.borrow().len(), 1);
    assert_eq!(timers.borrow()[0].0, 1000);

    assert!(!fire(&mut pool, &timers));
    assert_eq!(*seen.borrow(), vec!["before sleep", "after sleep", "after second sleep"]);
    assert!(timers.borrow().is_empty());
}

#[test]
fn waking_after_the_task_is_gone_does_nothing() {
    let mut pool = LocalPool::new();
    let timers: Timers = Rc::new(RefCell::new(Vec::new()));
    let t = timers.clone();
    pool.spawner()
        .spawn_local(async move {
            Sleep { state: sleep(0), timers: t.clone() }.await;
        })
        .expect("Failed to enqueue task");
    pool.run_until_stalled();
    let waker = timers.borrow()[0].1.clone();
    assert!(!fire(&mut pool, &timers));
    waker.wake_by_ref();
    pool.run_until_stalled();
    assert!(timers.borrow().is_empty());
}
