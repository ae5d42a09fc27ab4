//! A cooperative scheduler for script threads. Each frame every thread whose
//! wake-up time has come is resumed once; threads that fail are dropped and
//! the others keep their order. The clock and the threads themselves belong
//! to the caller: it says which threads are due and what their status is.
use vstd::prelude::*;

verus! {

/// The status of a script thread.
#[derive(Clone, Copy, Debug, PartialEq, Eq, Structural)]
pub enum ThreadStatus {
    /// Just created, or suspended at a yield.
    Resumable,
    /// Currently running.
    Running,
    /// Returned from its function.
    Finished,
    /// Stopped by an error.
    Error,
}

/// What a tick does with one thread before any resumption.
#[derive(Clone, Copy, Debug, PartialEq, Eq, Structural)]
pub enum TickStep {
    /// Leave the thread in the list without resuming it.
    Keep,
    /// Resume the thread; it stays in the list when the resumption succeeds
    /// and is taken out when it raises an error.
    Resume,
    /// Take the thread out of the list.
    Drop,
}

pub open spec fn spec_tick_step(due: bool, status: ThreadStatus) -> TickStep {
    if !due {
        TickStep::Keep
    } else {
        match status {
            ThreadStatus::Resumable => TickStep::Resume,
            ThreadStatus::Error => TickStep::Drop,
            _ => TickStep::Keep,
        }
    }
}

/// A thread is resumed only when it is due and resumable, and dropped
/// before resumption only when it is due and stopped by an error; a thread
/// that is not due is kept and not resumed, whatever its status.
pub proof fn law_only_due_threads_are_touched(due: bool, status: ThreadStatus)
    ensures
        !due ==> spec_tick_step(due, status) == TickStep::Keep,
        (spec_tick_step(due, status) == TickStep::Resume) == (due && status == ThreadStatus::Resumable),
        (spec_tick_step(due, status) == TickStep::Drop) == (due && status == ThreadStatus::Error),
        (spec_tick_step(due, status) == TickStep::Keep) == (!due || status == ThreadStatus::Running
            || status == ThreadStatus::Finished),
{
}

/// What a tick does with a thread that is `due` (its wake-up time is not
/// after the current time) and has the given status: a thread that is not
/// due, or is running or finished, is kept as it is; a due resumable thread
/// is resumed; a due thread that stopped by an error is dropped.
pub fn tick_step(due: bool, status: ThreadStatus) -> (step: TickStep)
    ensures
        step == spec_tick_step(due, status),
        !due ==> step == TickStep::Keep,
        (step == TickStep::Resume) == (due && status == ThreadStatus::Resumable),
        (step == TickStep::Drop) == (due && status == ThreadStatus::Error),
{
    if !due {
        return TickStep::Keep;
    }
    match status {
        ThreadStatus::Resumable => TickStep::Resume,
        ThreadStatus::Error => TickStep::Drop,
        _ => TickStep::Keep,
    }
}

/// Whether the first value a resumed thread yielded asks to wait: scripts
/// call `task.wait(t)`, which yields the tag `"wait"` and then `t`, the
/// number of seconds to sleep before the thread is resumed again.
pub fn is_wait_request(tag: &str) -> (is_wait: bool)
    ensures
        is_wait == (tag@ == "wait"@),
{
    proof {
        reveal_strlit("wait");
    }
    if tag.unicode_len() != 4 {
        return false;
    }
    let is_wait = tag.get_char(0) == 'w' && tag.get_char(1) == 'a' && tag.get_char(2) == 'i'
        && tag.get_char(3) == 't';
    if is_wait {
        assert(tag@ =~= "wait"@);
    }
    is_wait
}

/// The first `n` items of `items`, without those whose flag in `keep` is false.
pub open spec fn spec_kept<T>(items: Seq<T>, keep: Seq<bool>, n: nat) -> Seq<T>
    decreases n,
{
    if n == 0 {
        Seq::empty()
    } else {
        let rest = spec_kept(items, keep, (n - 1) as nat);
        if keep[n - 1] {
            rest.push(items[n - 1])
        } else {
            rest
        }
    }
}


/// Sweeping with every flag set leaves the list as it is.
pub proof fn law_sweep_keeping_all_changes_nothing<T>(items: Seq<T>, keep: Seq<bool>, n: nat)
    requires
        n <= items.len(),
        n <= keep.len(),
        forall|k: int| 0 <= k < n ==> keep[k],
    ensures
        spec_kept(items, keep, n) == items.take(n as int),
    decreases n,
{
    if n > 0 {
        law_sweep_keeping_all_changes_nothing(items, keep, (n - 1) as nat);
        assert(items.take(n as int) =~= items.take(n - 1).push(items[n - 1]));
    }
}

/// Sweeping never reorders: each thread left in the list is one of the
/// originals, the later of two survivors was spawned later, and exactly the
/// flagged threads survive.
pub proof fn law_sweep_keeps_order<T>(items: Seq<T>, keep: Seq<bool>, n: nat)
    requires
        n <= items.len(),
        n <= keep.len(),
    ensures
        exists|idx: Seq<int>| {
            &&& #[trigger] idx.len() == spec_kept(items, keep, n).len()
            &&& forall|a: int| 0 <= a < idx.len() ==> 0 <= #[trigger] idx[a] < n && keep[idx[a]]
                && spec_kept(items, keep, n)[a] == items[idx[a]]
            &&& forall|a: int, b: int| 0 <= a < b < idx.len() ==> idx[a] < idx[b]
            &&& forall|k: int| 0 <= k < n && keep[k] ==> idx.contains(k)
        },
    decreases n,
{
    if n == 0 {
        let idx = Seq::<int>::empty();
        assert(idx.len() == spec_kept(items, keep, n).len());
    } else {
        law_sweep_keeps_order(items, keep, (n - 1) as nat);
        let prev = spec_kept(items, keep, (n - 1) as nat);
        let idx0 = choose|idx: Seq<int>| {
            &&& #[trigger] idx.len() == prev.len()
            &&& forall|a: int| 0 <= a < idx.len() ==> 0 <= #[trigger] idx[a] < n - 1 && keep[idx[a]]
                && prev[a] == items[idx[a]]
            &&& forall|a: int, b: int| 0 <= a < b < idx.len() ==> idx[a] < idx[b]
            &&& forall|k: int| 0 <= k < n - 1 && keep[k] ==> idx.contains(k)
        };
        if keep[n - 1] {
            let idx = idx0.push(n - 1);
            assert forall|k: int| 0 <= k < n && keep[k] implies idx.contains(k) by {
                if k == n - 1 {
                    assert(idx[idx.len() - 1] == k);
                } else {
                    let a = choose|a: int| 0 <= a < idx0.len() && idx0[a] == k;
                    assert(idx[a] == k);
                }
            }
            assert(idx.len() == spec_kept(items, keep, n).len());
        } else {
            assert(idx0.len() == spec_kept(items, keep, n).len());
        }
    }
}

/// The script threads waiting to be resumed, in the order they were spawned.
pub struct LuaScheduler<T> {
    threads: Vec<T>,
}

impl<T> View for LuaScheduler<T> {
    type V = Seq<T>;

    closed spec fn view(&self) -> Seq<T> {
        self.threads@
    }
}

impl<T> LuaScheduler<T> {
    /// A scheduler with no threads.
    pub fn new() -> (s: Self)
        ensures
            s@ == Seq::<T>::empty(),
    {
        LuaScheduler { threads: Vec::new() }
    }

    /// Adds a thread at the end of the list.
    pub fn spawn(&mut self, thread: T)
        ensures
            final(self)@ == old(self)@.push(thread),
    {
        self.threads.push(thread);
    }

    /// The number of threads.
    pub fn len(&self) -> (n: usize)
        ensures
            n == self@.len(),
    {
        self.threads.len()
    }

    /// The `i`-th thread, to resume it or move its wake-up time.
    pub fn thread_mut(&mut self, i: usize) -> (thread: &mut T)
        requires
            i < old(self)@.len(),
        ensures
            *thread == old(self)@[i as int],
            final(self)@ == old(self)@.update(i as int, *final(thread)),
    {
        &mut self.threads[i]
    }

    /// Takes out every thread whose flag in `keep` is false; the others stay
    /// in their order.
    pub fn sweep(&mut self, keep: &Vec<bool>)
        requires
            keep@.len() == old(self)@.len(),
        ensures
            final(self)@ == spec_kept(old(self)@, keep@, old(self)@.len()),
    {
        let ghost original = self.threads@;
        let n = keep.len();
        let mut i: usize = 0;
        let mut j: usize = 0;
        while j < n
            invariant
                n == keep@.len(),
                n == original.len(),
                j <= n,
                i <= j,
                i == spec_kept(original, keep@, j as nat).len(),
                self.threads@ == spec_kept(original, keep@, j as nat) + original.subrange(j as int, n as int),
            decreases n - j,
        {
            let ghost kept_before = spec_kept(original, keep@, j as nat);
            assert(self.threads@[i as int] == original[j as int]);
            if keep[j] {
                i = i + 1;
            } else {
                self.threads.remove(i);
            }
            assert(self.threads@ =~= spec_kept(original, keep@, (j + 1) as nat) + original.subrange(j + 1, n as int));
            j = j + 1;
        }
        assert(original.subrange(n as int, n as int) =~= Seq::<T>::empty());
        assert(self.threads@ =~= spec_kept(original, keep@, n as nat));
    }
}

} // verus!
