//! Lifecycle of the capture-proof blackout overlay: whether it shows, and
//! the handshake with the window thread that owns one window per monitor.
//!
//! `show` asks for a window thread only on the hidden-to-showing edge;
//! `hide_blackout` asks the registered thread to close. A thread that registers after
//! a `hide_blackout` already landed must not create (or keep) any window, which it
//! learns from [`OverlayManager::register_thread`] and
//! [`OverlayManager::is_showing`].

use vstd::prelude::*;

verus! {

/// What [`OverlayManager::hide_blackout`] asks of the window thread.
#[derive(Debug, Clone, Copy, PartialEq, Eq, Structural)]
pub enum HideOutcome {
    /// The overlay was not showing: nothing to do.
    NotShowing,
    /// The overlay was showing: post a close to the registered window
    /// thread, if one has registered yet.
    Close(Option<u32>),
}

/// Whether the blackout shows, and the id of its window thread.
#[derive(Debug, Clone, Copy, PartialEq, Eq, Structural)]
pub struct OverlayManager {
    pub alive: bool,
    pub thread_id: Option<u32>,
}

impl OverlayManager {
    /// Not showing, no window thread.
    pub fn new() -> (m: OverlayManager)
        ensures
            !m.alive,
            m.thread_id is None,
    {
        OverlayManager { alive: false, thread_id: None }
    }

    /// Whether the blackout shows.
    pub fn is_showing(&self) -> (r: bool)
        ensures
            r == self.alive,
    {
        self.alive
    }

    /// Show the blackout on all monitors. Returns true when a window thread
    /// must be started (the overlay was hidden); showing twice is a no-op.
    pub fn show(&mut self) -> (spawn: bool)
        ensures
            final(self).alive,
            final(self).thread_id == old(self).thread_id,
            spawn == !old(self).alive,
    {
        let spawn = !self.alive;
        self.alive = true;
        spawn
    }

    /// Hide the blackout (no-op when it is not showing).
    pub fn hide_blackout(&mut self) -> (r: HideOutcome)
        ensures
            !final(self).alive,
            final(self).thread_id == old(self).thread_id,
            r == (if old(self).alive { HideOutcome::Close(old(self).thread_id) } else { HideOutcome::NotShowing }),
    {
        if !self.alive {
            return HideOutcome::NotShowing;
        }
        self.alive = false;
        HideOutcome::Close(self.thread_id)
    }

    /// A window thread came up as thread `tid`. Returns whether it should
    /// go on to create the windows (false when a hide already landed).
    pub fn register_thread(&mut self, tid: u32) -> (proceed: bool)
        ensures
            *final(self) == (OverlayManager { thread_id: Some(tid), ..*old(self) }),
            proceed == old(self).alive,
    {
        self.thread_id = Some(tid);
        self.alive
    }
}

impl Default for OverlayManager {
    fn default() -> (m: OverlayManager)
        ensures
            !m.alive,
            m.thread_id is None,
    {
        OverlayManager::new()
    }
}

/// The items of `list` that are not in `removed`, in order.
pub open spec fn without<A>(list: Seq<A>, removed: Seq<A>) -> Seq<A>
    decreases list.len(),
{
    if list.len() == 0 {
        Seq::empty()
    } else if removed.contains(list.last()) {
        without(list.drop_last(), removed)
    } else {
        without(list.drop_last(), removed).push(list.last())
    }
}

/// An item stays in `without(list, removed)` exactly when it is in `list`
/// and not in `removed`.
pub proof fn lemma_without_contains<A>(list: Seq<A>, removed: Seq<A>, x: A)
    ensures
        without(list, removed).contains(x) <==> (list.contains(x) && !removed.contains(x)),
    decreases list.len(),
{
    if list.len() > 0 {
        let init = list.drop_last();
        let w = without(init, removed);
        lemma_without_contains(init, removed, x);
        if list.contains(x) && x != list.last() {
            let k = choose|k: int| 0 <= k < list.len() && list[k] == x;
            assert(k != list.len() - 1);
            assert(init[k] == x);
        }
        if init.contains(x) {
            let k = choose|k: int| 0 <= k < init.len() && init[k] == x;
            assert(list[k] == x);
        }
        assert(list[list.len() - 1] == list.last());
        assert(list.contains(x) <==> (init.contains(x) || x == list.last()));
        if !removed.contains(list.last()) {
            let p = w.push(list.last());
            if p.contains(x) && x != list.last() {
                let k = choose|k: int| 0 <= k < p.len() && p[k] == x;
                assert(k != w.len());
                assert(w[k] == x);
            }
            if w.contains(x) {
                let k = choose|k: int| 0 <= k < w.len() && w[k] == x;
                assert(p[k] == x);
            }
            assert(p[w.len() as int] == list.last());
            assert(p.contains(x) <==> (w.contains(x) || x == list.last()));
        }
    }
}

/// Dropping items from a strictly increasing list leaves it strictly
/// increasing, and every item it keeps comes from the list.
pub proof fn lemma_without_increasing(list: Seq<u64>, removed: Seq<u64>)
    requires
        forall|i: int, j: int| 0 <= i < j < list.len() ==> list[i] < list[j],
    ensures
        forall|i: int, j: int| 0 <= i < j < without(list, removed).len()
            ==> without(list, removed)[i] < without(list, removed)[j],
        forall|i: int| 0 <= i < without(list, removed).len() ==> list.contains(#[trigger] without(list, removed)[i]),
    decreases list.len(),
{
    if list.len() > 0 {
        let init = list.drop_last();
        lemma_without_increasing(init, removed);
        let w = without(init, removed);
        assert forall|i: int| 0 <= i < w.len() implies w[i] < list.last() && list.contains(w[i]) by {
            let k = choose|k: int| 0 <= k < init.len() && init[k] == w[i];
            assert(list[k] == w[i]);
            assert(list[k] < list[list.len() - 1]);
        }
        assert(list[list.len() - 1] == list.last());
    }
}

/// The shared list of live overlay windows after one generation destroyed
/// its own windows `created`: a successor's windows stay listed.
pub fn forget_windows(list: &Vec<isize>, created: &Vec<isize>) -> (r: Vec<isize>)
    ensures
        r@ == without(list@, created@),
{
    let mut out: Vec<isize> = Vec::new();
    let mut i: usize = 0;
    while i < list.len()
        invariant
            i <= list@.len(),
            out@ == without(list@.take(i as int), created@),
        decreases list@.len() - i,
    {
        let h = list[i];
        let mut mine = false;
        let mut j: usize = 0;
        while j < created.len()
            invariant
                j <= created@.len(),
                mine == exists|q: int| 0 <= q < j && created@[q] == h,
            decreases created@.len() - j,
        {
            if created[j] == h {
                mine = true;
            }
            j = j + 1;
        }
        proof {
            assert(list@.take(i + 1).drop_last() =~= list@.take(i as int));
            assert(mine == created@.contains(h));
        }
        if !mine {
            out.push(h);
        }
        i = i + 1;
    }
    proof {
        assert(list@.take(list@.len() as int) =~= list@);
    }
    out
}

/// Showing then hiding leaves the overlay hidden, and the hide closes the
/// thread the show started once it has registered.
pub proof fn law_show_then_hide(m: OverlayManager, tid: u32)
    requires
        !m.alive,
    ensures
        ({
            let shown = OverlayManager { alive: true, ..m };
            let registered = OverlayManager { thread_id: Some(tid), ..shown };
            &&& registered.alive
            &&& (if registered.alive { HideOutcome::Close(registered.thread_id) } else { HideOutcome::NotShowing })
                == HideOutcome::Close(Some(tid))
        }),
{
}

} // verus!
