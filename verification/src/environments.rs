//! The handle registry: an explicit, thread-confined table that hands out
//! opaque integer handles for long-lived broker connections.
//!
//! The host platform cannot hold native references, so each built connection
//! is stored here and named by an integer handle.  Handles start at 1, grow
//! monotonically, and are never reused while the registry lives: removal
//! does not reset the allocation counter.  Each execution thread owns its
//! own registry instance, passed explicitly to every operation; a handle
//! minted on one thread means nothing on another.

use vstd::prelude::*;

verus! {

/// A table from integer handle to an owned connection resource.
pub struct HandleRegistry<T> {
    entries: Vec<(i32, T)>,
    counter: i32,
}

impl<T> HandleRegistry<T> {
    /// The handle the next insertion will return.
    pub closed spec fn next_handle(self) -> int {
        self.counter as int
    }

    /// Whether `h` currently names a stored resource.
    pub closed spec fn has(self, h: i32) -> bool {
        exists|i: int| 0 <= i < self.entries@.len() && (#[trigger] self.entries@[i]).0 == h
    }

    /// The resource stored under `h`, when `has(h)`.
    pub closed spec fn stored(self, h: i32) -> T {
        self.entries@[choose|i: int|
            0 <= i < self.entries@.len() && (#[trigger] self.entries@[i]).0 == h].1
    }

    /// The registry's invariant: the counter started at 1 and every live
    /// handle was minted below it, each exactly once.
    pub closed spec fn well_formed(self) -> bool {
        &&& 1 <= self.counter
        &&& forall|i: int|
            0 <= i < self.entries@.len() ==> 1 <= (#[trigger] self.entries@[i]).0
                < self.counter
        &&& forall|i: int, j: int|
            0 <= i < j < self.entries@.len() ==> (#[trigger] self.entries@[i]).0 != (
            #[trigger] self.entries@[j]).0
    }

    /// An empty registry.  No storage is allocated until the first insert.
    pub fn new() -> (r: Self)
        ensures
            r.well_formed(),
            r.next_handle() == 1,
            forall|h: i32| !r.has(h),
    {
        HandleRegistry { entries: Vec::new(), counter: 1 }
    }
}

/// Within a well-formed registry every live handle lies strictly below the
/// allocation counter and at or above 1.  Since an insertion returns the
/// counter's value and then advances it, and no operation ever lowers the
/// counter, the handles a registry hands out over its lifetime are unique
/// and strictly increasing, and a removed handle is never minted again.
pub proof fn lemma_handle_allocation<T>(reg: HandleRegistry<T>, h: i32)
    requires
        reg.well_formed(),
        reg.has(h),
    ensures
        1 <= h < reg.next_handle(),
{
}

/// Stores a connection and returns the fresh handle that names it.
pub fn insert_environment<T>(reg: &mut HandleRegistry<T>, env: T) -> (h: i32)
    requires
        old(reg).well_formed(),
        old(reg).next_handle() < i32::MAX,
    ensures
        final(reg).well_formed(),
        h == old(reg).next_handle(),
        1 <= h,
        !old(reg).has(h),
        final(reg).has(h),
        final(reg).stored(h) == env,
        final(reg).next_handle() == h + 1,
        forall|h2: i32|
            h2 != h ==> final(reg).has(h2) == old(reg).has(h2) && (old(reg).has(h2)
                ==> final(reg).stored(h2) == old(reg).stored(h2)),
{
    let h = reg.counter;
    reg.counter = reg.counter + 1;
    reg.entries.push((h, env));
    proof {
        let n = reg.entries@.len() as int - 1;
        assert(reg.entries@[n].0 == h);
        assert forall|h2: i32| h2 != h && old(reg).has(h2) implies reg.has(h2) by {
            let i = choose|i: int|
                0 <= i < old(reg).entries@.len() && (#[trigger] old(reg).entries@[i]).0 == h2;
            assert(reg.entries@[i].0 == h2);
        }
        assert(reg.stored(h) == env);
    }
    h
}

/// Removes the resource named by `id`, if any.  The allocation counter is
/// untouched, so the handle is gone for good.
pub fn remove_environment<T>(reg: &mut HandleRegistry<T>, id: i32)
    requires
        old(reg).well_formed(),
    ensures
        final(reg).well_formed(),
        final(reg).next_handle() == old(reg).next_handle(),
        !final(reg).has(id),
        forall|h2: i32|
            h2 != id ==> final(reg).has(h2) == old(reg).has(h2) && (old(reg).has(h2)
                ==> final(reg).stored(h2) == old(reg).stored(h2)),
{
    let n = reg.entries.len();
    let mut i: usize = 0;
    while i < n
        invariant
            old(reg).well_formed(),
            i <= n == reg.entries@.len(),
            *reg == *old(reg),
            forall|j: int| 0 <= j < i ==> (#[trigger] reg.entries@[j]).0 != id,
        decreases n - i,
    {
        if reg.entries[i].0 == id {
            reg.entries.remove(i);
            proof {
                let pre = old(reg).entries@;
                let post = reg.entries@;
                assert(keys_distinct(pre));
                assert forall|j: int, k: int| 0 <= j < k < post.len() implies (
                #[trigger] post[j]).0 != (#[trigger] post[k]).0 by {
                    let j2 = if j < i { j } else { j + 1 };
                    let k2 = if k < i { k } else { k + 1 };
                    assert(post[j] == pre[j2]);
                    assert(post[k] == pre[k2]);
                }
                assert(keys_distinct(post));
                assert forall|h2: i32| h2 != id && old(reg).has(h2) implies reg.has(h2) by {
                    let j = choose|j: int| 0 <= j < pre.len() && (#[trigger] pre[j]).0 == h2;
                    if j < i {
                        assert(post[j].0 == h2);
                    } else {
                        assert(post[j - 1].0 == h2);
                    }
                }
                assert forall|h2: i32| h2 != id && reg.has(h2) implies old(reg).has(h2)
                    && reg.stored(h2) == old(reg).stored(h2) by {
                    let j = choose|j: int| 0 <= j < post.len() && (#[trigger] post[j]).0 == h2;
                    if j < i {
                        assert(pre[j].0 == h2);
                        lemma_stored_at(*old(reg), j, h2);
                        lemma_stored_at(*reg, j, h2);
                    } else {
                        assert(pre[j + 1].0 == h2);
                        lemma_stored_at(*old(reg), j + 1, h2);
                        lemma_stored_at(*reg, j, h2);
                    }
                }
                assert forall|j: int| 0 <= j < post.len() implies (#[trigger] post[j]).0 != id by {
                    if j < i {
                        assert(pre[j].0 != id);
                    } else {
                        assert(pre[j + 1].0 != id);
                    }
                }
            }
            return ;
        }
        i = i + 1;
    }
}

/// Whether no two entries of `s` carry the same handle.
spec fn keys_distinct<T>(s: Seq<(i32, T)>) -> bool {
    forall|i: int, j: int| 0 <= i < j < s.len() ==> (#[trigger] s[i]).0 != (#[trigger] s[j]).0
}

/// In a well-formed registry, the entry found at any index carrying `h`
/// is the one `stored(h)` denotes.
proof fn lemma_stored_at<T>(reg: HandleRegistry<T>, i: int, h: i32)
    requires
        keys_distinct(reg.entries@),
        0 <= i < reg.entries@.len(),
        reg.entries@[i].0 == h,
    ensures
        reg.has(h),
        reg.stored(h) == reg.entries@[i].1,
{
    let j = choose|j: int| 0 <= j < reg.entries@.len() && (#[trigger] reg.entries@[j]).0 == h;
    if i < j {
        assert(reg.entries@[i].0 != reg.entries@[j].0);
    } else if j < i {
        assert(reg.entries@[j].0 != reg.entries@[i].0);
    }
}

/// Whether `id` currently names a stored resource.
pub fn contains_environment<T>(reg: &HandleRegistry<T>, id: i32) -> (b: bool)
    ensures
        b == reg.has(id),
{
    let n = reg.entries.len();
    let mut i: usize = 0;
    while i < n
        invariant
            i <= n == reg.entries@.len(),
            forall|j: int| 0 <= j < i ==> (#[trigger] reg.entries@[j]).0 != id,
        decreases n - i,
    {
        if reg.entries[i].0 == id {
            return true;
        }
        i = i + 1;
    }
    false
}

/// Borrows the resource named by `id` for one call of `f`, storing back the
/// resource `f` returns.  Yields what `f` returned, or nothing when the
/// handle is unknown, in which case the registry is untouched.
pub fn with_environment<T, R, F: FnOnce(T) -> (T, R)>(
    reg: &mut HandleRegistry<T>,
    id: i32,
    f: F,
) -> (r: Option<R>)
    requires
        old(reg).well_formed(),
        forall|t: T| #[trigger] call_requires(f, (t,)),
    ensures
        final(reg).well_formed(),
        final(reg).next_handle() == old(reg).next_handle(),
        r is Some <==> old(reg).has(id),
        final(reg).has(id) == old(reg).has(id),
        forall|h2: i32|
            h2 != id ==> final(reg).has(h2) == old(reg).has(h2) && (old(reg).has(h2)
                ==> final(reg).stored(h2) == old(reg).stored(h2)),
        old(reg).has(id) ==> exists|t2: T, rv: R|
            call_ensures(f, (old(reg).stored(id),), (t2, rv)) && r == Some(rv)
                && final(reg).stored(id) == t2,
        !old(reg).has(id) ==> *final(reg) == *old(reg),
{
    let n = reg.entries.len();
    let mut i: usize = 0;
    while i < n
        invariant
            old(reg).well_formed(),
            i <= n == reg.entries@.len(),
            *reg == *old(reg),
            forall|j: int| 0 <= j < i ==> (#[trigger] reg.entries@[j]).0 != id,
            forall|t: T| #[trigger] call_requires(f, (t,)),
        decreases n - i,
    {
        if reg.entries[i].0 == id {
            proof {
                lemma_stored_at(*reg, i as int, id);
            }
            let (k, t) = reg.entries.remove(i);
            let (t2, rv) = f(t);
            reg.entries.insert(i, (k, t2));
            proof {
                let pre = old(reg).entries@;
                let post = reg.entries@;
                assert(post =~= pre.update(i as int, (id, t2)));
                assert(keys_distinct(pre));
                assert forall|j: int, k: int| 0 <= j < k < post.len() implies (
                #[trigger] post[j]).0 != (#[trigger] post[k]).0 by {
                    assert(pre[j].0 != pre[k].0);
                    assert(post[j].0 == pre[j].0);
                    assert(post[k].0 == pre[k].0);
                }
                assert(keys_distinct(post));
                assert forall|h2: i32| old(reg).has(h2) implies reg.has(h2) by {
                    let j = choose|j: int| 0 <= j < pre.len() && (#[trigger] pre[j]).0 == h2;
                    assert(post[j].0 == h2);
                }
                assert forall|h2: i32| reg.has(h2) implies old(reg).has(h2) by {
                    let j = choose|j: int| 0 <= j < post.len() && (#[trigger] post[j]).0 == h2;
                    assert(pre[j].0 == h2);
                }
                assert forall|h2: i32| h2 != id && old(reg).has(h2) implies reg.stored(h2)
                    == old(reg).stored(h2) by {
                    let j = choose|j: int| 0 <= j < pre.len() && (#[trigger] pre[j]).0 == h2;
                    assert(j != i);
                    assert(post[j].0 == h2);
                    lemma_stored_at(*old(reg), j, h2);
                    lemma_stored_at(*reg, j, h2);
                }
                lemma_stored_at(*reg, i as int, id);
            }
            return Some(rv);
        }
        i = i + 1;
    }
    None
}

} // verus!
