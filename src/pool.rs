use vstd::prelude::*;

verus! {

/// A handle names a slot of a pool: slot `i` has handle `i + 1`, so `0` is
/// never a valid handle.
pub type StaticPoolHandle = usize;

/// The item that handle `h` reaches in slots `s`: the content of slot `h - 1`
/// when `h` is in `1..=s.len()`, and `None` otherwise.
pub open spec fn slot_of<T>(s: Seq<Option<T>>, h: int) -> Option<T> {
    if 1 <= h <= s.len() {
        s[h - 1]
    } else {
        None
    }
}

/// Slots `s` after handle `h` is released: its slot becomes free when `h` is
/// in range, and nothing changes otherwise.
pub open spec fn released<T>(s: Seq<Option<T>>, h: int) -> Seq<Option<T>> {
    if 1 <= h <= s.len() {
        s.update(h - 1, None)
    } else {
        s
    }
}

/// `h` is the handle of the lowest free slot of `s`.
pub open spec fn is_first_free<T>(s: Seq<Option<T>>, h: int) -> bool {
    &&& 1 <= h <= s.len()
    &&& s[h - 1] is None
    &&& forall|j: int| 0 <= j < h - 1 ==> #[trigger] s[j] is Some
}

/// Every slot of `s` is in use.
pub open spec fn is_full<T>(s: Seq<Option<T>>) -> bool {
    forall|j: int| 0 <= j < s.len() ==> #[trigger] s[j] is Some
}

/// `v` is a value that `T::default()` may return.
pub open spec fn is_default<T: Default>(v: T) -> bool {
    call_ensures(T::default, (), v)
}

/// One allocation takes slots `pre` to `post` and returns `r`: the lowest free
/// slot is taken and reset to the default value, or, when every slot is in
/// use, nothing changes and no handle is returned.
pub open spec fn allocated<T: Default>(
    pre: Seq<Option<T>>,
    post: Seq<Option<T>>,
    r: Option<StaticPoolHandle>,
) -> bool {
    match r {
        Some(h) => {
            &&& is_first_free(pre, h as int)
            &&& post == pre.update(h - 1, post[h - 1])
            &&& post[h - 1] matches Some(v) && is_default(v)
        },
        None => is_full(pre) && post == pre,
    }
}

/// A fixed-sized pool of `N` items of type `T`, accessed through
/// `StaticPoolHandle`s.
///
/// All `N` slots are created up front; allocation only marks a slot as in use.
/// The pool keeps no count of the slots in use: the occupancy flags are the
/// only record of it.
pub struct StaticPool<T, const N: usize> {
    items: Vec<T>,
    free: Vec<bool>,
}

impl<T, const N: usize> View for StaticPool<T, N> {
    /// Slot `i` is `Some(v)` while it is in use and holds `v`, and `None`
    /// while it is free.
    type V = Seq<Option<T>>;

    closed spec fn view(&self) -> Seq<Option<T>> {
        Seq::new(
            self.free@.len(),
            |i: int| if self.free@[i] { None } else { Some(self.items@[i]) },
        )
    }
}

impl<T, const N: usize> StaticPool<T, N> {
    /// The storage holds exactly `N` slots.
    pub closed spec fn wf(&self) -> bool {
        &&& self.items@.len() == N
        &&& self.free@.len() == N
    }
}

impl<T: Default, const N: usize> StaticPool<T, N> {
    /// Creates a pool whose `N` slots all hold `T::default()` and are free.
    pub fn new() -> (r: Self)
        ensures
            r.wf(),
            r@.len() == N,
            forall|i: int| 0 <= i < N ==> #[trigger] r@[i] is None,
    {
        let mut items: Vec<T> = Vec::new();
        let mut free: Vec<bool> = Vec::new();
        let mut i: usize = 0;
        while i < N
            invariant
                i <= N,
                items@.len() == i,
                free@.len() == i,
                forall|j: int| 0 <= j < i ==> #[trigger] free@[j],
            decreases N - i,
        {
            items.push(T::default());
            free.push(true);
            i = i + 1;
        }
        StaticPool { items, free }
    }

    /// Marks the lowest free slot as in use and returns its handle, or
    /// returns `None` when every slot is in use. The slot keeps its item.
    fn next_free_handle(&mut self) -> (r: Option<StaticPoolHandle>)
        requires
            old(self).wf(),
        ensures
            final(self).items@ == old(self).items@,
            match r {
                Some(h) => {
                    &&& is_first_free(old(self)@, h as int)
                    &&& final(self).free@ == old(self).free@.update(h - 1, false)
                },
                None => is_full(old(self)@) && final(self).free@ == old(self).free@,
            },
    {
        let mut i: usize = 0;
        while i < N
            invariant
                self.wf(),
                self == old(self),
                i <= N,
                forall|j: int| 0 <= j < i ==> !#[trigger] self.free@[j],
            decreases N - i,
        {
            if self.free[i] {
                self.free.set(i, false);
                let handle: StaticPoolHandle = i + 1;
                return Some(handle);
            }
            i = i + 1;
        }
        None
    }

    /// Takes the lowest free slot, resets its item to `T::default()` and
    /// returns its handle; returns `None` when every slot is in use.
    pub fn allocate(&mut self) -> (r: Option<StaticPoolHandle>)
        requires
            old(self).wf(),
        ensures
            final(self).wf(),
            allocated(old(self)@, final(self)@, r),
    {
        match self.next_free_handle() {
            Some(handle) => {
                let item = T::default();
                self.items.set(handle - 1, item);
                proof {
                    assert(self@ =~= old(self)@.update(handle - 1, Some(item)));
                }
                Some(handle)
            },
            None => {
                proof {
                    assert(self@ =~= old(self)@);
                }
                None
            },
        }
    }

    /// Frees the slot of `handle`. A handle out of range, or one whose slot
    /// is already free, is ignored.
    pub fn free(&mut self, handle: StaticPoolHandle)
        requires
            old(self).wf(),
        ensures
            final(self).wf(),
            final(self)@ == released(old(self)@, handle as int),
    {
        if handle > 0 && handle <= N {
            if !self.free[handle - 1] {
                self.free.set(handle - 1, true);
            }
        }
    }

    /// The item of `handle`, when `handle` is in range and its slot in use.
    pub fn get(&self, handle: StaticPoolHandle) -> (r: Option<&T>)
        requires
            self.wf(),
        ensures
            slot_of(self@, handle as int) == match r {
                Some(v) => Some(*v),
                None => None,
            },
    {
        if handle > 0 && handle <= N && !self.free[handle - 1] {
            Some(&self.items[handle - 1])
        } else {
            None
        }
    }

    /// Mutable access to the item of `handle`, when `handle` is in range and
    /// its slot in use. What is written through the result stays in the slot.
    pub fn get_mut(&mut self, handle: StaticPoolHandle) -> (r: Option<&mut T>)
        requires
            old(self).wf(),
        ensures
            final(self).wf(),
            slot_of(old(self)@, handle as int) == match r {
                Some(v) => Some(*v),
                None => None,
            },
            match r {
                Some(v) => final(self)@ == old(self)@.update(handle - 1, Some(*final(v))),
                None => final(self)@ == old(self)@,
            },
    {
        if handle > 0 && handle <= N && !self.free[handle - 1] {
            Some(&mut self.items[handle - 1])
        } else {
            None
        }
    }
}

} // verus!
