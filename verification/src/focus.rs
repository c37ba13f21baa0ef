//! Focus management: an ordered set of focusable components and Tab
//! traversal.
//!
//! Components register under an id with a tab order; the registry is kept
//! sorted by tab order.  `focus_next` and `focus_prev` move the current
//! focus through the focusable entries, wrapping at the ends.

use vstd::prelude::*;

verus! {

broadcast use vstd::seq_lib::group_seq_properties;

/// Identity of a focusable component.
#[derive(Debug, Clone, Copy, PartialEq, Eq, Hash, Structural)]
pub struct ComponentId(pub usize);

impl ComponentId {
    pub fn new(id: usize) -> (r: ComponentId)
        ensures
            r == ComponentId(id),
    {
        ComponentId(id)
    }
}

/// One registration: an id, its tab order, and whether it can take focus.
#[derive(Debug, Clone, Copy, PartialEq, Eq, Structural)]
pub struct FocusableComponent {
    pub id: ComponentId,
    pub order: usize,
    pub focusable: bool,
}

/// Entries are sorted by tab order.
pub open spec fn sorted_by_order(s: Seq<FocusableComponent>) -> bool {
    forall|i: int, j: int| 0 <= i < j < s.len() ==> s[i].order <= s[j].order
}

/// No id appears twice.
pub open spec fn unique_ids(s: Seq<FocusableComponent>) -> bool {
    forall|i: int, j: int| 0 <= i < j < s.len() ==> s[i].id != s[j].id
}

/// Whether some entry carries the id.
pub open spec fn has_id(s: Seq<FocusableComponent>, id: ComponentId) -> bool {
    exists|i: int| 0 <= i < s.len() && s[i].id == id
}

/// The first focusable index in `[from, end)`, if any.
pub open spec fn scan_fwd(s: Seq<FocusableComponent>, from: int, end: int) -> Option<int>
    decreases end - from,
{
    if from >= end || from < 0 || end > s.len() {
        None
    } else if s[from].focusable {
        Some(from)
    } else {
        scan_fwd(s, from + 1, end)
    }
}

/// The last focusable index in `[stop, from]`, if any, searching downward.
pub open spec fn scan_back(s: Seq<FocusableComponent>, from: int, stop: int) -> Option<int>
    decreases from - stop + 1,
{
    if from < stop || stop < 0 || from >= s.len() {
        None
    } else if s[from].focusable {
        Some(from)
    } else {
        scan_back(s, from - 1, stop)
    }
}

/// The first focusable index at or after `start`, wrapping to the front.
pub open spec fn cyclic_next(s: Seq<FocusableComponent>, start: int) -> Option<int> {
    match scan_fwd(s, start, s.len() as int) {
        Some(i) => Some(i),
        None => scan_fwd(s, 0, start),
    }
}

/// The first focusable index at or before `start`, wrapping to the back.
pub open spec fn cyclic_prev(s: Seq<FocusableComponent>, start: int) -> Option<int> {
    match scan_back(s, start, 0) {
        Some(i) => Some(i),
        None => scan_back(s, s.len() - 1, start + 1),
    }
}

/// The index of the entry with the given id, or `None`.
pub open spec fn find_id(s: Seq<FocusableComponent>, id: ComponentId) -> Option<int>
    decreases s.len(),
{
    if s.len() == 0 {
        None
    } else if s[0].id == id {
        Some(0)
    } else {
        match find_id(s.drop_first(), id) {
            Some(i) => Some(i + 1),
            None => None,
        }
    }
}

/// The number of focusable entries.
pub open spec fn count_focusable(s: Seq<FocusableComponent>) -> int
    decreases s.len(),
{
    if s.len() == 0 {
        0
    } else {
        (if s[0].focusable {
            1int
        } else {
            0int
        }) + count_focusable(s.drop_first())
    }
}

/// The starting index that `focus_next` scans from: one past the current
/// entry, or the front when there is no current entry.
pub open spec fn next_scan_start(s: Seq<FocusableComponent>, current: Option<ComponentId>) -> int {
    match current {
        Some(id) => match find_id(s, id) {
            Some(i) => i + 1,
            None => 0,
        },
        None => 0,
    }
}

/// The starting index that `focus_prev` scans from: one before the current
/// entry, or the back when there is no current entry.
pub open spec fn prev_scan_start(s: Seq<FocusableComponent>, current: Option<ComponentId>) -> int {
    match current {
        Some(id) => match find_id(s, id) {
            Some(i) => if i == 0 {
                s.len() - 1
            } else {
                i - 1
            },
            None => s.len() - 1,
        },
        None => s.len() - 1,
    }
}

/// Tracks which component holds keyboard focus and cycles it through the
/// registered focusable entries in tab order.
pub struct FocusManager {
    pub components: Vec<FocusableComponent>,
    pub current: Option<ComponentId>,
    pub next_id: usize,
}

impl FocusManager {
    /// The registry invariant: sorted by tab order, one entry per id.
    pub open spec fn wf(self) -> bool {
        sorted_by_order(self.components@) && unique_ids(self.components@)
    }

    pub fn new() -> (r: FocusManager)
        ensures
            r.wf(),
            r.components@.len() == 0,
            r.current is None,
            r.next_id == 1,
    {
        FocusManager { components: Vec::new(), current: None, next_id: 1 }
    }

    /// A fresh id, distinct from every id this manager has handed out.
    pub fn new_id(&mut self) -> (r: ComponentId)
        ensures
            r == ComponentId(old(self).next_id),
            final(self).next_id == if old(self).next_id < usize::MAX {
                old(self).next_id + 1
            } else {
                old(self).next_id as int
            },
            final(self).components == old(self).components,
            final(self).current == old(self).current,
    {
        let id = ComponentId(self.next_id);
        if self.next_id < usize::MAX {
            self.next_id = self.next_id + 1;
        }
        id
    }

    /// Register a component, replacing any earlier entry with the same id.
    /// The registry stays sorted by tab order; when nothing holds focus yet
    /// and the new entry is focusable, it takes focus.
    #[verifier::loop_isolation(false)]
    pub fn register(&mut self, id: ComponentId, order: usize, focusable: bool)
        requires
            old(self).wf(),
        ensures
            final(self).wf(),
            has_id(final(self).components@, id),
            // the other entries are exactly the old ones
            forall|i: int|
                0 <= i < final(self).components@.len() && final(self).components@[i].id != id
                    ==> old(self).components@.contains(final(self).components@[i]),
            forall|i: int|
                0 <= i < old(self).components@.len() && old(self).components@[i].id != id
                    ==> final(self).components@.contains(old(self).components@[i]),
            // the entry under this id carries the new order and flag
            forall|i: int|
                0 <= i < final(self).components@.len() && final(self).components@[i].id == id
                    ==> final(self).components@[i] == (FocusableComponent {
                    id,
                    order,
                    focusable,
                }),
            final(self).current == if old(self).current is None && focusable {
                Some(id)
            } else {
                old(self).current
            },
            final(self).next_id == old(self).next_id,
    {
        let entry = FocusableComponent { id, order, focusable };
        let ghost old_comps = self.components@;
        // remove any earlier registration of this id
        let mut kept: Vec<FocusableComponent> = Vec::new();
        let mut i: usize = 0;
        while i < self.components.len()
            invariant
                0 <= i <= self.components@.len(),
                self.components@ == old_comps,
                sorted_by_order(old_comps),
                unique_ids(old_comps),
                forall|k: int|
                    0 <= k < kept@.len() ==> old_comps.contains(kept@[k]) && kept@[k].id != id,
                forall|k: int|
                    0 <= k < i && old_comps[k].id != id ==> kept@.contains(old_comps[k]),
                sorted_by_order(kept@),
                unique_ids(kept@),
                forall|k: int, a: int|
                    0 <= k < kept@.len() && i <= a < old_comps.len() ==> kept@[k].order
                        <= old_comps[a].order && kept@[k].id != old_comps[a].id,
            decreases self.components@.len() - i,
        {
            let c = self.components[i];
            if !(c.id == id) {
                proof {
                    assert(old_comps.contains(old_comps[i as int]));
                }
                kept.push(c);
            }
            i = i + 1;
        }
        // insert the new entry after every entry of lower or equal order
        let mut pos: usize = 0;
        while pos < kept.len() && kept[pos].order <= order
            invariant
                0 <= pos <= kept@.len(),
                forall|k: int| 0 <= k < pos ==> kept@[k].order <= order,
            decreases kept@.len() - pos,
        {
            pos = pos + 1;
        }
        kept.insert(pos, entry);
        proof {
            assert forall|a: int, b: int|
                0 <= a < b < kept@.len() implies kept@[a].order <= kept@[b].order by {}
            assert forall|a: int, b: int|
                0 <= a < b < kept@.len() implies kept@[a].id != kept@[b].id by {}
            assert(kept@[pos as int] == entry);
        }
        self.components = kept;
        if self.current.is_none() && focusable {
            self.current = Some(id);
        }
    }

    /// Remove a component.  If it held focus, focus moves to the next
    /// focusable entry, or is cleared when none remains.
    #[verifier::loop_isolation(false)]
    pub fn unregister(&mut self, id: ComponentId)
        requires
            old(self).wf(),
        ensures
            final(self).wf(),
            !has_id(final(self).components@, id),
            forall|i: int|
                0 <= i < final(self).components@.len() ==> old(self).components@.contains(
                    final(self).components@[i],
                ),
            forall|i: int|
                0 <= i < old(self).components@.len() && old(self).components@[i].id != id
                    ==> final(self).components@.contains(old(self).components@[i]),
            old(self).current != Some(id) ==> final(self).current == old(self).current,
            old(self).current == Some(id) ==> (final(self).current is None || exists|i: int|
                0 <= i < final(self).components@.len() && final(self).components@[i].focusable
                    && final(self).components@[i].id == final(self).current->0),
    {
        let ghost old_comps = self.components@;
        let mut kept: Vec<FocusableComponent> = Vec::new();
        let mut i: usize = 0;
        while i < self.components.len()
            invariant
                0 <= i <= self.components@.len(),
                self.components@ == old_comps,
                sorted_by_order(old_comps),
                unique_ids(old_comps),
                forall|k: int|
                    0 <= k < kept@.len() ==> old_comps.contains(kept@[k]) && kept@[k].id != id,
                forall|k: int|
                    0 <= k < i && old_comps[k].id != id ==> kept@.contains(old_comps[k]),
                sorted_by_order(kept@),
                unique_ids(kept@),
                forall|k: int, a: int|
                    0 <= k < kept@.len() && i <= a < old_comps.len() ==> kept@[k].order
                        <= old_comps[a].order && kept@[k].id != old_comps[a].id,
            decreases self.components@.len() - i,
        {
            let c = self.components[i];
            if !(c.id == id) {
                proof {
                    assert(old_comps.contains(old_comps[i as int]));
                }
                kept.push(c);
            }
            i = i + 1;
        }
        self.components = kept;
        let clear_focus = match self.current {
            Some(cur) => cur == id,
            None => false,
        };
        if clear_focus {
            self.current = None;
            if self.components.len() > 0 {
                self.focus_next();
            }
        }
    }

    /// The component that currently holds focus, if any.
    pub fn current(&self) -> (r: Option<ComponentId>)
        ensures
            r == self.current,
    {
        self.current
    }

    /// Whether the given component holds focus.
    pub fn is_focused(&self, id: ComponentId) -> (r: bool)
        ensures
            r == (self.current == Some(id)),
    {
        match self.current {
            Some(cur) => cur == id,
            None => false,
        }
    }

    /// Focus the given component; succeeds exactly when it is registered
    /// and focusable.
    #[verifier::loop_isolation(false)]
    pub fn focus(&mut self, id: ComponentId) -> (r: bool)
        requires
            old(self).wf(),
        ensures
            final(self).wf(),
            final(self).components == old(self).components,
            r == exists|i: int|
                0 <= i < old(self).components@.len() && old(self).components@[i].id == id && old(
                    self,
                ).components@[i].focusable,
            r ==> final(self).current == Some(id),
            !r ==> final(self).current == old(self).current,
    {
        let mut i: usize = 0;
        while i < self.components.len()
            invariant
                0 <= i <= self.components@.len(),
                self.components == old(self).components,
                self.current == old(self).current,
                forall|k: int|
                    0 <= k < i ==> !(self.components@[k].id == id
                        && self.components@[k].focusable),
            decreases self.components@.len() - i,
        {
            let c = self.components[i];
            if c.id == id {
                if c.focusable {
                    self.current = Some(id);
                    return true;
                }
            }
            i = i + 1;
        }
        false
    }

    /// Move focus to the next focusable entry in tab order, wrapping at the
    /// end.  Returns whether focus landed anywhere.
    #[verifier::loop_isolation(false)]
    pub fn focus_next(&mut self) -> (r: bool)
        requires
            old(self).wf(),
        ensures
            final(self).wf(),
            final(self).components == old(self).components,
            ({
                let s = old(self).components@;
                let start = next_scan_start(s, old(self).current);
                match cyclic_next(s, start) {
                    Some(i) => r == true && final(self).current == Some(s[i].id),
                    None => r == false && final(self).current == old(self).current,
                }
            }),
            r ==> exists|i: int|
                0 <= i < old(self).components@.len() && old(self).components@[i].focusable
                    && final(self).current == Some(old(self).components@[i].id),
    {
        let ghost s = self.components@;
        if self.components.len() == 0 {
            return false;
        }
        let start = self.position_after_current();
        let n = self.components.len();
        let mut i: usize = start;
        while i < n
            invariant
                0 <= start <= i <= n,
                n == self.components@.len(),
                self.components == old(self).components,
                self.current == old(self).current,
                s == self.components@,
                scan_fwd(s, start as int, i as int) is None,
            decreases n - i,
        {
            proof {
                lemma_scan_fwd_extend(s, start as int, i as int);
            }
            if self.components[i].focusable {
                self.current = Some(self.components[i].id);
                proof {
                    lemma_scan_fwd_found(s, start as int, i as int, n as int);
                }
                return true;
            }
            i = i + 1;
        }
        let mut j: usize = 0;
        while j < start
            invariant
                0 <= j <= start <= n,
                n == self.components@.len(),
                self.components == old(self).components,
                self.current == old(self).current,
                s == self.components@,
                scan_fwd(s, 0, j as int) is None,
            decreases start - j,
        {
            proof {
                lemma_scan_fwd_extend(s, 0, j as int);
            }
            if self.components[j].focusable {
                self.current = Some(self.components[j].id);
                proof {
                    lemma_scan_fwd_found(s, 0, j as int, start as int);
                }
                return true;
            }
            j = j + 1;
        }
        false
    }

    /// Move focus to the previous focusable entry in tab order, wrapping at
    /// the front.  Returns whether focus landed anywhere.
    #[verifier::loop_isolation(false)]
    pub fn focus_prev(&mut self) -> (r: bool)
        requires
            old(self).wf(),
        ensures
            final(self).wf(),
            final(self).components == old(self).components,
            ({
                let s = old(self).components@;
                let start = prev_scan_start(s, old(self).current);
                match cyclic_prev(s, start) {
                    Some(i) => r == true && final(self).current == Some(s[i].id),
                    None => r == false && final(self).current == old(self).current,
                }
            }),
            r ==> exists|i: int|
                0 <= i < old(self).components@.len() && old(self).components@[i].focusable
                    && final(self).current == Some(old(self).components@[i].id),
    {
        let ghost s = self.components@;
        if self.components.len() == 0 {
            return false;
        }
        let n = self.components.len();
        let start = self.position_before_current();
        // scan from `start` down to the front
        let mut i: usize = start + 1;
        while i > 0
            invariant
                0 <= i <= start + 1,
                start < n,
                n == self.components@.len(),
                self.components == old(self).components,
                self.current == old(self).current,
                s == self.components@,
                scan_back(s, start as int, i as int) is None,
            decreases i,
        {
            let idx = i - 1;
            proof {
                lemma_scan_back_extend(s, start as int, idx as int);
            }
            if self.components[idx].focusable {
                self.current = Some(self.components[idx].id);
                proof {
                    lemma_scan_back_found(s, start as int, idx as int, 0);
                }
                return true;
            }
            i = idx;
        }
        // nothing at or before `start`: wrap and scan the back down to it
        let mut k: usize = n;
        while k > start + 1
            invariant
                start + 1 <= k <= n,
                start < n,
                n == self.components@.len(),
                self.components == old(self).components,
                self.current == old(self).current,
                s == self.components@,
                scan_back(s, n as int - 1, k as int) is None,
            decreases k,
        {
            let idx = k - 1;
            proof {
                lemma_scan_back_extend(s, n as int - 1, idx as int);
            }
            if self.components[idx].focusable {
                self.current = Some(self.components[idx].id);
                proof {
                    lemma_scan_back_found(s, n as int - 1, idx as int, start as int + 1);
                }
                return true;
            }
            k = idx;
        }
        false
    }

    /// Clear focus; registrations stay.
    pub fn clear(&mut self)
        ensures
            final(self).components == old(self).components,
            final(self).current is None,
            final(self).next_id == old(self).next_id,
    {
        self.current = None;
    }

    /// Remove every registration and clear focus.
    pub fn clear_all(&mut self)
        ensures
            final(self).components@.len() == 0,
            final(self).current is None,
            final(self).next_id == old(self).next_id,
    {
        self.components = Vec::new();
        self.current = None;
    }

    /// The number of registered components.
    pub fn count(&self) -> (r: usize)
        ensures
            r == self.components@.len(),
    {
        self.components.len()
    }

    /// The number of registered components that can take focus.
    #[verifier::loop_isolation(false)]
    pub fn focusable_count(&self) -> (r: usize)
        ensures
            r == count_focusable(self.components@),
    {
        let ghost s = self.components@;
        let mut n: usize = 0;
        let mut i: usize = 0;
        proof {
            lemma_count_focusable_take(s, 0);
        }
        while i < self.components.len()
            invariant
                0 <= i <= s.len(),
                s == self.components@,
                n == count_focusable(s.take(i as int)),
                n <= i,
            decreases s.len() - i,
        {
            proof {
                lemma_count_focusable_take_step(s, i as int);
            }
            if self.components[i].focusable {
                n = n + 1;
            }
            i = i + 1;
        }
        proof {
            assert(s.take(s.len() as int) =~= s);
        }
        n
    }

    /// The index one past the current entry, or 0.
    fn position_after_current(&self) -> (r: usize)
        requires
            self.components@.len() > 0,
        ensures
            r == next_scan_start(self.components@, self.current),
            r <= self.components@.len(),
    {
        match self.current {
            Some(cur) => {
                match self.index_of(cur) {
                    Some(i) => {
                        let n = self.components.len();
                        proof {
                            assert(i < n);
                        }
                        i + 1
                    },
                    None => 0,
                }
            },
            None => 0,
        }
    }

    /// The index the previous-focus scan starts from: one before the
    /// current entry, wrapping to the back.
    fn position_before_current(&self) -> (r: usize)
        requires
            self.components@.len() > 0,
        ensures
            r == prev_scan_start(self.components@, self.current),
            r < self.components@.len(),
    {
        match self.current {
            Some(cur) => {
                match self.index_of(cur) {
                    Some(i) => {
                        if i == 0 {
                            self.components.len() - 1
                        } else {
                            i - 1
                        }
                    },
                    None => self.components.len() - 1,
                }
            },
            None => self.components.len() - 1,
        }
    }

    /// The index of the entry with the given id.
    #[verifier::loop_isolation(false)]
    fn index_of(&self, id: ComponentId) -> (r: Option<usize>)
        ensures
            match r {
                Some(i) => find_id(self.components@, id) == Some(i as int) && i
                    < self.components@.len(),
                None => find_id(self.components@, id) is None,
            },
    {
        let ghost s = self.components@;
        let mut i: usize = 0;
        while i < self.components.len()
            invariant
                0 <= i <= s.len(),
                s == self.components@,
                forall|k: int| 0 <= k < i ==> s[k].id != id,
            decreases s.len() - i,
        {
            if self.components[i].id == id {
                proof {
                    lemma_find_id_at(s, id, i as int);
                }
                return Some(i);
            }
            i = i + 1;
        }
        proof {
            lemma_find_id_absent(s, id);
        }
        None
    }
}

impl Default for FocusManager {
    fn default() -> (r: FocusManager)
        ensures
            r.wf(),
            r.components@.len() == 0,
            r.current is None,
    {
        FocusManager::new()
    }
}

/// `scan_fwd(s, from, i)` finding nothing extends one step when `s[i]` is
/// not focusable either.
proof fn lemma_scan_fwd_extend(s: Seq<FocusableComponent>, from: int, i: int)
    requires
        0 <= from <= i < s.len(),
        scan_fwd(s, from, i) is None,
    ensures
        !s[i].focusable ==> scan_fwd(s, from, i + 1) is None,
        s[i].focusable ==> scan_fwd(s, from, i + 1) == Some(i),
    decreases i - from,
{
    if from < i {
        lemma_scan_fwd_extend(s, from + 1, i);
    } else {
        assert(scan_fwd(s, i + 1, i + 1) is None);
    }
}

/// If nothing in `[from, i)` is focusable and `s[i]` is, the scan of any
/// wider range `[from, end)` with `i < end` finds `i`.
proof fn lemma_scan_fwd_found(s: Seq<FocusableComponent>, from: int, i: int, end: int)
    requires
        0 <= from <= i < end <= s.len(),
        scan_fwd(s, from, i) is None,
        s[i].focusable,
    ensures
        scan_fwd(s, from, end) == Some(i),
    decreases i - from,
{
    if from < i {
        lemma_scan_fwd_found(s, from + 1, i, end);
    } else {
        assert(scan_fwd(s, i, end) == Some(i));
    }
}

/// A backward scan that found nothing in `(i, from]` extends one step down.
proof fn lemma_scan_back_extend(s: Seq<FocusableComponent>, from: int, i: int)
    requires
        0 <= i <= from < s.len(),
        scan_back(s, from, i + 1) is None,
    ensures
        !s[i].focusable ==> scan_back(s, from, i) is None,
        s[i].focusable ==> scan_back(s, from, i) == Some(i),
    decreases from - i,
{
    if i < from {
        lemma_scan_back_extend(s, from - 1, i);
    } else {
        assert(scan_back(s, i - 1, i) is None);
    }
}

/// If nothing in `(i, from]` is focusable and `s[i]` is, the backward scan
/// of any wider range down to `stop <= i` finds `i`.
proof fn lemma_scan_back_found(s: Seq<FocusableComponent>, from: int, i: int, stop: int)
    requires
        0 <= stop <= i <= from < s.len(),
        scan_back(s, from, i + 1) is None,
        s[i].focusable,
    ensures
        scan_back(s, from, stop) == Some(i),
    decreases from - i,
{
    if i < from {
        lemma_scan_back_found(s, from - 1, i, stop);
    } else {
        assert(scan_back(s, i, stop) == Some(i));
    }
}

/// Counting focusable entries over a growing prefix.
proof fn lemma_count_focusable_take(s: Seq<FocusableComponent>, i: int)
    requires
        i == 0,
    ensures
        count_focusable(s.take(0)) == 0,
{
    assert(s.take(0) =~= Seq::<FocusableComponent>::empty());
}

/// One more prefix element adds its focusable flag to the count.
proof fn lemma_count_focusable_take_step(s: Seq<FocusableComponent>, i: int)
    requires
        0 <= i < s.len(),
    ensures
        count_focusable(s.take(i + 1)) == count_focusable(s.take(i)) + (if s[i].focusable {
            1int
        } else {
            0int
        }),
{
    lemma_count_focusable_last(s.take(i + 1));
    assert(s.take(i + 1).drop_last() =~= s.take(i));
    assert(s.take(i + 1).last() == s[i]);
}

/// The count of a non-empty sequence is the count of its front plus the
/// last element's flag.
proof fn lemma_count_focusable_last(s: Seq<FocusableComponent>)
    requires
        s.len() > 0,
    ensures
        count_focusable(s) == count_focusable(s.drop_last()) + (if s.last().focusable {
            1int
        } else {
            0int
        }),
    decreases s.len(),
{
    if s.len() == 1 {
        assert(s.drop_first() =~= Seq::<FocusableComponent>::empty());
        assert(s.drop_last() =~= Seq::<FocusableComponent>::empty());
    } else {
        lemma_count_focusable_last(s.drop_first());
        assert(s.drop_first().drop_last() =~= s.drop_last().drop_first());
        assert(s.drop_first().last() == s.last());
        assert(s.drop_last()[0] == s[0]);
    }
}

/// How many focusable entries precede index `i`: the focus rank of `i`.
pub open spec fn focus_rank(s: Seq<FocusableComponent>, i: int) -> int {
    count_focusable(s.take(i))
}

/// The index reached after stepping the focus forward `n` times from the
/// entry at index `i`.
pub open spec fn iterate_next(s: Seq<FocusableComponent>, i: int, n: nat) -> int
    decreases n,
{
    if n == 0 {
        i
    } else {
        match cyclic_next(s, i + 1) {
            Some(j) => iterate_next(s, j, (n - 1) as nat),
            None => i,
        }
    }
}

/// Seen through ids: when ids are unique and the current entry is the
/// focusable entry at index `i`, the forward scan starts right after `i`,
/// so one `focus_next` lands on the index `iterate_next` predicts.
pub proof fn lemma_focus_step_index(s: Seq<FocusableComponent>, i: int)
    requires
        unique_ids(s),
        0 <= i < s.len(),
    ensures
        next_scan_start(s, Some(s[i].id)) == i + 1,
{
    assert forall|k: int| 0 <= k < i implies s[k].id != s[i].id by {}
    lemma_find_id_at(s, s[i].id, i);
}

/// What a forward scan's outcome means: a hit is the first focusable index
/// of the range, a miss means the range holds none.
proof fn lemma_scan_props(s: Seq<FocusableComponent>, from: int, end: int)
    requires
        0 <= from,
        end <= s.len(),
    ensures
        match scan_fwd(s, from, end) {
            Some(j) => from <= j < end && s[j].focusable && (forall|m: int|
                from <= m < j ==> !s[m].focusable),
            None => forall|m: int| from <= m < end ==> !s[m].focusable,
        },
    decreases end - from,
{
    if from < end {
        lemma_scan_props(s, from + 1, end);
    }
}

/// Skipping a gap without focusable entries does not change the count.
proof fn lemma_count_gap(s: Seq<FocusableComponent>, a: int, b: int)
    requires
        0 <= a <= b <= s.len(),
        forall|m: int| a <= m < b ==> !s[m].focusable,
    ensures
        count_focusable(s.take(b)) == count_focusable(s.take(a)),
    decreases b - a,
{
    if a < b {
        lemma_count_focusable_take_step(s, b - 1);
        lemma_count_gap(s, a, b - 1);
    }
}

/// The focusable count of a prefix never shrinks as the prefix grows.
proof fn lemma_count_mono(s: Seq<FocusableComponent>, a: int, b: int)
    requires
        0 <= a <= b <= s.len(),
    ensures
        count_focusable(s.take(a)) <= count_focusable(s.take(b)),
    decreases b - a,
{
    if a < b {
        lemma_count_focusable_take_step(s, b - 1);
        lemma_count_mono(s, a, b - 1);
    }
}

/// The rank of a focusable entry lies below the total focusable count.
proof fn lemma_rank_bound(s: Seq<FocusableComponent>, i: int)
    requires
        0 <= i < s.len(),
        s[i].focusable,
    ensures
        0 <= focus_rank(s, i) < count_focusable(s),
{
    lemma_count_focusable_take_step(s, i);
    lemma_count_mono(s, i + 1, s.len() as int);
    lemma_count_mono(s, 0, i);
    assert(s.take(0) =~= Seq::<FocusableComponent>::empty());
    assert(s.take(s.len() as int) =~= s);
}

/// Two focusable entries with the same rank are the same entry.
proof fn lemma_rank_injective(s: Seq<FocusableComponent>, i: int, j: int)
    requires
        0 <= i < s.len(),
        0 <= j < s.len(),
        s[i].focusable,
        s[j].focusable,
        focus_rank(s, i) == focus_rank(s, j),
    ensures
        i == j,
{
    if i < j {
        lemma_count_focusable_take_step(s, i);
        lemma_count_mono(s, i + 1, j);
    }
    if j < i {
        lemma_count_focusable_take_step(s, j);
        lemma_count_mono(s, j + 1, i);
    }
}

/// One forward step from a focusable entry that is not the last one: the
/// scan finds the next focusable entry, whose rank is one higher.
proof fn lemma_step_forward(s: Seq<FocusableComponent>, i: int)
    requires
        0 <= i < s.len(),
        s[i].focusable,
        focus_rank(s, i) < count_focusable(s) - 1,
    ensures
        cyclic_next(s, i + 1) matches Some(j) && 0 <= j < s.len() && s[j].focusable
            && focus_rank(s, j) == focus_rank(s, i) + 1,
{
    lemma_scan_props(s, i + 1, s.len() as int);
    match scan_fwd(s, i + 1, s.len() as int) {
        Some(j) => {
            lemma_count_focusable_take_step(s, i);
            lemma_count_gap(s, i + 1, j);
        },
        None => {
            lemma_count_focusable_take_step(s, i);
            lemma_count_gap(s, i + 1, s.len() as int);
            assert(s.take(s.len() as int) =~= s);
            assert(false);
        },
    }
}

/// One forward step from the last focusable entry wraps to the first one,
/// whose rank is zero.
proof fn lemma_step_wrap(s: Seq<FocusableComponent>, i: int)
    requires
        0 <= i < s.len(),
        s[i].focusable,
        focus_rank(s, i) == count_focusable(s) - 1,
    ensures
        cyclic_next(s, i + 1) matches Some(j) && 0 <= j < s.len() && s[j].focusable
            && focus_rank(s, j) == 0,
{
    lemma_scan_props(s, i + 1, s.len() as int);
    match scan_fwd(s, i + 1, s.len() as int) {
        Some(j) => {
            // a hit beyond the last focusable entry would push the rank
            // past the total
            lemma_count_focusable_take_step(s, i);
            lemma_count_gap(s, i + 1, j);
            lemma_rank_bound(s, j);
            assert(false);
        },
        None => {
            lemma_scan_props(s, 0, i + 1);
            match scan_fwd(s, 0, i + 1) {
                Some(j) => {
                    lemma_count_gap(s, 0, j);
                    assert(s.take(0) =~= Seq::<FocusableComponent>::empty());
                },
                None => {
                    assert(!s[i].focusable);
                    assert(false);
                },
            }
        },
    }
}

/// Iterating in two legs is iterating once over their sum.
proof fn lemma_iterate_add(s: Seq<FocusableComponent>, i: int, a: nat, b: nat)
    ensures
        iterate_next(s, iterate_next(s, i, a), b) == iterate_next(s, i, (a + b) as nat),
    decreases a,
{
    if a > 0 {
        match cyclic_next(s, i + 1) {
            Some(j) => {
                lemma_iterate_add(s, j, (a - 1) as nat, b);
            },
            None => {
                lemma_iterate_add(s, i, (a - 1) as nat, b);
            },
        }
    }
}

/// Iterating while the rank still has room climbs the rank step by step.
proof fn lemma_iterate_climb(s: Seq<FocusableComponent>, i: int, n: nat)
    requires
        0 <= i < s.len(),
        s[i].focusable,
        focus_rank(s, i) + n <= count_focusable(s) - 1,
    ensures
        ({
            let j = iterate_next(s, i, n);
            0 <= j < s.len() && s[j].focusable && focus_rank(s, j) == focus_rank(s, i) + n
        }),
    decreases n,
{
    if n > 0 {
        lemma_step_forward(s, i);
        match cyclic_next(s, i + 1) {
            Some(j) => {
                lemma_iterate_climb(s, j, (n - 1) as nat);
            },
            None => {
                assert(false);
            },
        }
    }
}

/// Focus cycle closure: starting from any focusable entry, stepping the
/// focus forward exactly once per focusable entry comes back to the same
/// entry.
pub proof fn lemma_focus_cycle(s: Seq<FocusableComponent>, i: int)
    requires
        0 <= i < s.len(),
        s[i].focusable,
    ensures
        iterate_next(s, i, count_focusable(s) as nat) == i,
{
    let k = count_focusable(s);
    let r = focus_rank(s, i);
    lemma_rank_bound(s, i);
    // first leg: climb from rank r to the top rank k - 1
    let a = (k - 1 - r) as nat;
    lemma_iterate_climb(s, i, a);
    let m = iterate_next(s, i, a);
    // one wrapping step down to rank 0
    lemma_step_wrap(s, m);
    let j0 = iterate_next(s, m, 1);
    match cyclic_next(s, m + 1) {
        Some(j) => {
            assert(iterate_next(s, j, 0) == j);
            assert(iterate_next(s, m, 1) == iterate_next(s, j, 0));
            assert(j0 == j);
        },
        None => {
            assert(false);
        },
    }
    // second leg: climb from rank 0 back to rank r
    lemma_iterate_climb(s, j0, r as nat);
    let x = iterate_next(s, j0, r as nat);
    lemma_rank_injective(s, x, i);
    // the three legs together are exactly k steps
    lemma_iterate_add(s, i, a, 1);
    lemma_iterate_add(s, i, (a + 1) as nat, r as nat);
    assert(a + 1 + r == k);
}

/// `find_id` returns the position of the id when entries before it miss.
proof fn lemma_find_id_at(s: Seq<FocusableComponent>, id: ComponentId, i: int)
    requires
        0 <= i < s.len(),
        s[i].id == id,
        forall|k: int| 0 <= k < i ==> s[k].id != id,
    ensures
        find_id(s, id) == Some(i),
    decreases i,
{
    if i > 0 {
        lemma_find_id_at(s.drop_first(), id, i - 1);
    }
}

/// `find_id` misses when no entry carries the id.
proof fn lemma_find_id_absent(s: Seq<FocusableComponent>, id: ComponentId)
    requires
        forall|k: int| 0 <= k < s.len() ==> s[k].id != id,
    ensures
        find_id(s, id) is None,
    decreases s.len(),
{
    if s.len() > 0 {
        lemma_find_id_absent(s.drop_first(), id);
    }
}

} // verus!
