//! The window registry: stable references for the windows of successive
//! enumerations.

use vstd::prelude::*;

use crate::refname::{lemma_ref_name_injective, lemma_ref_number, ref_name, ref_number, ref_string};
use crate::window::{PlatformKey, PlatformWindowId, WindowHandle, WindowHandleView, WindowInfo, WindowInfoView};

verus! {

/// One live entry of the registry: its reference number and its handle.
pub ghost struct EntryView {
    pub num: nat,
    pub handle: WindowHandleView,
}

/// Mathematical value of a [`WindowRegistry`]: the live entries in ascending
/// order of reference number, the next number to hand out, and the version.
pub ghost struct RegistryView {
    pub entries: Seq<EntryView>,
    pub next_ref: nat,
    pub version: nat,
}

impl RegistryView {
    /// Some live entry stands for platform identifier `p`.
    pub open spec fn has_platform(self, p: PlatformKey) -> bool {
        exists|i: int| 0 <= i < self.entries.len() && #[trigger] self.entries[i].handle.platform_id == p
    }

    /// Some live entry carries reference `r`.
    pub open spec fn has_ref(self, r: Seq<char>) -> bool {
        exists|i: int| 0 <= i < self.entries.len() && #[trigger] self.entries[i].handle.ref_id == r
    }

    /// Position of the entry for platform identifier `p`.
    pub open spec fn platform_pos(self, p: PlatformKey) -> int {
        choose|i: int| 0 <= i < self.entries.len() && #[trigger] self.entries[i].handle.platform_id == p
    }

    /// Position of the entry with reference `r`.
    pub open spec fn ref_pos(self, r: Seq<char>) -> int {
        choose|i: int| 0 <= i < self.entries.len() && #[trigger] self.entries[i].handle.ref_id == r
    }

    /// Entries ascend by reference number, name distinct windows, carry the
    /// reference string of their number, and lie below the next number.
    pub open spec fn wf(self) -> bool {
        &&& forall|i: int, j: int|
            0 <= i < j < self.entries.len() ==> #[trigger] self.entries[i].num
                < #[trigger] self.entries[j].num
        &&& forall|i: int, j: int|
            0 <= i < self.entries.len() && 0 <= j < self.entries.len() && i != j
                ==> #[trigger] self.entries[i].handle.platform_id != #[trigger] self.entries[j].handle.platform_id
        &&& forall|i: int|
            0 <= i < self.entries.len() ==> {
                &&& #[trigger] self.entries[i].num < self.next_ref
                &&& self.entries[i].handle.ref_id == ref_name(self.entries[i].num)
            }
    }

    /// In a well-formed registry a reference names one entry.
    pub proof fn lemma_ref_unique(self, i: int, j: int)
        requires
            self.wf(),
            0 <= i < self.entries.len(),
            0 <= j < self.entries.len(),
            self.entries[i].handle.ref_id == self.entries[j].handle.ref_id,
        ensures
            i == j,
    {
        lemma_ref_name_injective(self.entries[i].num, self.entries[j].num);
    }

    /// In a well-formed registry `ref_pos` finds the one entry with that reference.
    pub proof fn lemma_ref_pos(self, i: int)
        requires
            self.wf(),
            0 <= i < self.entries.len(),
        ensures
            self.has_ref(self.entries[i].handle.ref_id),
            self.ref_pos(self.entries[i].handle.ref_id) == i,
    {
        let r = self.entries[i].handle.ref_id;
        assert(self.has_ref(r));
        self.lemma_ref_unique(i, self.ref_pos(r));
    }

    /// In a well-formed registry `platform_pos` finds the one entry of that window.
    pub proof fn lemma_platform_pos(self, i: int)
        requires
            self.wf(),
            0 <= i < self.entries.len(),
        ensures
            self.has_platform(self.entries[i].handle.platform_id),
            self.platform_pos(self.entries[i].handle.platform_id) == i,
    {
        assert(self.has_platform(self.entries[i].handle.platform_id));
    }

    /// The primary store: handle by reference.
    pub open spec fn store(self) -> Map<Seq<char>, WindowHandleView> {
        Map::new(|r: Seq<char>| self.has_ref(r), |r: Seq<char>| self.entries[self.ref_pos(r)].handle)
    }

    /// The reverse index: reference by platform identifier.
    pub open spec fn index(self) -> Map<PlatformKey, Seq<char>> {
        Map::new(
            |p: PlatformKey| self.has_platform(p),
            |p: PlatformKey| self.entries[self.platform_pos(p)].handle.ref_id,
        )
    }
}

/// The snapshots of a batch, as values.
pub open spec fn snapshots(ws: Seq<WindowInfo>) -> Seq<WindowInfoView> {
    ws.map_values(|w: WindowInfo| w@)
}

/// Some snapshot of the batch is of platform identifier `p`.
pub open spec fn batch_has(b: Seq<WindowInfoView>, p: PlatformKey) -> bool {
    exists|i: int| 0 <= i < b.len() && #[trigger] b[i].platform_id == p
}

/// Position of the last snapshot of `p` in the batch, or -1.
pub open spec fn last_index(b: Seq<WindowInfoView>, p: PlatformKey) -> int
    decreases b.len(),
{
    if b.len() == 0 {
        -1
    } else if b.last().platform_id == p {
        b.len() - 1
    } else {
        last_index(b.drop_last(), p)
    }
}

/// The last snapshot of `p` in the batch: the one whose values count.
pub open spec fn latest(b: Seq<WindowInfoView>, p: PlatformKey) -> WindowInfoView {
    b[last_index(b, p)]
}

/// The platform identifiers of the batch that the registry does not know,
/// once each, in order of first appearance.
pub open spec fn fresh_ids(reg: RegistryView, b: Seq<WindowInfoView>) -> Seq<PlatformKey>
    decreases b.len(),
{
    if b.len() == 0 {
        Seq::empty()
    } else {
        let f = fresh_ids(reg, b.drop_last());
        let p = b.last().platform_id;
        if reg.has_platform(p) || f.contains(p) {
            f
        } else {
            f.push(p)
        }
    }
}

/// The reference number that platform identifier `p` holds after a refresh of
/// `reg` whose unknown identifiers are `fresh`: its old number if it had one,
/// else the next numbers in order of first appearance.
pub open spec fn assigned_num(reg: RegistryView, fresh: Seq<PlatformKey>, p: PlatformKey) -> nat {
    if reg.has_platform(p) {
        reg.entries[reg.platform_pos(p)].num
    } else {
        (reg.next_ref + fresh.index_of(p)) as nat
    }
}

/// `new` is `old` refreshed with batch `b`.
pub open spec fn refreshed(old: RegistryView, b: Seq<WindowInfoView>, new: RegistryView) -> bool {
    let fresh = fresh_ids(old, b);
    &&& new.version == old.version + 1
    &&& new.next_ref == old.next_ref + fresh.len()
    &&& new.wf()
    &&& forall|p: PlatformKey| new.has_platform(p) <==> batch_has(b, p)
    &&& forall|i: int|
        #![trigger new.entries[i]]
        0 <= i < new.entries.len() ==> {
            &&& new.entries[i].handle.shows(latest(b, new.entries[i].handle.platform_id))
            &&& new.entries[i].num == assigned_num(old, fresh, new.entries[i].handle.platform_id)
        }
}

proof fn lemma_last_index(b: Seq<WindowInfoView>, q: PlatformKey)
    requires
        batch_has(b, q),
    ensures
        0 <= last_index(b, q) < b.len(),
        b[last_index(b, q)].platform_id == q,
    decreases b.len(),
{
    if b.last().platform_id != q {
        let i = choose|i: int| 0 <= i < b.len() && #[trigger] b[i].platform_id == q;
        assert(b.drop_last()[i] == b[i]);
        lemma_last_index(b.drop_last(), q);
    }
}

/// How the batch facts grow when one more snapshot is taken in.
proof fn lemma_batch_step(reg: RegistryView, b: Seq<WindowInfoView>, k: int)
    requires
        0 <= k < b.len(),
    ensures
        forall|q: PlatformKey|
            #[trigger] batch_has(b.take(k + 1), q) <==> (batch_has(b.take(k), q) || b[k].platform_id
                == q),
        forall|q: PlatformKey|
            batch_has(b.take(k), q) && b[k].platform_id != q ==> #[trigger] latest(b.take(k + 1), q)
                == latest(b.take(k), q),
        latest(b.take(k + 1), b[k].platform_id) == b[k],
        fresh_ids(reg, b.take(k + 1)) == (if reg.has_platform(b[k].platform_id) || fresh_ids(
            reg,
            b.take(k),
        ).contains(b[k].platform_id) {
            fresh_ids(reg, b.take(k))
        } else {
            fresh_ids(reg, b.take(k)).push(b[k].platform_id)
        }),
{
    let bk = b.take(k);
    let bk1 = b.take(k + 1);
    assert(bk1.drop_last() =~= bk);
    assert(bk1.last() == b[k]);
    assert forall|q: PlatformKey| #[trigger]
        batch_has(bk1, q) <==> (batch_has(bk, q) || b[k].platform_id == q) by {
        if batch_has(bk1, q) {
            let i = choose|i: int| 0 <= i < bk1.len() && #[trigger] bk1[i].platform_id == q;
            if i < k {
                assert(bk[i] == bk1[i]);
            }
        }
        if batch_has(bk, q) {
            let i = choose|i: int| 0 <= i < bk.len() && #[trigger] bk[i].platform_id == q;
            assert(bk1[i] == bk[i]);
        }
        if b[k].platform_id == q {
            assert(bk1[k] == b[k]);
        }
    }
    assert forall|q: PlatformKey|
        batch_has(bk, q) && b[k].platform_id != q implies #[trigger] latest(bk1, q) == latest(
            bk,
            q,
        ) by {
        lemma_last_index(bk, q);
        assert(last_index(bk1, q) == last_index(bk, q));
        assert(bk1[last_index(bk, q)] == bk[last_index(bk, q)]);
    }
}

/// Keeping the entries of `pre` whose window is in the batch, in order, gives
/// the refreshed registry.
proof fn lemma_pruned(
    o: RegistryView,
    b: Seq<WindowInfoView>,
    pre: RegistryView,
    seen: Seq<bool>,
    orig: Seq<int>,
    new: RegistryView,
)
    requires
        pre.wf(),
        new.version == o.version + 1,
        new.next_ref == pre.next_ref,
        pre.next_ref == o.next_ref + fresh_ids(o, b).len(),
        seen.len() == pre.entries.len(),
        forall|j: int|
            0 <= j < seen.len() ==> #[trigger] seen[j] == batch_has(
                b,
                pre.entries[j].handle.platform_id,
            ),
        forall|j: int|
            0 <= j < pre.entries.len() && #[trigger] batch_has(b, pre.entries[j].handle.platform_id)
                ==> pre.entries[j].handle.shows(latest(b, pre.entries[j].handle.platform_id)),
        forall|j: int|
            0 <= j < pre.entries.len() ==> #[trigger] pre.entries[j].num == assigned_num(
                o,
                fresh_ids(o, b),
                pre.entries[j].handle.platform_id,
            ),
        forall|q: PlatformKey| #[trigger] batch_has(b, q) ==> pre.has_platform(q),
        new.entries.len() == orig.len(),
        forall|a: int|
            0 <= a < orig.len() ==> {
                &&& 0 <= #[trigger] orig[a] < pre.entries.len()
                &&& seen[orig[a]]
                &&& new.entries[a] == pre.entries[orig[a]]
            },
        forall|a: int, c: int| 0 <= a < c < orig.len() ==> #[trigger] orig[a] < #[trigger] orig[c],
        forall|i: int|
            0 <= i < pre.entries.len() && #[trigger] seen[i] ==> exists|a: int|
                0 <= a < orig.len() && #[trigger] orig[a] == i,
    ensures
        refreshed(o, b, new),
{
    assert forall|a: int, c: int| 0 <= a < c < new.entries.len() implies #[trigger] new.entries[a].num
        < #[trigger] new.entries[c].num by {
        assert(orig[a] < orig[c]);
    }
    assert forall|a: int, c: int|
        0 <= a < new.entries.len() && 0 <= c < new.entries.len() && a != c implies #[trigger] new.entries[a].handle.platform_id
        != #[trigger] new.entries[c].handle.platform_id by {
        if a < c {
            assert(orig[a] < orig[c]);
        } else {
            assert(orig[c] < orig[a]);
        }
    }
    assert forall|a: int| 0 <= a < new.entries.len() implies {
        &&& #[trigger] new.entries[a].num < new.next_ref
        &&& new.entries[a].handle.ref_id == ref_name(new.entries[a].num)
    } by {
        assert(new.entries[a] == pre.entries[orig[a]]);
    }
    assert(new.wf());
    assert forall|q: PlatformKey| new.has_platform(q) <==> batch_has(b, q) by {
        if new.has_platform(q) {
            let a = choose|a: int|
                0 <= a < new.entries.len() && #[trigger] new.entries[a].handle.platform_id == q;
            assert(new.entries[a] == pre.entries[orig[a]]);
            assert(seen[orig[a]]);
        }
        if batch_has(b, q) {
            let i = choose|i: int|
                0 <= i < pre.entries.len() && #[trigger] pre.entries[i].handle.platform_id == q;
            assert(seen[i]);
            let a = choose|a: int| 0 <= a < orig.len() && #[trigger] orig[a] == i;
            assert(new.entries[a] == pre.entries[orig[a]]);
            assert(new.entries[a].handle.platform_id == q);
        }
    }
    assert forall|a: int| 0 <= a < new.entries.len() implies {
        &&& #[trigger] new.entries[a].handle.shows(latest(b, new.entries[a].handle.platform_id))
        &&& new.entries[a].num == assigned_num(o, fresh_ids(o, b), new.entries[a].handle.platform_id)
    } by {
        let i = orig[a];
        assert(new.entries[a] == pre.entries[i]);
        assert(seen[i]);
        assert(pre.entries[i].num == assigned_num(o, fresh_ids(o, b), pre.entries[i].handle.platform_id));
    }
}

struct Slot {
    num: u64,
    handle: WindowHandle,
}

spec fn entries_of(slots: Seq<Slot>) -> Seq<EntryView> {
    slots.map_values(|s: Slot| EntryView { num: s.num as nat, handle: s.handle@ })
}

/// Keeps stable references (`w0`, `w1`, ...) for the windows that successive
/// enumerations report.
pub struct WindowRegistry {
    slots: Vec<Slot>,
    next_ref: u64,
    version: u64,
}

impl View for WindowRegistry {
    type V = RegistryView;

    closed spec fn view(&self) -> RegistryView {
        RegistryView {
            entries: entries_of(self.slots@),
            next_ref: self.next_ref as nat,
            version: self.version as nat,
        }
    }
}

impl WindowRegistry {
    /// Creates an empty registry.
    pub fn new() -> (r: Self)
        ensures
            r@.entries.len() == 0,
            r@.next_ref == 0,
            r@.version == 0,
            r@.wf(),
    {
        WindowRegistry { slots: Vec::new(), next_ref: 0, version: 0 }
    }

    /// Position of the live entry for window `id`, if any.
    fn find_slot(&self, id: &PlatformWindowId) -> (r: Option<usize>)
        ensures
            match r {
                Some(j) => j < self@.entries.len() && self@.entries[j as int].handle.platform_id == id@,
                None => !self@.has_platform(id@),
            },
    {
        let mut i: usize = 0;
        while i < self.slots.len()
            invariant
                0 <= i <= self.slots@.len(),
                forall|j: int| 0 <= j < i ==> #[trigger] self@.entries[j].handle.platform_id != id@,
            decreases self.slots@.len() - i,
        {
            assert(self@.entries[i as int].handle.platform_id == self.slots@[i as int].handle.platform_id@);
            if self.slots[i].handle.platform_id == *id {
                return Some(i);
            }
            i += 1;
        }
        None
    }

    /// Whether a refresh with `count` snapshots keeps both counters in range.
    pub fn can_update(&self, count: usize) -> (r: bool)
        ensures
            r == (self@.version < u64::MAX && self@.next_ref + count <= u64::MAX),
    {
        self.version < u64::MAX && count as u64 <= u64::MAX - self.next_ref
    }

    /// Refreshes the registry with a new enumeration.
    ///
    /// Windows already known keep their references and take the values of their
    /// last snapshot; unknown windows get the next references in order of first
    /// appearance; windows absent from the batch are dropped, and their
    /// references are never handed out again.
    pub fn update_windows(&mut self, windows: Vec<WindowInfo>)
        requires
            old(self)@.wf(),
            old(self)@.version < u64::MAX,
            old(self)@.next_ref + windows@.len() <= u64::MAX,
        ensures
            refreshed(old(self)@, snapshots(windows@), final(self)@),
            final(self)@.version == old(self)@.version + 1,
    {
        let ghost o = self@;
        let ghost b = snapshots(windows@);
        let ghost m = o.entries.len() as int;
        self.version = self.version + 1;
        assert(self@.entries == o.entries);

        let mut seen: Vec<bool> = Vec::new();
        let mut s: usize = 0;
        while s < self.slots.len()
            invariant
                s <= self.slots@.len(),
                seen@.len() == s,
                forall|j: int| 0 <= j < s ==> !(#[trigger] seen@[j]),
                self@.wf(),
                self@.entries == o.entries,
                self@.next_ref == o.next_ref,
                self@.version == o.version + 1,
            decreases self.slots@.len() - s,
        {
            seen.push(false);
            s += 1;
        }
        assert(b.take(0) =~= Seq::<WindowInfoView>::empty());

        let mut k: usize = 0;
        while k < windows.len()
            invariant
                0 <= k <= windows@.len(),
                b == snapshots(windows@),
                o.wf(),
                m == o.entries.len(),
                self@.version == o.version + 1,
                self@.wf(),
                self@.entries.len() == m + fresh_ids(o, b.take(k as int)).len(),
                self@.next_ref == o.next_ref + fresh_ids(o, b.take(k as int)).len(),
                fresh_ids(o, b.take(k as int)).len() <= k,
                o.next_ref + windows@.len() <= u64::MAX,
                forall|j: int| 0 <= j < m ==> #[trigger] self@.entries[j].num == o.entries[j].num,
                forall|j: int| 0 <= j < m ==> #[trigger] self@.entries[j].handle.platform_id == o.entries[j].handle.platform_id,
                forall|j: int|
                    m <= j < self@.entries.len() ==> #[trigger] self@.entries[j].num == o.next_ref
                        + (j - m),
                forall|j: int|
                    m <= j < self@.entries.len() ==> #[trigger] self@.entries[j].handle.platform_id == fresh_ids(
                        o,
                        b.take(k as int),
                    )[j - m],
                seen@.len() == self@.entries.len(),
                forall|j: int|
                    0 <= j < seen@.len() ==> #[trigger] seen@[j] == batch_has(
                        b.take(k as int),
                        self@.entries[j].handle.platform_id,
                    ),
                forall|j: int|
                    0 <= j < self@.entries.len() && #[trigger] batch_has(
                        b.take(k as int),
                        self@.entries[j].handle.platform_id,
                    ) ==> self@.entries[j].handle.shows(
                        latest(b.take(k as int), self@.entries[j].handle.platform_id),
                    ),
                forall|q: PlatformKey| #[trigger]
                    batch_has(b.take(k as int), q) ==> self@.has_platform(q),
            decreases windows@.len() - k,
        {
            let info = &windows[k];
            let ghost cur = self@;
            let ghost p = info@.platform_id;
            let ghost bk = b.take(k as int);
            let ghost bk1 = b.take(k + 1);
            let ghost fk = fresh_ids(o, bk);
            proof {
                lemma_batch_step(o, b, k as int);
                assert(b[k as int] == info@);
            }
            let found = self.find_slot(&info.platform_id);
            match found {
                Some(j) => {
                    let slot = Slot {
                        num: self.slots[j].num,
                        handle: WindowHandle {
                            ref_id: self.slots[j].handle.ref_id.clone(),
                            platform_id: self.slots[j].handle.platform_id.clone(),
                            title: info.title.clone(),
                            class: info.class.clone(),
                            geometry: info.geometry,
                            focused: info.focused,
                            visible: info.visible,
                        },
                    };
                    self.slots.set(j, slot);
                    seen.set(j, true);
                    proof {
                        if (j as int) < m {
                            assert(o.entries[j as int].handle.platform_id == p);
                            assert(o.has_platform(p));
                        } else {
                            assert(fk[j - m] == p);
                            assert(fk.contains(p));
                        }
                        assert(fresh_ids(o, bk1) == fk);
                        assert forall|i: int|
                            #![trigger self@.entries[i]]
                            0 <= i < self@.entries.len() implies {
                            &&& self@.entries[i].num == cur.entries[i].num
                            &&& self@.entries[i].handle.platform_id == cur.entries[i].handle.platform_id
                            &&& self@.entries[i].handle.ref_id == cur.entries[i].handle.ref_id
                        } by {
                            assert(self@.entries[i] == (if i == j {
                                EntryView {
                                    num: cur.entries[i].num,
                                    handle: self.slots@[i].handle@,
                                }
                            } else {
                                cur.entries[i]
                            }));
                        }
                        assert forall|i: int| 0 <= i < seen@.len() implies #[trigger] seen@[i]
                            == batch_has(bk1, self@.entries[i].handle.platform_id) by {
                            if i != j {
                                assert(cur.entries[i].handle.platform_id != cur.entries[j as int].handle.platform_id);
                            }
                        }
                        assert forall|i: int|
                            0 <= i < self@.entries.len() && #[trigger] batch_has(
                                bk1,
                                self@.entries[i].handle.platform_id,
                            ) implies self@.entries[i].handle.shows(
                            latest(bk1, self@.entries[i].handle.platform_id),
                        ) by {
                            if i != j {
                                assert(cur.entries[i].handle.platform_id != cur.entries[j as int].handle.platform_id);
                                assert(batch_has(bk, cur.entries[i].handle.platform_id));
                            }
                        }
                        assert forall|q: PlatformKey| #[trigger]
                            batch_has(bk1, q) implies self@.has_platform(q) by {
                            if q == p {
                                assert(self@.entries[j as int].handle.platform_id == q);
                            } else {
                                assert(batch_has(bk, q));
                                let i = choose|i: int|
                                    0 <= i < cur.entries.len() && #[trigger] cur.entries[i].handle.platform_id
                                        == q;
                                assert(self@.entries[i].handle.platform_id == q);
                            }
                        }
                    }
                },
                None => {
                    let num = self.next_ref;
                    let handle = WindowHandle {
                        ref_id: ref_string(num),
                        platform_id: info.platform_id.clone(),
                        title: info.title.clone(),
                        class: info.class.clone(),
                        geometry: info.geometry,
                        focused: info.focused,
                        visible: info.visible,
                    };
                    self.slots.push(Slot { num, handle });
                    seen.push(true);
                    self.next_ref = num + 1;
                    proof {
                        assert(!o.has_platform(p)) by {
                            if o.has_platform(p) {
                                let i = choose|i: int|
                                    0 <= i < o.entries.len() && #[trigger] o.entries[i].handle.platform_id == p;
                                assert(cur.entries[i].handle.platform_id == p);
                            }
                        }
                        assert(!fk.contains(p)) by {
                            if fk.contains(p) {
                                let t = choose|t: int| 0 <= t < fk.len() && fk[t] == p;
                                assert(cur.entries[m + t].handle.platform_id == p);
                            }
                        }
                        assert(fresh_ids(o, bk1) == fk.push(p));
                        assert forall|i: int| 0 <= i < cur.entries.len() implies {
                            &&& #[trigger] self@.entries[i] == cur.entries[i]
                        } by {}
                        assert(self@.entries[cur.entries.len() as int].handle.platform_id == p);
                        assert forall|i: int| 0 <= i < seen@.len() implies #[trigger] seen@[i]
                            == batch_has(bk1, self@.entries[i].handle.platform_id) by {
                            if i < cur.entries.len() {
                                assert(cur.entries[i].handle.platform_id != p);
                            }
                        }
                        assert forall|i: int|
                            0 <= i < self@.entries.len() && #[trigger] batch_has(
                                bk1,
                                self@.entries[i].handle.platform_id,
                            ) implies self@.entries[i].handle.shows(
                            latest(bk1, self@.entries[i].handle.platform_id),
                        ) by {
                            if i < cur.entries.len() {
                                assert(cur.entries[i].handle.platform_id != p);
                                assert(batch_has(bk, cur.entries[i].handle.platform_id));
                            }
                        }
                        assert forall|q: PlatformKey| #[trigger]
                            batch_has(bk1, q) implies self@.has_platform(q) by {
                            if q == p {
                                assert(self@.entries[cur.entries.len() as int].handle.platform_id == q);
                            } else {
                                assert(batch_has(bk, q));
                                let i = choose|i: int|
                                    0 <= i < cur.entries.len() && #[trigger] cur.entries[i].handle.platform_id
                                        == q;
                                assert(self@.entries[i].handle.platform_id == q);
                            }
                        }
                    }
                },
            }
            k += 1;
        }
        assert(b.take(windows@.len() as int) =~= b);
        let ghost pre = self@;
        let ghost fresh = fresh_ids(o, b);
        proof {
            assert forall|j: int| 0 <= j < pre.entries.len() implies #[trigger] pre.entries[j].num
                == assigned_num(o, fresh, pre.entries[j].handle.platform_id) by {
                let p = pre.entries[j].handle.platform_id;
                if j < m {
                    o.lemma_platform_pos(j);
                } else {
                    assert(fresh[j - m] == p);
                    assert(!o.has_platform(p)) by {
                        if o.has_platform(p) {
                            let i = choose|i: int|
                                0 <= i < o.entries.len() && #[trigger] o.entries[i].handle.platform_id
                                    == p;
                            assert(pre.entries[i].handle.platform_id == p);
                        }
                    }
                    assert(fresh.contains(p));
                    let t = fresh.index_of(p);
                    assert(pre.entries[m + t].handle.platform_id == p);
                }
            }
        }

        let mut kept: Vec<Slot> = Vec::new();
        let ghost mut orig: Seq<int> = Seq::empty();
        let mut j: usize = 0;
        while j < self.slots.len()
            invariant
                j <= self.slots@.len(),
                self@ == pre,
                seen@.len() == pre.entries.len(),
                orig.len() == kept@.len(),
                forall|a: int|
                    0 <= a < orig.len() ==> {
                        &&& 0 <= #[trigger] orig[a] < j
                        &&& seen@[orig[a]]
                        &&& entries_of(kept@)[a] == pre.entries[orig[a]]
                    },
                forall|a: int, c: int|
                    0 <= a < c < orig.len() ==> #[trigger] orig[a] < #[trigger] orig[c],
                forall|i: int|
                    0 <= i < j && #[trigger] seen@[i] ==> exists|a: int|
                        0 <= a < orig.len() && #[trigger] orig[a] == i,
            decreases self.slots@.len() - j,
        {
            if seen[j] {
                let slot = Slot { num: self.slots[j].num, handle: self.slots[j].handle.clone() };
                let ghost before = kept@;
                kept.push(slot);
                proof {
                    let ghost prev = orig;
                    orig = orig.push(j as int);
                    assert(orig.drop_last() == prev);
                    assert(entries_of(kept@)[orig.len() - 1] == pre.entries[j as int]);
                    assert forall|a: int| 0 <= a < orig.len() - 1 implies entries_of(kept@)[a]
                        == #[trigger] entries_of(before)[a] by {}
                    assert(orig[orig.len() - 1] == j);
                    assert forall|i: int| 0 <= i <= j && #[trigger] seen@[i] implies exists|a: int|
                        0 <= a < orig.len() && #[trigger] orig[a] == i by {
                        if i < j {
                            let a = choose|a: int|
                                0 <= a < orig.len() - 1 && #[trigger] orig.drop_last()[a] == i;
                            assert(orig[a] == i);
                        } else {
                            assert(orig[orig.len() - 1] == i);
                        }
                    }
                }
            }
            j += 1;
        }
        self.slots = kept;
        proof {
            lemma_pruned(o, b, pre, seen@, orig, self@);
        }
    }

    /// The handle stored under reference `ref_id`, if any.
    pub fn get_window(&self, ref_id: &str) -> (r: Option<&WindowHandle>)
        requires
            self@.wf(),
        ensures
            match r {
                Some(h) => self@.store().contains_key(ref_id@) && h@ == self@.store()[ref_id@],
                None => !self@.store().contains_key(ref_id@),
            },
    {
        let key = ref_id.to_owned();
        let mut i: usize = 0;
        while i < self.slots.len()
            invariant
                0 <= i <= self.slots@.len(),
                key@ == ref_id@,
                self@.wf(),
                forall|j: int| 0 <= j < i ==> #[trigger] self@.entries[j].handle.ref_id != ref_id@,
            decreases self.slots@.len() - i,
        {
            if self.slots[i].handle.ref_id == key {
                proof {
                    assert(self@.entries[i as int].handle == self.slots@[i as int].handle@);
                    self@.lemma_ref_pos(i as int);
                }
                return Some(&self.slots[i].handle);
            }
            assert(self@.entries[i as int].handle == self.slots@[i as int].handle@);
            i += 1;
        }
        None
    }

    /// All live handles in ascending order of reference number.
    pub fn windows(&self) -> (r: Vec<&WindowHandle>)
        requires
            self@.wf(),
        ensures
            r@.len() == self@.entries.len(),
            forall|i: int| 0 <= i < r@.len() ==> (#[trigger] r@[i])@ == self@.entries[i].handle,
            forall|i: int, j: int|
                0 <= i < j < r@.len() ==> ref_number((#[trigger] r@[i])@.ref_id) < ref_number(
                    (#[trigger] r@[j])@.ref_id,
                ),
    {
        let mut out: Vec<&WindowHandle> = Vec::new();
        let mut i: usize = 0;
        while i < self.slots.len()
            invariant
                0 <= i <= self.slots@.len(),
                out@.len() == i,
                self@.wf(),
                forall|j: int| 0 <= j < i ==> (#[trigger] out@[j])@ == self@.entries[j].handle,
            decreases self.slots@.len() - i,
        {
            out.push(&self.slots[i].handle);
            i += 1;
        }
        proof {
            assert forall|i: int, j: int| 0 <= i < j < out@.len() implies ref_number(
                (#[trigger] out@[i])@.ref_id,
            ) < ref_number((#[trigger] out@[j])@.ref_id) by {
                lemma_ref_number(self@.entries[i].num);
                lemma_ref_number(self@.entries[j].num);
            }
        }
        out
    }

    /// The number of refreshes so far.
    pub fn version(&self) -> (r: u64)
        ensures
            r == self@.version,
    {
        self.version
    }
}

impl Default for WindowRegistry {
    fn default() -> (r: Self)
        ensures
            r@.entries.len() == 0,
            r@.next_ref == 0,
            r@.version == 0,
            r@.wf(),
    {
        WindowRegistry::new()
    }
}

/// A window that the registry knew before a refresh and that the refresh still
/// sees keeps its reference, and the handle under that reference shows the
/// window's last snapshot in the batch.
pub proof fn lemma_identity_stable(
    old: RegistryView,
    b: Seq<WindowInfoView>,
    new: RegistryView,
    p: PlatformKey,
)
    requires
        old.wf(),
        refreshed(old, b, new),
        old.has_platform(p),
        batch_has(b, p),
    ensures
        new.index().contains_key(p),
        new.index()[p] == old.index()[p],
        new.store().contains_key(new.index()[p]),
        new.store()[new.index()[p]].shows(latest(b, p)),
{
    assert(new.has_platform(p));
    let i = new.platform_pos(p);
    let j = old.platform_pos(p);
    new.lemma_platform_pos(i);
    new.lemma_ref_pos(i);
    assert(new.entries[i].num == old.entries[j].num);
}

proof fn lemma_fresh_contains(reg: RegistryView, b: Seq<WindowInfoView>, p: PlatformKey)
    requires
        batch_has(b, p),
        !reg.has_platform(p),
    ensures
        fresh_ids(reg, b).contains(p),
    decreases b.len(),
{
    let f = fresh_ids(reg, b.drop_last());
    if b.last().platform_id == p {
        if f.contains(p) {
        } else {
            assert(f.push(p)[f.len() as int] == p);
        }
    } else {
        let i = choose|i: int| 0 <= i < b.len() && #[trigger] b[i].platform_id == p;
        assert(b.drop_last()[i] == b[i]);
        lemma_fresh_contains(reg, b.drop_last(), p);
        let t = choose|t: int| 0 <= t < f.len() && f[t] == p;
        assert(f.push(b.last().platform_id)[t] == p);
    }
}

proof fn lemma_chain_next_ref(
    regs: Seq<RegistryView>,
    batches: Seq<Seq<WindowInfoView>>,
    i: int,
    j: int,
)
    requires
        regs.len() == batches.len() + 1,
        forall|k: int|
            0 <= k < batches.len() ==> #[trigger] refreshed(regs[k], batches[k], regs[k + 1]),
        0 <= i <= j < regs.len(),
    ensures
        regs[i].next_ref <= regs[j].next_ref,
    decreases j - i,
{
    if i < j {
        lemma_chain_next_ref(regs, batches, i, j - 1);
        let k = j - 1;
        assert(refreshed(regs[k], batches[k], regs[k + 1]));
    }
}

proof fn lemma_chain_wf(regs: Seq<RegistryView>, batches: Seq<Seq<WindowInfoView>>, i: int)
    requires
        regs.len() == batches.len() + 1,
        regs[0].wf(),
        forall|k: int|
            0 <= k < batches.len() ==> #[trigger] refreshed(regs[k], batches[k], regs[k + 1]),
        0 <= i < regs.len(),
    ensures
        regs[i].wf(),
{
    if i > 0 {
        let k = i - 1;
        assert(refreshed(regs[k], batches[k], regs[k + 1]));
    }
}

proof fn lemma_chain_same_num(
    regs: Seq<RegistryView>,
    batches: Seq<Seq<WindowInfoView>>,
    i: int,
    j: int,
    a: int,
    c: int,
)
    requires
        regs.len() == batches.len() + 1,
        regs[0].wf(),
        forall|k: int|
            0 <= k < batches.len() ==> #[trigger] refreshed(regs[k], batches[k], regs[k + 1]),
        0 <= i <= j < regs.len(),
        0 <= a < regs[i].entries.len(),
        0 <= c < regs[j].entries.len(),
        regs[i].entries[a].num == regs[j].entries[c].num,
    ensures
        regs[i].entries[a].handle.platform_id == regs[j].entries[c].handle.platform_id,
    decreases j - i,
{
    lemma_chain_wf(regs, batches, i);
    lemma_chain_wf(regs, batches, j);
    if i == j {
        if a < c {
            assert(regs[i].entries[a].num < regs[i].entries[c].num);
        } else if c < a {
            assert(regs[i].entries[c].num < regs[i].entries[a].num);
        }
    } else {
        let k = j - 1;
        let prev = regs[k];
        let cur = regs[k + 1];
        let p = cur.entries[c].handle.platform_id;
        assert(refreshed(regs[k], batches[k], regs[k + 1]));
        assert(cur.entries[c].num == assigned_num(prev, fresh_ids(prev, batches[k]), p));
        lemma_chain_wf(regs, batches, j - 1);
        if prev.has_platform(p) {
            let d = prev.platform_pos(p);
            lemma_chain_same_num(regs, batches, i, j - 1, a, d);
        } else {
            lemma_chain_next_ref(regs, batches, i, k);
            assert(batch_has(batches[k], p));
            lemma_fresh_contains(prev, batches[k], p);
            assert(regs[i].entries[a].num < regs[i].next_ref);
        }
    }
}

/// Along any chain of refreshes that starts from a well-formed registry, a
/// reference string never names two different windows: once its window is
/// gone, no later refresh hands it to another.
pub proof fn lemma_no_reuse(
    regs: Seq<RegistryView>,
    batches: Seq<Seq<WindowInfoView>>,
    i: int,
    j: int,
    r: Seq<char>,
)
    requires
        regs.len() == batches.len() + 1,
        regs[0].wf(),
        forall|k: int|
            0 <= k < batches.len() ==> #[trigger] refreshed(regs[k], batches[k], regs[k + 1]),
        0 <= i <= j < regs.len(),
        regs[i].store().contains_key(r),
        regs[j].store().contains_key(r),
    ensures
        regs[i].store()[r].platform_id == regs[j].store()[r].platform_id,
{
    lemma_chain_wf(regs, batches, i);
    lemma_chain_wf(regs, batches, j);
    let a = regs[i].ref_pos(r);
    let c = regs[j].ref_pos(r);
    lemma_ref_name_injective(regs[i].entries[a].num, regs[j].entries[c].num);
    lemma_chain_same_num(regs, batches, i, j, a, c);
}

/// In a well-formed registry, and so after any refresh, the primary store and
/// the reverse index have the same size, and the index maps each stored
/// handle's window back to that handle's reference.
pub proof fn lemma_bijection(reg: RegistryView)
    requires
        reg.wf(),
    ensures
        reg.store().dom().finite(),
        reg.index().dom().finite(),
        reg.store().len() == reg.index().len(),
        forall|r: Seq<char>|
            #[trigger] reg.store().contains_key(r) ==> {
                &&& reg.index().contains_key(reg.store()[r].platform_id)
                &&& reg.index()[reg.store()[r].platform_id] == r
            },
{
    let refs = reg.entries.map_values(|e: EntryView| e.handle.ref_id);
    let plats = reg.entries.map_values(|e: EntryView| e.handle.platform_id);
    assert forall|i: int, j: int|
        0 <= i < refs.len() && 0 <= j < refs.len() && i != j implies refs[i] != refs[j] by {
        if refs[i] == refs[j] {
            reg.lemma_ref_unique(i, j);
        }
    }
    assert(refs.no_duplicates());
    assert(plats.no_duplicates());
    refs.unique_seq_to_set();
    plats.unique_seq_to_set();
    assert forall|r: Seq<char>| reg.has_ref(r) <==> refs.to_set().contains(r) by {
        if reg.has_ref(r) {
            let i = reg.ref_pos(r);
            assert(refs[i] == r);
        }
        if refs.contains(r) {
            let i = choose|i: int| 0 <= i < refs.len() && refs[i] == r;
            assert(reg.entries[i].handle.ref_id == r);
        }
    }
    assert forall|p: PlatformKey| reg.has_platform(p) <==> plats.to_set().contains(p) by {
        if reg.has_platform(p) {
            let i = reg.platform_pos(p);
            assert(plats[i] == p);
        }
        if plats.contains(p) {
            let i = choose|i: int| 0 <= i < plats.len() && plats[i] == p;
            assert(reg.entries[i].handle.platform_id == p);
        }
    }
    assert(reg.store().dom() =~= refs.to_set());
    assert(reg.index().dom() =~= plats.to_set());
    vstd::seq_lib::seq_to_set_is_finite(refs);
    vstd::seq_lib::seq_to_set_is_finite(plats);
    assert forall|r: Seq<char>| #[trigger] reg.store().contains_key(r) implies {
        &&& reg.index().contains_key(reg.store()[r].platform_id)
        &&& reg.index()[reg.store()[r].platform_id] == r
    } by {
        let i = reg.ref_pos(r);
        reg.lemma_ref_pos(i);
        reg.lemma_platform_pos(i);
    }
}

} // verus!
