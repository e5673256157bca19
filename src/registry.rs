//! The process registry: one entry per build target, each with the command id
//! of the run that started it and the handle that controls it.
use vstd::prelude::*;
use crate::protocol::{BuildCmdId, BuildProcess, BuildProcessView};

verus! {

/// A registered process.
pub struct ProcessEntry<H> {
    pub what: BuildProcess,
    pub cmd_id: BuildCmdId,
    pub handle: H,
}

/// Running processes keyed by build target, in order of first registration.
pub struct Registry<H> {
    entries: Vec<ProcessEntry<H>>,
}

/// No build target occurs twice.
pub open spec fn keys_unique(s: Seq<(BuildProcessView, BuildCmdId)>) -> bool {
    forall|i: int, j: int| 0 <= i < j < s.len() ==> s[i].0 != s[j].0
}

pub open spec fn has_key(s: Seq<(BuildProcessView, BuildCmdId)>, k: BuildProcessView) -> bool {
    exists|i: int| 0 <= i < s.len() && s[i].0 == k
}

/// Where the build target `k` stands, if it does.
pub open spec fn key_index(s: Seq<(BuildProcessView, BuildCmdId)>, k: BuildProcessView) -> int {
    choose|i: int| 0 <= i < s.len() && s[i].0 == k
}

/// The command id registered for the build target `k`.
pub open spec fn cmd_of(s: Seq<(BuildProcessView, BuildCmdId)>, k: BuildProcessView) -> Option<
    BuildCmdId,
> {
    if has_key(s, k) {
        Some(s[key_index(s, k)].1)
    } else {
        None
    }
}

/// Registering `k` under `c`: an existing entry for `k` is overwritten in place,
/// otherwise a new one is appended.
pub open spec fn insert_spec(
    s: Seq<(BuildProcessView, BuildCmdId)>,
    k: BuildProcessView,
    c: BuildCmdId,
) -> Seq<(BuildProcessView, BuildCmdId)> {
    if has_key(s, k) {
        s.update(key_index(s, k), (k, c))
    } else {
        s.push((k, c))
    }
}

/// Index of the first entry at or after `i` registered under the command id `c`.
pub open spec fn first_with_cmd(s: Seq<(BuildProcessView, BuildCmdId)>, c: BuildCmdId, i: int) -> Option<int>
    decreases s.len() - i,
{
    if i < 0 || i >= s.len() {
        None
    } else if s[i].1 == c {
        Some(i)
    } else {
        first_with_cmd(s, c, i + 1)
    }
}

/// The result of `first_with_cmd` is an entry under `c`, with none before it.
pub proof fn lemma_first_with_cmd(s: Seq<(BuildProcessView, BuildCmdId)>, c: BuildCmdId, i: int)
    requires
        0 <= i,
    ensures
        match first_with_cmd(s, c, i) {
            Some(j) => i <= j < s.len() && s[j].1 == c && forall|m: int|
                i <= m < j ==> s[m].1 != c,
            None => forall|m: int| i <= m < s.len() ==> s[m].1 != c,
        },
    decreases s.len() - i,
{
    if i < s.len() && s[i].1 != c {
        lemma_first_with_cmd(s, c, i + 1);
    }
}

impl<H> View for Registry<H> {
    type V = Seq<(BuildProcessView, BuildCmdId)>;

    closed spec fn view(&self) -> Seq<(BuildProcessView, BuildCmdId)> {
        self.entries@.map_values(|e: ProcessEntry<H>| (e.what@, e.cmd_id))
    }
}

impl<H> Registry<H> {
    pub open spec fn wf(&self) -> bool {
        keys_unique(self@)
    }

    pub fn new() -> (r: Registry<H>)
        ensures
            r@ == Seq::<(BuildProcessView, BuildCmdId)>::empty(),
            r.wf(),
    {
        let r = Registry { entries: Vec::new() };
        assert(r@ =~= Seq::<(BuildProcessView, BuildCmdId)>::empty());
        r
    }

    pub fn len(&self) -> (r: usize)
        ensures
            r == self@.len(),
    {
        self.entries.len()
    }

    /// The handle of the entry at `i`.
    pub fn handle(&self, i: usize) -> (r: &H)
        requires
            i < self@.len(),
        ensures
            *r == self.spec_handle(i as int),
    {
        &self.entries[i].handle
    }

    pub closed spec fn spec_handle(&self, i: int) -> H {
        self.entries@[i].handle
    }

    /// Registers `what` under `cmd_id` with its handle; an entry already there
    /// for `what` is replaced, and its handle handed back.
    pub fn insert(&mut self, what: BuildProcess, cmd_id: BuildCmdId, handle: H) -> (r: Option<H>)
        requires
            old(self).wf(),
        ensures
            final(self).wf(),
            final(self)@ == insert_spec(old(self)@, what@, cmd_id),
            r is Some <==> has_key(old(self)@, what@),
    {
        let ghost k = what@;
        let ghost s = self@;
        let mut i: usize = 0;
        while i < self.entries.len()
            invariant
                self@ == s,
                s == old(self)@,
                k == what@,
                keys_unique(s),
                i <= self.entries@.len(),
                self@.len() == self.entries@.len(),
                forall|m: int| 0 <= m < i ==> s[m].0 != k,
            decreases self.entries@.len() - i,
        {
            assert(s[i as int].0 == self.entries@[i as int].what@);
            let same = self.entries[i].what.same_as(&what);
            if same {
                assert(has_key(s, k));
                assert(key_index(s, k) == i) by {
                    let j = key_index(s, k);
                    assert(0 <= j < s.len() && s[j].0 == k);
                    if j < i {
                    } else if j > i {
                        assert(s[i as int].0 == s[j].0);
                    }
                }
                let entry = ProcessEntry { what, cmd_id, handle };
                let mut tmp = entry;
                core::mem::swap(&mut self.entries[i], &mut tmp);
                assert(self@ =~= insert_spec(s, k, cmd_id));
                return Some(tmp.handle);
            }
            i = i + 1;
        }
        assert(!has_key(s, k));
        self.entries.push(ProcessEntry { what, cmd_id, handle });
        assert(self@ =~= insert_spec(s, k, cmd_id));
        None
    }

    /// The first entry registered under `cmd_id`.
    pub fn find_by_cmd(&self, cmd_id: BuildCmdId) -> (r: Option<usize>)
        ensures
            match r {
                Some(i) => i < self@.len() && first_with_cmd(self@, cmd_id, 0) == Some(i as int),
                None => first_with_cmd(self@, cmd_id, 0) is None,
            },
    {
        let mut i: usize = 0;
        while i < self.entries.len()
            invariant
                i <= self.entries@.len(),
                self@.len() == self.entries@.len(),
                first_with_cmd(self@, cmd_id, 0) == first_with_cmd(self@, cmd_id, i as int),
            decreases self.entries@.len() - i,
        {
            assert(self@[i as int].1 == self.entries@[i as int].cmd_id);
            if self.entries[i].cmd_id == cmd_id {
                return Some(i);
            }
            i = i + 1;
        }
        None
    }
}

impl<H> Registry<H> {
    /// The handle of the first process registered under `cmd_id`.
    pub fn find_handle(&self, cmd_id: BuildCmdId) -> (r: Option<&H>)
        ensures
            match first_with_cmd(self@, cmd_id, 0) {
                Some(i) => r is Some && *r->0 == self.spec_handle(i),
                None => r is None,
            },
    {
        match self.find_by_cmd(cmd_id) {
            Some(i) => Some(self.handle(i)),
            None => None,
        }
    }
}

/// Registering keeps build targets unique.
pub proof fn lemma_insert_keeps_unique(
    s: Seq<(BuildProcessView, BuildCmdId)>,
    k: BuildProcessView,
    c: BuildCmdId,
)
    requires
        keys_unique(s),
    ensures
        keys_unique(insert_spec(s, k, c)),
{
}

/// Registering the same build target again, before the first run ended, leaves
/// the registry pointing at the newer run, with no second entry and every other
/// entry as it was.
pub proof fn lemma_rerun_overwrites(
    s: Seq<(BuildProcessView, BuildCmdId)>,
    k: BuildProcessView,
    c1: BuildCmdId,
    c2: BuildCmdId,
)
    requires
        keys_unique(s),
    ensures
        ({
            let once = insert_spec(s, k, c1);
            let twice = insert_spec(once, k, c2);
            &&& cmd_of(twice, k) == Some(c2)
            &&& twice.len() == once.len()
            &&& keys_unique(twice)
            &&& forall|k2: BuildProcessView| k2 != k ==> cmd_of(twice, k2) == cmd_of(s, k2)
        }),
{
    let once = insert_spec(s, k, c1);
    let twice = insert_spec(once, k, c2);
    lemma_insert_keeps_unique(s, k, c1);
    lemma_insert_keeps_unique(once, k, c2);
    lemma_insert_lookup(s, k, c1);
    lemma_insert_lookup(once, k, c2);
}

/// After registering `k` under `c`, `k` maps to `c` and every other target is unchanged.
pub proof fn lemma_insert_lookup(
    s: Seq<(BuildProcessView, BuildCmdId)>,
    k: BuildProcessView,
    c: BuildCmdId,
)
    requires
        keys_unique(s),
    ensures
        cmd_of(insert_spec(s, k, c), k) == Some(c),
        forall|k2: BuildProcessView| k2 != k ==> cmd_of(insert_spec(s, k, c), k2) == cmd_of(s, k2),
{
    let t = insert_spec(s, k, c);
    lemma_insert_keeps_unique(s, k, c);
    if has_key(s, k) {
        assert(t[key_index(s, k)].0 == k);
    } else {
        assert(t[s.len() as int].0 == k);
    }
    assert(has_key(t, k));
    assert forall|k2: BuildProcessView| k2 != k implies cmd_of(t, k2) == cmd_of(s, k2) by {
        if has_key(s, k2) {
            let j = key_index(s, k2);
            assert(t[j] == s[j]);
            assert(has_key(t, k2));
        }
        if has_key(t, k2) {
            let j = key_index(t, k2);
            assert(t[j] == s[j]);
            assert(has_key(s, k2));
        }
    }
}

/// Entries of distinct build targets under distinct command ids are independent:
/// looking up one target's command id finds that target's entry and never the other's.
pub proof fn lemma_lookup_independent(
    s: Seq<(BuildProcessView, BuildCmdId)>,
    d1: BuildProcessView,
    d2: BuildProcessView,
)
    requires
        keys_unique(s),
        has_key(s, d1),
        has_key(s, d2),
        d1 != d2,
        cmd_of(s, d1) != cmd_of(s, d2),
    ensures
        ({
            let c1 = cmd_of(s, d1)->0;
            &&& first_with_cmd(s, c1, 0) is Some
            &&& s[first_with_cmd(s, c1, 0)->0].0 != d2
        }),
{
    let c1 = cmd_of(s, d1)->0;
    let i1 = key_index(s, d1);
    let i2 = key_index(s, d2);
    lemma_first_with_cmd(s, c1, 0);
    let j = first_with_cmd(s, c1, 0);
    assert(s[i1].1 == c1);
    if j is None {
        assert(false);
    } else {
        let j = j->0;
        if s[j].0 == d2 {
            assert(j == i2);
        }
    }
}

} // verus!
