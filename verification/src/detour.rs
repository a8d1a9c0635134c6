//! Bookkeeping for the underlying detour-installation subsystem.
//!
//! The low-level primitive that patches code lives outside the library; the
//! host invokes it and reports each outcome (a status code, and on hook
//! creation the trampoline address).  The library keeps everything the
//! primitive's callers must rely on: the cached one-time initialization
//! status, the trampoline-to-target mapping that makes removal by trampoline
//! possible, the queue of pending enable/disable transitions, and the set of
//! targets whose transitions have been committed.  Every transition is exact:
//! for each reported outcome the contracts say precisely how the bookkeeping
//! changes.

use vstd::prelude::*;

verus! {

use vstd::pervasive::VecAdditionalExecFns;

/// Status code reported by the underlying subsystem; zero is success.
pub const STATUS_OK: i32 = 0;

/// A failure status of the underlying subsystem.
#[derive(Clone, Copy, PartialEq, Eq, Structural, Debug)]
pub struct MinHookError {
    pub status: i32,
}

/// Why a detour operation failed: the subsystem never initialized, or the
/// subsystem rejected this one operation.
#[derive(Clone, Copy, PartialEq, Eq, Structural, Debug)]
pub enum DetourError {
    InitError(MinHookError),
    OperationError(MinHookError),
}

/// A typed function-pointer slot: either the inert default (capability
/// unavailable, nothing installed) or a concrete address.
#[derive(Clone, Copy, PartialEq, Eq, Structural, Debug)]
pub enum FuncPtr {
    Inert,
    Addr(usize),
}

/// The address a slot holds; the inert default holds none and reads as zero.
pub open spec fn addr_of(f: FuncPtr) -> usize {
    match f {
        FuncPtr::Inert => 0,
        FuncPtr::Addr(a) => a,
    }
}

impl FuncPtr {
    /// Is this slot still the inert default?
    pub fn is_default(&self) -> (r: bool)
        ensures
            r == (*self is Inert),
    {
        matches!(self, FuncPtr::Inert)
    }
}

/// Index of the first pair with the given key, if any.
pub open spec fn key_index(m: Seq<(usize, usize)>, k: usize) -> Option<int>
    decreases m.len(),
{
    if m.len() == 0 {
        None
    } else if m[0].0 == k {
        Some(0)
    } else {
        match key_index(m.drop_first(), k) {
            Some(i) => Some(i + 1),
            None => None,
        }
    }
}

/// Value stored under the given key, if any.
pub open spec fn map_lookup(m: Seq<(usize, usize)>, k: usize) -> Option<usize> {
    match key_index(m, k) {
        Some(i) => Some(m[i].1),
        None => None,
    }
}

/// The association list after storing `v` under `k`: the first pair with key
/// `k` is replaced, or a new pair is appended.
pub open spec fn map_store(m: Seq<(usize, usize)>, k: usize, v: usize) -> Seq<(usize, usize)> {
    match key_index(m, k) {
        Some(i) => m.update(i, (k, v)),
        None => m.push((k, v)),
    }
}

/// The association list after deleting the pair with key `k`, if present.
pub open spec fn map_delete(m: Seq<(usize, usize)>, k: usize) -> Seq<(usize, usize)> {
    match key_index(m, k) {
        Some(i) => m.remove(i),
        None => m,
    }
}

/// No two pairs share a key.
pub open spec fn distinct_keys(m: Seq<(usize, usize)>) -> bool {
    forall|i: int, j: int| 0 <= i < j < m.len() ==> (#[trigger] m[i]).0 != (#[trigger] m[j]).0
}

/// Some created hook targets this address.
pub open spec fn target_created(m: Seq<(usize, usize)>, t: usize) -> bool {
    exists|i: int| 0 <= i < m.len() && (#[trigger] m[i]).1 == t
}

/// What `key_index` finds: the first pair with the key, or a witness that no
/// pair has it.
pub proof fn lemma_key_index(m: Seq<(usize, usize)>, k: usize)
    ensures
        match key_index(m, k) {
            Some(i) => 0 <= i < m.len() && m[i].0 == k && forall|j: int|
                0 <= j < i ==> (#[trigger] m[j]).0 != k,
            None => forall|j: int| 0 <= j < m.len() ==> (#[trigger] m[j]).0 != k,
        },
    decreases m.len(),
{
    if m.len() == 0 {
    } else if m[0].0 == k {
    } else {
        lemma_key_index(m.drop_first(), k);
        assert(forall|j: int|
            1 <= j < m.len() ==> (#[trigger] m[j]) == m.drop_first()[j - 1]);
    }
}

/// After storing a pair, a hook targeting its value exists.
pub proof fn lemma_map_store_creates(m: Seq<(usize, usize)>, k: usize, v: usize)
    ensures
        target_created(map_store(m, k, v), v),
{
    lemma_key_index(m, k);
    match key_index(m, k) {
        Some(i) => {
            assert(map_store(m, k, v)[i] == (k, v));
        },
        None => {
            assert(map_store(m, k, v)[m.len() as int] == (k, v));
        },
    }
}

/// Index of the first occurrence of `x`, if any.
pub open spec fn elem_index(s: Seq<usize>, x: usize) -> Option<int>
    decreases s.len(),
{
    if s.len() == 0 {
        None
    } else if s[0] == x {
        Some(0)
    } else {
        match elem_index(s.drop_first(), x) {
            Some(i) => Some(i + 1),
            None => None,
        }
    }
}

/// No element repeats.
pub open spec fn distinct_elems(s: Seq<usize>) -> bool {
    forall|i: int, j: int| 0 <= i < j < s.len() ==> s[i] != s[j]
}

/// The sequence after inserting `x` unless already present.
pub open spec fn set_insert(s: Seq<usize>, x: usize) -> Seq<usize> {
    if s.contains(x) {
        s
    } else {
        s.push(x)
    }
}

/// The sequence after removing the first occurrence of `x`, if present.
pub open spec fn set_remove(s: Seq<usize>, x: usize) -> Seq<usize> {
    match elem_index(s, x) {
        Some(i) => s.remove(i),
        None => s,
    }
}

/// What `elem_index` finds: the first occurrence, or a witness of absence.
pub proof fn lemma_elem_index(s: Seq<usize>, x: usize)
    ensures
        match elem_index(s, x) {
            Some(i) => 0 <= i < s.len() && s[i] == x && forall|j: int| 0 <= j < i ==> s[j] != x,
            None => forall|j: int| 0 <= j < s.len() ==> s[j] != x,
        },
    decreases s.len(),
{
    if s.len() == 0 {
    } else if s[0] == x {
    } else {
        lemma_elem_index(s.drop_first(), x);
        assert(forall|j: int| 1 <= j < s.len() ==> s[j] == s.drop_first()[j - 1]);
    }
}

/// One queued transition applied to the committed set: enable inserts the
/// target, disable removes it.
pub open spec fn apply_one(s: Seq<usize>, op: (usize, bool)) -> Seq<usize> {
    if op.1 {
        set_insert(s, op.0)
    } else {
        set_remove(s, op.0)
    }
}

/// All queued transitions applied in order.
pub open spec fn apply_all(s: Seq<usize>, ops: Seq<(usize, bool)>) -> Seq<usize>
    decreases ops.len(),
{
    if ops.len() == 0 {
        s
    } else {
        apply_all(apply_one(s, ops[0]), ops.drop_first())
    }
}

/// Applying transitions keeps the committed set free of repeats.
pub proof fn lemma_apply_one_distinct(s: Seq<usize>, op: (usize, bool))
    requires
        distinct_elems(s),
    ensures
        distinct_elems(apply_one(s, op)),
{
    if op.1 {
        if !s.contains(op.0) {
            assert forall|i: int, j: int|
                0 <= i < j < s.push(op.0).len() implies s.push(op.0)[i] != s.push(op.0)[j] by {
                if j == s.len() {
                    assert(s.push(op.0)[j] == op.0);
                    assert(!s.contains(op.0));
                    assert(s.push(op.0)[i] == s[i]);
                }
            }
        }
    } else {
        lemma_elem_index(s, op.0);
        match elem_index(s, op.0) {
            Some(i) => {
                assert forall|a: int, b: int|
                    0 <= a < b < s.remove(i).len() implies s.remove(i)[a] != s.remove(i)[b] by {
                    assert(s.remove(i)[a] == if a < i {
                        s[a]
                    } else {
                        s[a + 1]
                    });
                    assert(s.remove(i)[b] == if b < i {
                        s[b]
                    } else {
                        s[b + 1]
                    });
                }
            },
            None => {},
        }
    }
}

/// Does some pair map a trampoline to this target?
fn target_created_exec(m: &Vec<(usize, usize)>, t: usize) -> (r: bool)
    ensures
        r == target_created(m@, t),
{
    let n = m.len();
    for i in 0..n
        invariant
            n == m@.len(),
            forall|j: int| 0 <= j < i ==> (#[trigger] m@[j]).1 != t,
    {
        if m[i].1 == t {
            return true;
        }
    }
    false
}

/// Find the first pair with the given key.
fn find_key(m: &Vec<(usize, usize)>, k: usize) -> (r: Option<usize>)
    ensures
        match r {
            Some(i) => key_index(m@, k) == Some(i as int),
            None => key_index(m@, k) is None,
        },
{
    proof {
        lemma_key_index(m@, k);
    }
    let n = m.len();
    for i in 0..n
        invariant
            n == m@.len(),
            forall|j: int| 0 <= j < i ==> (#[trigger] m@[j]).0 != k,
            match key_index(m@, k) {
                Some(ki) => 0 <= ki < m@.len() && m@[ki].0 == k && forall|j: int|
                    0 <= j < ki ==> (#[trigger] m@[j]).0 != k,
                None => forall|j: int| 0 <= j < m@.len() ==> (#[trigger] m@[j]).0 != k,
            },
    {
        if m[i].0 == k {
            return Some(i);
        }
    }
    None
}

/// Find the first occurrence of the given element.
fn find_elem(s: &Vec<usize>, x: usize) -> (r: Option<usize>)
    ensures
        match r {
            Some(i) => elem_index(s@, x) == Some(i as int),
            None => elem_index(s@, x) is None,
        },
{
    proof {
        lemma_elem_index(s@, x);
    }
    let n = s.len();
    for i in 0..n
        invariant
            n == s@.len(),
            forall|j: int| 0 <= j < i ==> s@[j] != x,
            match elem_index(s@, x) {
                Some(ei) => 0 <= ei < s@.len() && s@[ei] == x && forall|j: int|
                    0 <= j < ei ==> s@[j] != x,
                None => forall|j: int| 0 <= j < s@.len() ==> s@[j] != x,
            },
    {
        if s[i] == x {
            return Some(i);
        }
    }
    None
}

/// Store `v` under `k` in the association list.
fn map_store_exec(m: &mut Vec<(usize, usize)>, k: usize, v: usize)
    requires
        distinct_keys(old(m)@),
    ensures
        final(m)@ == map_store(old(m)@, k, v),
        distinct_keys(final(m)@),
{
    proof {
        lemma_key_index(m@, k);
    }
    match find_key(m, k) {
        Some(i) => {
            m.set(i, (k, v));
        },
        None => {
            m.push((k, v));
            proof {
                assert forall|i: int, j: int|
                    0 <= i < j < m@.len() implies (#[trigger] m@[i]).0 != (#[trigger] m@[j]).0 by {
                    if j == m@.len() - 1 {
                        assert(m@[i] == old(m)@[i]);
                    }
                }
            }
        },
    }
}

/// Delete the pair with key `k` from the association list, if present.
fn map_delete_exec(m: &mut Vec<(usize, usize)>, k: usize)
    requires
        distinct_keys(old(m)@),
    ensures
        final(m)@ == map_delete(old(m)@, k),
        distinct_keys(final(m)@),
{
    proof {
        lemma_key_index(m@, k);
    }
    match find_key(m, k) {
        Some(i) => {
            m.remove(i);
            proof {
                assert forall|a: int, b: int|
                    0 <= a < b < m@.len() implies (#[trigger] m@[a]).0 != (#[trigger] m@[b]).0 by {
                    assert(m@[a] == if a < i {
                        old(m)@[a]
                    } else {
                        old(m)@[a + 1]
                    });
                    assert(m@[b] == if b < i {
                        old(m)@[b]
                    } else {
                        old(m)@[b + 1]
                    });
                }
            }
        },
        None => {},
    }
}

/// Insert `x` into the committed set unless present.
fn set_insert_exec(s: &mut Vec<usize>, x: usize)
    requires
        distinct_elems(old(s)@),
    ensures
        final(s)@ == set_insert(old(s)@, x),
        distinct_elems(final(s)@),
{
    proof {
        lemma_elem_index(s@, x);
        lemma_apply_one_distinct(s@, (x, true));
    }
    match find_elem(s, x) {
        Some(_) => {
            proof {
                match elem_index(old(s)@, x) {
                    Some(i) => assert(old(s)@[i] == x),
                    None => {},
                }
            }
        },
        None => {
            s.push(x);
        },
    }
}

/// Remove the first occurrence of `x` from the committed set, if present.
fn set_remove_exec(s: &mut Vec<usize>, x: usize)
    requires
        distinct_elems(old(s)@),
    ensures
        final(s)@ == set_remove(old(s)@, x),
        distinct_elems(final(s)@),
{
    proof {
        lemma_elem_index(s@, x);
        lemma_apply_one_distinct(s@, (x, false));
    }
    match find_elem(s, x) {
        Some(i) => {
            s.remove(i);
        },
        None => {},
    }
}

/// Bookkeeping state of the detour subsystem.
pub struct DetourEngine {
    /// Cached status of the one-time initialization of the underlying
    /// subsystem; set once at construction, success is `STATUS_OK`.
    pub init_status: i32,
    /// Trampoline address to originally-hooked target address, one pair per
    /// created hook.
    pub mapping: Vec<(usize, usize)>,
    /// Pending (target, enable) transitions, in queue order.
    pub queued: Vec<(usize, bool)>,
    /// Targets whose enable transition has been committed.
    pub enabled: Vec<usize>,
}

impl DetourEngine {
    /// Did the underlying subsystem initialize?
    pub open spec fn initialized(&self) -> bool {
        self.init_status == STATUS_OK
    }

    /// The mapping has one pair per hook and the committed set has no repeats.
    pub open spec fn wf(&self) -> bool {
        &&& distinct_keys(self.mapping@)
        &&& distinct_elems(self.enabled@)
    }

    /// The error every operation fails with while the subsystem is
    /// uninitialized.
    pub open spec fn spec_init_error(&self) -> DetourError {
        DetourError::InitError((MinHookError { status: self.init_status }))
    }

    /// Cache the outcome of the one-time initialization of the underlying
    /// subsystem.  The outcome is cached for the engine's whole lifetime:
    /// every later operation checks it first and fails fast if it was a
    /// failure.
    pub fn new(init_status: i32) -> (r: DetourEngine)
        ensures
            r.init_status == init_status,
            r.mapping@.len() == 0,
            r.queued@.len() == 0,
            r.enabled@.len() == 0,
            r.wf(),
    {
        DetourEngine { init_status, mapping: Vec::new(), queued: Vec::new(), enabled: Vec::new() }
    }

    /// Record the outcome of creating a hook at `target` with the given
    /// detour.  On a successful outcome the reported trampoline address goes
    /// into the slot and the trampoline-to-target pair into the mapping; on a
    /// failed outcome nothing changes and the slot stays as it was.
    pub fn create_hook(
        &mut self,
        target: usize,
        detour: usize,
        trampoline: &mut FuncPtr,
        outcome: Result<usize, i32>,
    ) -> (r: Result<(), DetourError>)
        requires
            old(self).wf(),
        ensures
            final(self).wf(),
            final(self).init_status == old(self).init_status,
            final(self).queued == old(self).queued,
            final(self).enabled == old(self).enabled,
            !old(self).initialized() ==> {
                &&& final(self).mapping == old(self).mapping
                &&& *final(trampoline) == *old(trampoline)
                &&& r == Err::<(), DetourError>(old(self).spec_init_error())
            },
            old(self).initialized() ==> match outcome {
                Ok(tr) => {
                    &&& final(self).mapping@ == map_store(old(self).mapping@, tr, target)
                    &&& *final(trampoline) == FuncPtr::Addr(tr)
                    &&& r == Ok::<(), DetourError>(())
                },
                Err(status) => {
                    &&& final(self).mapping == old(self).mapping
                    &&& *final(trampoline) == *old(trampoline)
                    &&& r == Err::<(), DetourError>(
                        DetourError::OperationError((MinHookError { status })),
                    )
                },
            },
            (r is Ok) == (old(self).initialized() && outcome is Ok),
    {
        let _ = detour;
        if self.init_status != STATUS_OK {
            return Err(DetourError::InitError(MinHookError { status: self.init_status }));
        }
        match outcome {
            Ok(tr) => {
                *trampoline = FuncPtr::Addr(tr);
                map_store_exec(&mut self.mapping, tr, target);
                Ok(())
            },
            Err(status) => Err(DetourError::OperationError(MinHookError { status })),
        }
    }

    /// Queue an enable transition for a created hook.  A target with no
    /// created hook has nothing to enable: nothing is queued and the call
    /// succeeds.
    pub fn queue_enable_hook(&mut self, target: usize) -> (r: Result<(), DetourError>)
        requires
            old(self).wf(),
        ensures
            final(self).wf(),
            final(self).init_status == old(self).init_status,
            final(self).mapping == old(self).mapping,
            final(self).enabled == old(self).enabled,
            !old(self).initialized() ==> final(self).queued == old(self).queued && r == Err::<
                (),
                DetourError,
            >(old(self).spec_init_error()),
            old(self).initialized() ==> {
                &&& final(self).queued@ == if target_created(old(self).mapping@, target) {
                    old(self).queued@.push((target, true))
                } else {
                    old(self).queued@
                }
                &&& r == Ok::<(), DetourError>(())
            },
    {
        if self.init_status != STATUS_OK {
            return Err(DetourError::InitError(MinHookError { status: self.init_status }));
        }
        if target_created_exec(&self.mapping, target) {
            self.queued.push((target, true));
        }
        Ok(())
    }

    /// Queue a disable transition for the hook whose trampoline this is.  An
    /// inert slot, or a trampoline with no created hook, has nothing to
    /// disable: nothing is queued and the call succeeds.
    pub fn queue_disable_hook(&mut self, trampoline: &FuncPtr) -> (r: Result<(), DetourError>)
        requires
            old(self).wf(),
        ensures
            final(self).wf(),
            final(self).init_status == old(self).init_status,
            final(self).mapping == old(self).mapping,
            final(self).enabled == old(self).enabled,
            !old(self).initialized() ==> final(self).queued == old(self).queued && r == Err::<
                (),
                DetourError,
            >(old(self).spec_init_error()),
            old(self).initialized() ==> {
                &&& final(self).queued@ == match *trampoline {
                    FuncPtr::Inert => old(self).queued@,
                    FuncPtr::Addr(a) => match map_lookup(old(self).mapping@, a) {
                        Some(t) => old(self).queued@.push((t, false)),
                        None => old(self).queued@,
                    },
                }
                &&& r == Ok::<(), DetourError>(())
            },
    {
        if self.init_status != STATUS_OK {
            return Err(DetourError::InitError(MinHookError { status: self.init_status }));
        }
        match trampoline {
            FuncPtr::Inert => Ok(()),
            FuncPtr::Addr(a) => {
                proof {
                    lemma_key_index(self.mapping@, *a);
                }
                match find_key(&self.mapping, *a) {
                    Some(i) => {
                        let t = self.mapping[i].1;
                        self.queued.push((t, false));
                        Ok(())
                    },
                    None => Ok(()),
                }
            },
        }
    }

    /// Commit all queued transitions.  On a successful outcome the committed
    /// set reflects every queued transition in order; on a failed outcome the
    /// committed state is kept as it was, without rollback, and the queue is
    /// dropped.
    pub fn apply_queued(&mut self, outcome: Result<(), i32>) -> (r: Result<(), DetourError>)
        requires
            old(self).wf(),
        ensures
            final(self).wf(),
            final(self).init_status == old(self).init_status,
            final(self).mapping == old(self).mapping,
            !old(self).initialized() ==> {
                &&& final(self).queued == old(self).queued
                &&& final(self).enabled == old(self).enabled
                &&& r == Err::<(), DetourError>(old(self).spec_init_error())
            },
            old(self).initialized() ==> {
                &&& final(self).queued@.len() == 0
                &&& match outcome {
                    Ok(_) => {
                        &&& final(self).enabled@ == apply_all(
                            old(self).enabled@,
                            old(self).queued@,
                        )
                        &&& r == Ok::<(), DetourError>(())
                    },
                    Err(status) => {
                        &&& final(self).enabled == old(self).enabled
                        &&& r == Err::<(), DetourError>(
                            DetourError::OperationError((MinHookError { status })),
                        )
                    },
                }
            },
    {
        if self.init_status != STATUS_OK {
            return Err(DetourError::InitError(MinHookError { status: self.init_status }));
        }
        match outcome {
            Ok(_) => {
                let n = self.queued.len();
                let ghost ops = self.queued@;
                proof {
                    assert(ops.skip(0) =~= ops);
                }
                for i in 0..n
                    invariant
                        n == ops.len(),
                        self.queued@ == ops,
                        self.mapping == old(self).mapping,
                        self.init_status == old(self).init_status,
                        distinct_elems(self.enabled@),
                        apply_all(old(self).enabled@, ops) == apply_all(
                            self.enabled@,
                            ops.skip(i as int),
                        ),
                {
                    let (t, en) = self.queued[i];
                    proof {
                        assert(ops.skip(i as int)[0] == ops[i as int]);
                        assert(ops.skip(i as int).drop_first() =~= ops.skip(i as int + 1));
                    }
                    if en {
                        set_insert_exec(&mut self.enabled, t);
                    } else {
                        set_remove_exec(&mut self.enabled, t);
                    }
                }
                self.queued = Vec::new();
                Ok(())
            },
            Err(status) => {
                self.queued = Vec::new();
                Err(DetourError::OperationError(MinHookError { status }))
            },
        }
    }

    /// Permanently uninstall the hook whose trampoline this is, recording the
    /// reported outcome.  The trampoline's pair leaves the mapping and its
    /// target leaves the committed set even when the subsystem reports a
    /// failure; an inert slot, or a trampoline with no created hook, has
    /// nothing to remove and the call succeeds.
    pub fn remove_hook(&mut self, trampoline: &FuncPtr, outcome: Result<(), i32>) -> (r: Result<
        (),
        DetourError,
    >)
        requires
            old(self).wf(),
        ensures
            final(self).wf(),
            final(self).init_status == old(self).init_status,
            final(self).queued == old(self).queued,
            !old(self).initialized() ==> {
                &&& final(self).mapping == old(self).mapping
                &&& final(self).enabled == old(self).enabled
                &&& r == Err::<(), DetourError>(old(self).spec_init_error())
            },
            old(self).initialized() ==> match *trampoline {
                FuncPtr::Inert => {
                    &&& final(self).mapping == old(self).mapping
                    &&& final(self).enabled == old(self).enabled
                    &&& r == Ok::<(), DetourError>(())
                },
                FuncPtr::Addr(a) => match map_lookup(old(self).mapping@, a) {
                    None => {
                        &&& final(self).mapping == old(self).mapping
                        &&& final(self).enabled == old(self).enabled
                        &&& r == Ok::<(), DetourError>(())
                    },
                    Some(t) => {
                        &&& final(self).mapping@ == map_delete(old(self).mapping@, a)
                        &&& final(self).enabled@ == set_remove(old(self).enabled@, t)
                        &&& r == match outcome {
                            Ok(_) => Ok::<(), DetourError>(()),
                            Err(status) => Err::<(), DetourError>(
                                DetourError::OperationError((MinHookError { status })),
                            ),
                        }
                    },
                },
            },
    {
        if self.init_status != STATUS_OK {
            return Err(DetourError::InitError(MinHookError { status: self.init_status }));
        }
        match trampoline {
            FuncPtr::Inert => Ok(()),
            FuncPtr::Addr(a) => {
                proof {
                    lemma_key_index(self.mapping@, *a);
                }
                match find_key(&self.mapping, *a) {
                    None => Ok(()),
                    Some(i) => {
                        let t = self.mapping[i].1;
                        map_delete_exec(&mut self.mapping, *a);
                        set_remove_exec(&mut self.enabled, t);
                        match outcome {
                            Ok(_) => Ok(()),
                            Err(status) => Err(
                                DetourError::OperationError(MinHookError { status }),
                            ),
                        }
                    },
                }
            },
        }
    }

    /// Process teardown: drop all bookkeeping.  A no-op if initialization
    /// never succeeded.
    pub fn uninitialize(&mut self)
        ensures
            final(self).init_status == old(self).init_status,
            old(self).initialized() ==> {
                &&& final(self).mapping@.len() == 0
                &&& final(self).queued@.len() == 0
                &&& final(self).enabled@.len() == 0
            },
            !old(self).initialized() ==> *final(self) == *old(self),
            old(self).wf() ==> final(self).wf(),
    {
        if self.init_status == STATUS_OK {
            self.mapping = Vec::new();
            self.queued = Vec::new();
            self.enabled = Vec::new();
        }
    }
}

} // verus!
