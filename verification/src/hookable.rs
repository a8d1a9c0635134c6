//! Hook lifecycle of one target module.
//!
//! A hookable target declares, as data, an ordered preference list of
//! acceptable module filenames and a table of logical functions: how each is
//! located (signature scan, export lookup, or a value read out of scanned
//! code) and whether a detour is installed at it or its address is only
//! captured.  One generic routine resolves the table against a module
//! snapshot, installs what resolved, and one removes everything again.  A
//! function that fails to resolve is skipped — the capability is unavailable,
//! the rest of the module proceeds.  The selection policy decides which loaded
//! module the target binds to: the first match in preference order wins, and a
//! hook is only traded for a strictly higher-priority filename.

use vstd::prelude::*;

use crate::detour;
use crate::detour::{DetourEngine, FuncPtr};
use crate::logger::{LogLevel, Logger};
use crate::module::{spec_export, spec_u32_le, ModuleInfo, ModuleInfoV};
use crate::pattern;
use crate::pattern::Pattern;

verus! {

/// How a logical function is located inside a module.
pub enum Lookup {
    /// Leftmost match of a byte signature.
    Signature(Pattern),
    /// Export-table entry with this name.
    Export(String),
    /// 32-bit value stored at the given offset past a signature match.
    DataAt(Pattern, usize),
}

/// What happens at a resolved address.
#[derive(Clone, Copy, PartialEq, Eq, Structural, Debug)]
pub enum HookAction {
    /// Install a detour there and keep the trampoline.
    Install,
    /// Only capture the address for calling or reading.
    Capture,
}

/// One logical function of a hookable target.
pub struct HookSpec {
    /// Name of the logical function, for diagnostics.
    pub name: String,
    /// How to locate it.
    pub lookup: Lookup,
    /// Install a detour, or only capture the address.
    pub action: HookAction,
    /// Identity of the detour function the host associates with this entry;
    /// meaningful only for installed entries.
    pub detour: usize,
}

impl HookSpec {
    pub open spec fn wf(&self) -> bool {
        match self.lookup {
            Lookup::Signature(p) => p.wf(),
            Lookup::Export(_) => true,
            Lookup::DataAt(p, _) => p.wf(),
        }
    }
}

/// Live state of one logical function: the address it resolved to, the
/// current function-pointer slot, the detour identity, and whether a detour is
/// installed.  Calling through the slot after uninstall is only legitimate
/// once it is reset to the inert default.
#[derive(Clone, Copy, PartialEq, Eq, Structural, Debug)]
pub struct HookRecord {
    pub target: usize,
    pub trampoline: FuncPtr,
    pub detour: usize,
    pub installed: bool,
}

/// The cleared state of a record: nothing resolved, nothing installed.
pub open spec fn inert_record() -> HookRecord {
    HookRecord { target: 0, trampoline: FuncPtr::Inert, detour: 0, installed: false }
}

impl HookRecord {
    pub fn inert() -> (r: HookRecord)
        ensures
            r == inert_record(),
    {
        HookRecord { target: 0, trampoline: FuncPtr::Inert, detour: 0, installed: false }
    }

    /// Is the capability behind this record available (address captured or
    /// detour installed)?
    pub fn is_available(&self) -> (r: bool)
        ensures
            r == !(self.trampoline is Inert),
    {
        !self.trampoline.is_default()
    }
}

/// The address table a hook attempt works from: the module snapshot and, per
/// table entry, the resolved address or its absence.
pub struct ResolvedTarget {
    pub module_info: ModuleInfo,
    pub addrs: Vec<Option<usize>>,
}

/// Where one table entry resolves to in a module: the match or export
/// address, or for a data entry the 32-bit value read past the match; absent
/// when the signature or export is not found or the read would leave the
/// module.
pub open spec fn spec_resolve(s: HookSpec, m: ModuleInfoV) -> Option<usize> {
    match s.lookup {
        Lookup::Signature(pat) => match pattern::spec_find(m.bytes, pat@) {
            Some(off) => Some((m.base + off) as usize),
            None => None,
        },
        Lookup::Export(name) => spec_export(m.exports, name@),
        Lookup::DataAt(pat, delta) => match pattern::spec_find(m.bytes, pat@) {
            Some(off) => if off + delta + 4 <= m.size {
                Some(spec_u32_le(m.bytes, off + delta) as usize)
            } else {
                None
            },
            None => None,
        },
    }
}

/// Resolve one table entry against a module snapshot.
fn resolve_one(s: &HookSpec, m: &ModuleInfo) -> (r: Option<usize>)
    requires
        s.wf(),
        m.wf(),
    ensures
        r == spec_resolve(*s, m@),
{
    match &s.lookup {
        Lookup::Signature(pat) => m.find(pat),
        Lookup::Export(name) => m.get_function(name),
        Lookup::DataAt(pat, delta) => {
            match m.find(pat) {
                Some(a) => {
                    let off = a - m.base;
                    proof {
                        pattern::lemma_first_match_some(m@.bytes, pat@, 0, off as int);
                    }
                    if *delta <= m.size && off <= m.size - *delta && m.size - *delta - off >= 4 {
                        Some(m.read_u32_le(off + *delta) as usize)
                    } else {
                        None
                    }
                },
                None => None,
            }
        },
    }
}

/// Index of the first preference-list name equal to the filename, if any;
/// the name at the head of the list has the highest priority.
pub open spec fn spec_name_index(names: Seq<Seq<char>>, f: Seq<char>) -> Option<int>
    decreases names.len(),
{
    if names.len() == 0 {
        None
    } else if names[0] == f {
        Some(0)
    } else {
        match spec_name_index(names.drop_first(), f) {
            Some(i) => Some(i + 1),
            None => None,
        }
    }
}

/// What `spec_name_index` finds: the first matching name, or a witness that
/// none matches.
pub proof fn lemma_name_index(names: Seq<Seq<char>>, f: Seq<char>)
    ensures
        match spec_name_index(names, f) {
            Some(i) => 0 <= i < names.len() && names[i] == f && forall|j: int|
                0 <= j < i ==> names[j] != f,
            None => forall|j: int| 0 <= j < names.len() ==> names[j] != f,
        },
    decreases names.len(),
{
    if names.len() == 0 {
    } else if names[0] == f {
    } else {
        lemma_name_index(names.drop_first(), f);
        assert(forall|j: int| 1 <= j < names.len() ==> names[j] == names.drop_first()[j - 1]);
    }
}

/// A match with nothing earlier is what `spec_name_index` reports.
pub proof fn lemma_name_index_first(names: Seq<Seq<char>>, f: Seq<char>, i: int)
    requires
        0 <= i < names.len(),
        names[i] == f,
        forall|j: int| 0 <= j < i ==> names[j] != f,
    ensures
        spec_name_index(names, f) == Some(i),
    decreases names.len(),
{
    if i == 0 {
    } else {
        assert(forall|j: int| 1 <= j < names.len() ==> names[j] == names.drop_first()[j - 1]);
        lemma_name_index_first(names.drop_first(), f, i - 1);
    }
}

/// Should a target currently hooked at priority `current` adopt a module
/// loaded under filename `f`?  Unhooked targets adopt any listed filename;
/// hooked targets only adopt a strictly higher-priority one, and the
/// top-priority hook is never displaced.
pub open spec fn spec_should_hook(
    names: Seq<Seq<char>>,
    current: Option<usize>,
    f: Seq<char>,
) -> bool {
    match current {
        Some(i) => if i == 0 {
            false
        } else {
            match spec_name_index(names, f) {
                Some(j) => j < i,
                None => false,
            }
        },
        None => spec_name_index(names, f) is Some,
    }
}

/// Adoption never trades a hook for a lower-priority module: while hooked at
/// priority `i`, only a filename of strictly higher priority is adopted, and
/// a hook at the top priority is permanent until an explicit unhook.
pub proof fn lemma_adoption_never_lowers_priority(
    names: Seq<Seq<char>>,
    i: usize,
    f: Seq<char>,
)
    ensures
        i == 0 ==> !spec_should_hook(names, Some(i), f),
        spec_should_hook(names, Some(i), f) ==> {
            &&& spec_name_index(names, f) is Some
            &&& spec_name_index(names, f).unwrap() < i
        },
{
}

/// Index of the first module whose filename is `name`, if any; candidates tie
/// on filename in enumeration order.
pub open spec fn spec_first_module(mods: Seq<ModuleInfoV>, name: Seq<char>) -> Option<int>
    decreases mods.len(),
{
    if mods.len() == 0 {
        None
    } else if mods[0].filename == name {
        Some(0)
    } else {
        match spec_first_module(mods.drop_first(), name) {
            Some(i) => Some(i + 1),
            None => None,
        }
    }
}

/// What `spec_first_module` finds.
pub proof fn lemma_first_module(mods: Seq<ModuleInfoV>, name: Seq<char>)
    ensures
        match spec_first_module(mods, name) {
            Some(i) => 0 <= i < mods.len() && mods[i].filename == name && forall|j: int|
                0 <= j < i ==> mods[j].filename != name,
            None => forall|j: int| 0 <= j < mods.len() ==> mods[j].filename != name,
        },
    decreases mods.len(),
{
    if mods.len() == 0 {
    } else if mods[0].filename == name {
    } else {
        lemma_first_module(mods.drop_first(), name);
        assert(forall|j: int| 1 <= j < mods.len() ==> mods[j] == mods.drop_first()[j - 1]);
    }
}

/// The candidate a target picks among already-loaded modules: walk the
/// preference list in priority order and take the first candidate matching
/// the current name.
pub open spec fn spec_pick_best(names: Seq<Seq<char>>, mods: Seq<ModuleInfoV>) -> Option<int>
    decreases names.len(),
{
    if names.len() == 0 {
        None
    } else {
        match spec_first_module(mods, names[0]) {
            Some(i) => Some(i),
            None => spec_pick_best(names.drop_first(), mods),
        }
    }
}

/// One hookable target: its preference list, its function table, and the live
/// state of every table entry.
pub struct HookableModule {
    /// Subsystem tag this target logs under.
    pub tag: String,
    /// Acceptable module filenames, highest priority first.
    pub names: Vec<String>,
    /// The function table, fixed at construction.
    pub specs: Vec<HookSpec>,
    /// Live state, one record per table entry.
    pub records: Vec<HookRecord>,
    /// Snapshot of the module currently hooked, if any.
    pub module_info: Option<ModuleInfo>,
    /// Priority index of the filename currently hooked, if any.
    pub current_name_index: Option<usize>,
}

impl HookableModule {
    /// The preference list as filename sequences.
    pub open spec fn names_view(&self) -> Seq<Seq<char>> {
        self.names@.map_values(|s: String| s@)
    }

    /// Nothing resolved, nothing installed, no module bound: the state of a
    /// fresh instance, and again of any instance after `unhook`.
    pub open spec fn is_reset(&self) -> bool {
        &&& self.module_info is None
        &&& self.current_name_index is None
        &&& forall|i: int| 0 <= i < self.records@.len() ==> self.records@[i] == inert_record()
    }

    pub open spec fn wf(&self) -> bool {
        &&& self.records@.len() == self.specs@.len()
        &&& self.names@.len() > 0
        &&& forall|i: int| 0 <= i < self.specs@.len() ==> (#[trigger] self.specs@[i]).wf()
        &&& match self.current_name_index {
            Some(i) => i < self.names@.len(),
            None => true,
        }
        &&& self.module_info is None ==> self.is_reset()
    }

    /// A fresh, unhooked instance over the given preference list and function
    /// table.
    pub fn new(tag: String, names: Vec<String>, specs: Vec<HookSpec>) -> (r: HookableModule)
        requires
            names@.len() > 0,
            forall|i: int| 0 <= i < specs@.len() ==> (#[trigger] specs@[i]).wf(),
        ensures
            r.wf(),
            r.is_reset(),
            r.tag == tag,
            r.names == names,
            r.specs == specs,
    {
        let n = specs.len();
        let mut records: Vec<HookRecord> = Vec::new();
        for i in 0..n
            invariant
                records@.len() == i,
                forall|j: int| 0 <= j < i ==> records@[j] == inert_record(),
        {
            records.push(HookRecord::inert());
        }
        HookableModule { tag, names, specs, records, module_info: None, current_name_index: None }
    }

    /// The module currently hooked, if any.
    pub fn module_info(&self) -> (r: &Option<ModuleInfo>)
        ensures
            r == &self.module_info,
    {
        &self.module_info
    }

    /// The priority index of the filename currently hooked, if any.
    pub fn get_current_name_index(&self) -> (r: Option<usize>)
        ensures
            r == self.current_name_index,
    {
        self.current_name_index
    }

    /// The preference list, highest priority first.
    pub fn get_names(&self) -> (r: &Vec<String>)
        ensures
            r == &self.names,
    {
        &self.names
    }

    /// The priority index the given module's filename has in the preference
    /// list, if any.
    pub fn compute_current_name_index(&self, module_info: &ModuleInfo) -> (r: Option<usize>)
        ensures
            match r {
                Some(i) => spec_name_index(self.names_view(), module_info@.filename) == Some(
                    i as int,
                ),
                None => spec_name_index(self.names_view(), module_info@.filename) is None,
            },
    {
        let ghost names = self.names_view();
        let ghost f = module_info@.filename;
        proof {
            lemma_name_index(names, f);
        }
        let n = self.names.len();
        for i in 0..n
            invariant
                n == self.names@.len(),
                names == self.names_view(),
                f == module_info@.filename,
                names.len() == n,
                forall|j: int| 0 <= j < i ==> names[j] != f,
                match spec_name_index(names, f) {
                    Some(ni) => 0 <= ni < names.len() && names[ni] == f && forall|j: int|
                        0 <= j < ni ==> names[j] != f,
                    None => forall|j: int| 0 <= j < names.len() ==> names[j] != f,
                },
        {
            if self.names[i] == module_info.filename {
                proof {
                    assert(names[i as int] == f);
                }
                return Some(i);
            }
        }
        None
    }

    /// Should this target adopt a module observed under the given snapshot?
    pub fn should_hook(&self, module_info: &ModuleInfo) -> (r: bool)
        requires
            self.wf(),
        ensures
            r == spec_should_hook(
                self.names_view(),
                self.current_name_index,
                module_info@.filename,
            ),
    {
        let ghost names = self.names_view();
        let ghost f = module_info@.filename;
        let bound: usize = match self.current_name_index {
            Some(i) => {
                if i == 0 {
                    // The hook already has the top priority.
                    return false;
                }
                i
            },
            None => self.names.len(),
        };
        proof {
            lemma_name_index(names, f);
        }
        for j in 0..bound
            invariant
                bound <= self.names@.len(),
                match self.current_name_index {
                    Some(ci) => ci != 0 && bound == ci,
                    None => bound == self.names@.len(),
                },
                names == self.names_view(),
                f == module_info@.filename,
                names.len() == self.names@.len(),
                forall|k: int| 0 <= k < j ==> names[k] != f,
                match spec_name_index(names, f) {
                    Some(ni) => 0 <= ni < names.len() && names[ni] == f && forall|k: int|
                        0 <= k < ni ==> names[k] != f,
                    None => forall|k: int| 0 <= k < names.len() ==> names[k] != f,
                },
        {
            if self.names[j] == module_info.filename {
                proof {
                    assert(names[j as int] == f);
                    lemma_name_index_first(names, f, j as int);
                }
                return true;
            }
        }
        false
    }

    /// Among already-loaded candidate modules, the index of the best one to
    /// hook: the first candidate, in enumeration order, whose filename is the
    /// highest-priority name any candidate matches.
    pub fn pick_best_hook_target(&self, modules: &Vec<ModuleInfo>) -> (r: Option<usize>)
        ensures
            match r {
                Some(i) => {
                    &&& i < modules@.len()
                    &&& spec_pick_best(
                        self.names_view(),
                        modules@.map_values(|m: ModuleInfo| m@),
                    ) == Some(i as int)
                },
                None => spec_pick_best(
                    self.names_view(),
                    modules@.map_values(|m: ModuleInfo| m@),
                ) is None,
            },
    {
        let ghost names = self.names_view();
        let ghost mods = modules@.map_values(|m: ModuleInfo| m@);
        proof {
            assert(names.skip(0) =~= names);
        }
        let n = self.names.len();
        for i in 0..n
            invariant
                n == self.names@.len(),
                names == self.names_view(),
                mods == modules@.map_values(|m: ModuleInfo| m@),
                names.len() == n,
                spec_pick_best(names, mods) == spec_pick_best(names.skip(i as int), mods),
        {
            proof {
                assert(names.skip(i as int)[0] == names[i as int]);
                assert(names.skip(i as int).drop_first() =~= names.skip(i as int + 1));
            }
            match find_module_by_name(modules, &self.names[i]) {
                Some(m) => {
                    proof {
                        lemma_first_module(mods, names[i as int]);
                    }
                    return Some(m);
                },
                None => {},
            }
        }
        None
    }

    /// Does this address table belong to this target's function table over
    /// the given snapshot?
    pub open spec fn spec_resolved_for(&self, r: &ResolvedTarget) -> bool {
        &&& r.addrs@.len() == self.specs@.len()
        &&& forall|i: int|
            0 <= i < self.specs@.len() ==> r.addrs@[i] == spec_resolve(
                #[trigger] self.specs@[i],
                r.module_info@,
            )
    }

    /// Resolve the whole function table against a module snapshot.  An entry
    /// that is not found is recorded as absent, not an error.
    pub fn resolve(&self, module_info: ModuleInfo) -> (r: ResolvedTarget)
        requires
            self.wf(),
            module_info.wf(),
        ensures
            self.spec_resolved_for(&r),
            r.module_info == module_info,
    {
        let n = self.specs.len();
        let mut addrs: Vec<Option<usize>> = Vec::new();
        for i in 0..n
            invariant
                n == self.specs@.len(),
                module_info.wf(),
                forall|j: int| 0 <= j < n ==> (#[trigger] self.specs@[j]).wf(),
                addrs@.len() == i,
                forall|j: int|
                    0 <= j < i ==> addrs@[j] == spec_resolve(
                        #[trigger] self.specs@[j],
                        module_info@,
                    ),
        {
            addrs.push(resolve_one(&self.specs[i], &module_info));
        }
        ResolvedTarget { module_info, addrs }
    }

    /// Bind to the resolved module and install its function table.
    ///
    /// For each table entry with a resolved address, the outcome the host got
    /// from the installation primitive (`results`, one per entry) is recorded:
    /// a successful install fills the entry's record and queues its enable; a
    /// failed one is logged and skipped, the rest of the table proceeds.
    /// Entries that did not resolve stay inert.  Capture entries store their
    /// address without touching the subsystem.  All queued enables are
    /// committed once at the end with the host-reported `commit` outcome.
    pub fn hook(
        &mut self,
        resolved: ResolvedTarget,
        results: &Vec<Result<usize, i32>>,
        engine: &mut DetourEngine,
        commit: Result<(), i32>,
        logger: &mut Logger,
    )
        requires
            old(self).wf(),
            old(self).is_reset(),
            old(self).spec_resolved_for(&resolved),
            results@.len() == old(self).specs@.len(),
            old(engine).wf(),
            old(engine).queued@.len() == 0,
        ensures
            final(self).wf(),
            final(self).tag == old(self).tag,
            final(self).names == old(self).names,
            final(self).specs == old(self).specs,
            final(self).module_info == Some(resolved.module_info),
            match final(self).current_name_index {
                Some(i) => spec_name_index(
                    old(self).names_view(),
                    resolved.module_info@.filename,
                ) == Some(i as int),
                None => spec_name_index(
                    old(self).names_view(),
                    resolved.module_info@.filename,
                ) is None,
            },
            final(self).records@.len() == old(self).specs@.len(),
            forall|i: int|
                0 <= i < old(self).specs@.len() ==> final(self).records@[i] == spec_record_after(
                    #[trigger] old(self).specs@[i],
                    resolved.addrs@[i],
                    results@[i],
                    old(engine).initialized(),
                ),
            final(engine).wf(),
            final(engine).init_status == old(engine).init_status,
            final(engine).queued@.len() == 0,
            final(engine).mapping@ == map_store_all(
                old(engine).mapping@,
                spec_install_pairs(
                    old(self).specs@,
                    resolved.addrs@,
                    results@,
                    old(engine).initialized(),
                    old(self).specs@.len() as int,
                ),
            ),
            final(engine).enabled@ == if old(engine).initialized() && commit is Ok {
                detour::apply_all(
                    old(engine).enabled@,
                    enable_ops(
                        spec_install_pairs(
                            old(self).specs@,
                            resolved.addrs@,
                            results@,
                            old(engine).initialized(),
                            old(self).specs@.len() as int,
                        ),
                    ),
                )
            } else {
                old(engine).enabled@
            },
            crate::logger::logger_extended(*old(logger), *final(logger)),
    {
        let ghost specs0 = self.specs@;
        let ghost addrs0 = resolved.addrs@;
        let ghost results0 = results@;
        let ghost init = engine.initialized();
        let ghost map0 = engine.mapping@;
        let ghost en0 = engine.enabled@;
        let ghost log0 = *logger;
        proof {
            crate::logger::lemma_logger_extended_refl(log0);
        }

        let ResolvedTarget { module_info, addrs } = resolved;

        let idx = self.compute_current_name_index(&module_info);
        proof {
            lemma_name_index(self.names_view(), module_info@.filename);
        }
        self.current_name_index = idx;
        self.module_info = Some(module_info);

        let n = self.specs.len();
        for i in 0..n
            invariant
                n == specs0.len(),
                self.specs == old(self).specs,
                self.specs@ == specs0,
                self.tag == old(self).tag,
                self.names == old(self).names,
                self.module_info == Some(resolved.module_info),
                self.current_name_index == idx,
                addrs@ == addrs0,
                results@ == results0,
                addrs0.len() == n,
                results0.len() == n,
                self.records@.len() == n,
                forall|j: int|
                    0 <= j < i ==> self.records@[j] == spec_record_after(
                        #[trigger] specs0[j],
                        addrs0[j],
                        results0[j],
                        init,
                    ),
                forall|j: int| i <= j < n ==> self.records@[j] == inert_record(),
                engine.wf(),
                engine.initialized() == init,
                engine.init_status == old(engine).init_status,
                engine.mapping@ == map_store_all(
                    map0,
                    spec_install_pairs(specs0, addrs0, results0, init, i as int),
                ),
                engine.queued@ == enable_ops(
                    spec_install_pairs(specs0, addrs0, results0, init, i as int),
                ),
                engine.enabled@ == en0,
                crate::logger::logger_extended(log0, *logger),
        {
            let ghost pairs_pre = spec_install_pairs(specs0, addrs0, results0, init, i as int);
            let addr_opt = addrs[i];
            match addr_opt {
                None => {
                    let ghost lpre = *logger;
                    logger.log(
                        LogLevel::Warn,
                        self.tag.clone(),
                        self.specs[i].name.clone(),
                    );
                    proof {
                        crate::logger::lemma_logger_extended_trans(log0, lpre, *logger);
                    }
                },
                Some(a) => {
                    let action = self.specs[i].action;
                    match action {
                        HookAction::Capture => {
                            self.records.set(
                                i,
                                HookRecord {
                                    target: a,
                                    trampoline: FuncPtr::Addr(a),
                                    detour: 0,
                                    installed: false,
                                },
                            );
                            let ghost lpre = *logger;
                            logger.log(
                                LogLevel::Debug,
                                self.tag.clone(),
                                self.specs[i].name.clone(),
                            );
                            proof {
                                crate::logger::lemma_logger_extended_trans(log0, lpre, *logger);
                            }
                        },
                        HookAction::Install => {
                            let det = self.specs[i].detour;
                            let mut tramp = FuncPtr::Inert;
                            let ghost map_pre = engine.mapping@;
                            let created = engine.create_hook(a, det, &mut tramp, results[i]);
                            match created {
                                Ok(_) => {
                                    self.records.set(
                                        i,
                                        HookRecord {
                                            target: a,
                                            trampoline: tramp,
                                            detour: det,
                                            installed: true,
                                        },
                                    );
                                    proof {
                                        detour::lemma_map_store_creates(
                                            map_pre,
                                            detour::addr_of(tramp),
                                            a,
                                        );
                                        lemma_map_store_all_push(
                                            map0,
                                            pairs_pre,
                                            detour::addr_of(tramp),
                                            a,
                                        );
                                        lemma_enable_ops_push(
                                            pairs_pre,
                                            detour::addr_of(tramp),
                                            a,
                                        );
                                    }
                                    let enable_res = engine.queue_enable_hook(a);
                                    if enable_res.is_err() {
                                        let ghost lpre = *logger;
                                        logger.log(
                                            LogLevel::Error,
                                            self.tag.clone(),
                                            self.specs[i].name.clone(),
                                        );
                                        proof {
                                            crate::logger::lemma_logger_extended_trans(
                                                log0,
                                                lpre,
                                                *logger,
                                            );
                                        }
                                    }
                                    let ghost lpre = *logger;
                                    logger.log(
                                        LogLevel::Debug,
                                        self.tag.clone(),
                                        self.specs[i].name.clone(),
                                    );
                                    proof {
                                        crate::logger::lemma_logger_extended_trans(
                                            log0,
                                            lpre,
                                            *logger,
                                        );
                                    }
                                },
                                Err(_) => {
                                    let ghost lpre = *logger;
                                    logger.log(
                                        LogLevel::Error,
                                        self.tag.clone(),
                                        self.specs[i].name.clone(),
                                    );
                                    proof {
                                        crate::logger::lemma_logger_extended_trans(
                                            log0,
                                            lpre,
                                            *logger,
                                        );
                                    }
                                },
                            }
                        },
                    }
                },
            }
        }

        proof {
            if !init {
                lemma_install_pairs_uninit(specs0, addrs0, results0, n as int);
            }
        }
        let apply_res = engine.apply_queued(commit);
        if apply_res.is_err() {
            let ghost lpre = *logger;
            logger.log(LogLevel::Error, self.tag.clone(), self.tag.clone());
            proof {
                crate::logger::lemma_logger_extended_trans(log0, lpre, *logger);
            }
        }
    }

    /// Disable, then permanently remove, every installed record, and reset
    /// the target to its fresh state.
    ///
    /// Every installed record queues its disable first and the queue is
    /// committed once with the host-reported `commit` outcome, so the
    /// module's hooks stop receiving new calls together; each record is then
    /// removed for good, recording the host-reported outcome (`removals`, one
    /// per table entry).  Failures are logged; the bookkeeping drops the hook
    /// either way.  Afterwards the target is indistinguishable from a fresh
    /// instance over the same preference list and table.
    ///
    /// The guarantee towards running code is that no new calls are routed
    /// through the detours once the disable commit returns; a call already
    /// inside a detour on another thread may still finish through the old
    /// trampoline.  This narrow race is deliberate: nothing blocks waiting
    /// for in-flight calls.
    pub fn unhook(
        &mut self,
        engine: &mut DetourEngine,
        commit: Result<(), i32>,
        removals: &Vec<Result<(), i32>>,
        logger: &mut Logger,
    )
        requires
            old(self).wf(),
            removals@.len() == old(self).specs@.len(),
            old(engine).wf(),
            old(engine).queued@.len() == 0,
        ensures
            final(self).wf(),
            final(self).is_reset(),
            final(self).tag == old(self).tag,
            final(self).names == old(self).names,
            final(self).specs == old(self).specs,
            final(self).records@.len() == old(self).specs@.len(),
            final(engine).wf(),
            final(engine).init_status == old(engine).init_status,
            final(engine).queued@.len() == 0,
            !old(engine).initialized() ==> {
                &&& final(engine).mapping == old(engine).mapping
                &&& final(engine).enabled == old(engine).enabled
            },
            old(engine).initialized() ==> {
                let n = old(self).records@.len() as int;
                let dops = disable_ops(old(self).records@, old(engine).mapping@, n);
                let mid = if commit is Ok {
                    detour::apply_all(old(engine).enabled@, dops)
                } else {
                    old(engine).enabled@
                };
                let fold = spec_remove_fold(old(engine).mapping@, mid, old(self).records@, n);
                &&& final(engine).mapping@ == fold.0
                &&& final(engine).enabled@ == fold.1
            },
            crate::logger::logger_extended(*old(logger), *final(logger)),
    {
        let ghost recs0 = self.records@;
        let ghost map0 = engine.mapping@;
        let ghost en0 = engine.enabled@;
        let ghost init = engine.initialized();
        let ghost log0 = *logger;
        proof {
            crate::logger::lemma_logger_extended_refl(log0);
        }

        let n = self.records.len();
        for i in 0..n
            invariant
                n == recs0.len(),
                n == self.specs@.len(),
                *self == *old(self),
                self.records@ == recs0,
                engine.wf(),
                engine.init_status == old(engine).init_status,
                engine.initialized() == init,
                engine.mapping == old(engine).mapping,
                engine.mapping@ == map0,
                engine.enabled == old(engine).enabled,
                engine.enabled@ == en0,
                init ==> engine.queued@ == disable_ops(recs0, map0, i as int),
                !init ==> engine.queued@.len() == 0,
                crate::logger::logger_extended(log0, *logger),
        {
            let rec = self.records[i];
            if rec.installed {
                let dis_res = engine.queue_disable_hook(&rec.trampoline);
                if dis_res.is_err() {
                    let ghost lpre = *logger;
                    logger.log(
                        LogLevel::Error,
                        self.tag.clone(),
                        self.specs[i].name.clone(),
                    );
                    proof {
                        crate::logger::lemma_logger_extended_trans(log0, lpre, *logger);
                    }
                }
            }
        }

        let apply_res = engine.apply_queued(commit);
        if apply_res.is_err() {
            let ghost lpre = *logger;
            logger.log(LogLevel::Error, self.tag.clone(), self.tag.clone());
            proof {
                crate::logger::lemma_logger_extended_trans(log0, lpre, *logger);
            }
        }
        let ghost mid = engine.enabled@;
        let ghost log1 = *logger;
        proof {
            crate::logger::lemma_logger_extended_refl(log1);
        }

        for i in 0..n
            invariant
                n == recs0.len(),
                self.records@.len() == n,
                self.tag == old(self).tag,
                self.names == old(self).names,
                self.specs == old(self).specs,
                self.specs@.len() == removals@.len(),
                n == self.specs@.len(),
                forall|j: int| 0 <= j < i ==> self.records@[j] == inert_record(),
                forall|j: int| i <= j < n ==> self.records@[j] == recs0[j],
                engine.wf(),
                engine.init_status == old(engine).init_status,
                engine.initialized() == init,
                engine.queued@.len() == 0,
                init ==> (engine.mapping@, engine.enabled@) == spec_remove_fold(
                    map0,
                    mid,
                    recs0,
                    i as int,
                ),
                !init ==> engine.mapping == old(engine).mapping && engine.enabled == old(
                    engine,
                ).enabled,
                crate::logger::logger_extended(log1, *logger),
        {
            let rec = self.records[i];
            if rec.installed {
                let rem_res = engine.remove_hook(&rec.trampoline, removals[i]);
                if rem_res.is_err() {
                    let ghost lpre = *logger;
                    logger.log(
                        LogLevel::Error,
                        self.tag.clone(),
                        self.specs[i].name.clone(),
                    );
                    proof {
                        crate::logger::lemma_logger_extended_trans(log1, lpre, *logger);
                    }
                }
            }
            self.records.set(i, HookRecord::inert());
        }

        self.module_info = None;
        self.current_name_index = None;
        proof {
            crate::logger::lemma_logger_extended_trans(log0, log1, *logger);
        }
    }
}

/// Does a table entry's install go through?  It must have resolved, ask for a
/// detour, the subsystem must be initialized, and the primitive must have
/// reported success.
pub open spec fn install_ok(
    s: HookSpec,
    addr: Option<usize>,
    result: Result<usize, i32>,
    init: bool,
) -> bool {
    &&& addr is Some
    &&& s.action is Install
    &&& init
    &&& result is Ok
}

/// The record a table entry holds after a hook attempt: inert when the entry
/// did not resolve or its install failed; the captured address for a capture
/// entry; target, trampoline and detour for a successful install.
pub open spec fn spec_record_after(
    s: HookSpec,
    addr: Option<usize>,
    result: Result<usize, i32>,
    init: bool,
) -> HookRecord {
    match addr {
        None => inert_record(),
        Some(a) => match s.action {
            HookAction::Capture => HookRecord {
                target: a,
                trampoline: FuncPtr::Addr(a),
                detour: 0,
                installed: false,
            },
            HookAction::Install => if init {
                match result {
                    Ok(tr) => HookRecord {
                        target: a,
                        trampoline: FuncPtr::Addr(tr),
                        detour: s.detour,
                        installed: true,
                    },
                    Err(_) => inert_record(),
                }
            } else {
                inert_record()
            },
        },
    }
}

/// The (trampoline, target) pairs of the installs that went through among the
/// first `n` table entries, in table order.
pub open spec fn spec_install_pairs(
    specs: Seq<HookSpec>,
    addrs: Seq<Option<usize>>,
    results: Seq<Result<usize, i32>>,
    init: bool,
    n: int,
) -> Seq<(usize, usize)>
    decreases n,
{
    if n <= 0 {
        Seq::empty()
    } else {
        let prev = spec_install_pairs(specs, addrs, results, init, n - 1);
        if install_ok(specs[n - 1], addrs[n - 1], results[n - 1], init) {
            prev.push((results[n - 1].unwrap(), addrs[n - 1].unwrap()))
        } else {
            prev
        }
    }
}

/// While the subsystem is uninitialized no install goes through.
pub proof fn lemma_install_pairs_uninit(
    specs: Seq<HookSpec>,
    addrs: Seq<Option<usize>>,
    results: Seq<Result<usize, i32>>,
    n: int,
)
    ensures
        spec_install_pairs(specs, addrs, results, false, n) == Seq::<(usize, usize)>::empty(),
    decreases n,
{
    if n > 0 {
        lemma_install_pairs_uninit(specs, addrs, results, n - 1);
    }
}

/// An association list after storing a run of pairs in order.
pub open spec fn map_store_all(
    m: Seq<(usize, usize)>,
    pairs: Seq<(usize, usize)>,
) -> Seq<(usize, usize)>
    decreases pairs.len(),
{
    if pairs.len() == 0 {
        m
    } else {
        detour::map_store(map_store_all(m, pairs.drop_last()), pairs.last().0, pairs.last().1)
    }
}

pub proof fn lemma_map_store_all_push(
    m: Seq<(usize, usize)>,
    pairs: Seq<(usize, usize)>,
    k: usize,
    v: usize,
)
    ensures
        map_store_all(m, pairs.push((k, v))) == detour::map_store(map_store_all(m, pairs), k, v),
{
    assert(pairs.push((k, v)).drop_last() =~= pairs);
    assert(pairs.push((k, v)).last() == (k, v));
}

/// The queued enable transitions for a run of installed pairs, in order.
pub open spec fn enable_ops(pairs: Seq<(usize, usize)>) -> Seq<(usize, bool)> {
    pairs.map_values(|p: (usize, usize)| (p.1, true))
}

pub proof fn lemma_enable_ops_push(pairs: Seq<(usize, usize)>, k: usize, v: usize)
    ensures
        enable_ops(pairs.push((k, v))) == enable_ops(pairs).push((v, true)),
{
    assert(enable_ops(pairs.push((k, v))) =~= enable_ops(pairs).push((v, true)));
}

/// The queued disable transitions for the installed records among the first
/// `n`, in table order: each installed trampoline that the mapping knows
/// queues a disable of its target.
pub open spec fn disable_ops(
    records: Seq<HookRecord>,
    mapping: Seq<(usize, usize)>,
    n: int,
) -> Seq<(usize, bool)>
    decreases n,
{
    if n <= 0 {
        Seq::empty()
    } else {
        let prev = disable_ops(records, mapping, n - 1);
        let rec = records[n - 1];
        if rec.installed && rec.trampoline is Addr {
            match detour::map_lookup(mapping, detour::addr_of(rec.trampoline)) {
                Some(t) => prev.push((t, false)),
                None => prev,
            }
        } else {
            prev
        }
    }
}

/// Mapping and committed set after permanently removing the installed records
/// among the first `n`, in table order.
pub open spec fn spec_remove_fold(
    mapping: Seq<(usize, usize)>,
    enabled: Seq<usize>,
    records: Seq<HookRecord>,
    n: int,
) -> (Seq<(usize, usize)>, Seq<usize>)
    decreases n,
{
    if n <= 0 {
        (mapping, enabled)
    } else {
        let prev = spec_remove_fold(mapping, enabled, records, n - 1);
        let rec = records[n - 1];
        if rec.installed && rec.trampoline is Addr {
            match detour::map_lookup(prev.0, detour::addr_of(rec.trampoline)) {
                Some(t) => (
                    detour::map_delete(prev.0, detour::addr_of(rec.trampoline)),
                    detour::set_remove(prev.1, t),
                ),
                None => prev,
            }
        } else {
            prev
        }
    }
}

/// Find the first module with the given filename.
fn find_module_by_name(modules: &Vec<ModuleInfo>, name: &String) -> (r: Option<usize>)
    ensures
        match r {
            Some(i) => spec_first_module(modules@.map_values(|m: ModuleInfo| m@), name@) == Some(
                i as int,
            ),
            None => spec_first_module(modules@.map_values(|m: ModuleInfo| m@), name@) is None,
        },
{
    let ghost mods = modules@.map_values(|m: ModuleInfo| m@);
    proof {
        lemma_first_module(mods, name@);
    }
    let n = modules.len();
    for i in 0..n
        invariant
            n == modules@.len(),
            mods == modules@.map_values(|m: ModuleInfo| m@),
            mods.len() == n,
            forall|j: int| 0 <= j < i ==> (#[trigger] mods[j]).filename != name@,
            match spec_first_module(mods, name@) {
                Some(fi) => 0 <= fi < mods.len() && mods[fi].filename == name@ && forall|j: int|
                    0 <= j < fi ==> (#[trigger] mods[j]).filename != name@,
                None => forall|j: int| 0 <= j < mods.len() ==> (#[trigger] mods[j]).filename != name@,
            },
    {
        if modules[i].filename == *name {
            proof {
                assert(mods[i as int].filename == name@);
            }
            return Some(i);
        }
    }
    None
}

} // verus!
