//! Derived feature flags.
//!
//! A feature is enabled exactly when all of its prerequisite records — table
//! entries of the hookable targets — are available (address captured or
//! detour installed).  The flags carry no state of their own: they are
//! recomputed from the hook state on every refresh, never updated
//! incrementally.

use vstd::prelude::*;

use crate::engine::{
    ENGINE_CBUF_ADDTEXT, ENGINE_CONCOMMAND_VTABLE, ENGINE_CREATE_INTERFACE, ENGINE_HOST_SPAWN,
    ENGINE_HOST_UNPAUSE,
};
use crate::hookable::HookableModule;
use crate::logger::{logger_extended, LogLevel, Logger};
use crate::server::{SERVER_CHECK_JUMP_BUTTON, SERVER_FINISH_GRAVITY};

verus! {

/// Registry index of the auto-pause feature.
pub const FEATURE_AUTOPAUSE: usize = 0;

/// Registry index of the console-command registration feature.
pub const FEATURE_CONSOLE_COMMANDS: usize = 1;

/// Registry index of the jump-assistance feature.
pub const FEATURE_AUTOJUMP: usize = 2;

/// Which hookable target a prerequisite record belongs to.
#[derive(Clone, Copy, PartialEq, Eq, Structural, Debug)]
pub enum ModuleId {
    Engine,
    Server,
}

/// A feature: its name and the (target, table index) records it requires.
pub struct FeatureDef {
    pub name: String,
    pub prereqs: Vec<(ModuleId, usize)>,
}

/// The features and their current flags, one flag per feature.
pub struct FeatureRegistry {
    pub defs: Vec<FeatureDef>,
    pub enabled: Vec<bool>,
}

/// Is the record at this table index of this target available?
pub open spec fn record_available(m: HookableModule, idx: usize) -> bool {
    &&& idx < m.records@.len()
    &&& !(m.records@[idx as int].trampoline is Inert)
}

/// Is one prerequisite satisfied by the current hook state?
pub open spec fn prereq_available(
    p: (ModuleId, usize),
    engine: HookableModule,
    server: HookableModule,
) -> bool {
    match p.0 {
        ModuleId::Engine => record_available(engine, p.1),
        ModuleId::Server => record_available(server, p.1),
    }
}

/// A feature is enabled exactly when every one of its prerequisites is
/// available.
pub open spec fn spec_feature_enabled(
    prereqs: Seq<(ModuleId, usize)>,
    engine: HookableModule,
    server: HookableModule,
) -> bool {
    forall|k: int| 0 <= k < prereqs.len() ==> prereq_available(#[trigger] prereqs[k], engine, server)
}

/// Check one prerequisite against the current hook state.
fn prereq_ok(p: (ModuleId, usize), engine: &HookableModule, server: &HookableModule) -> (r: bool)
    ensures
        r == prereq_available(p, *engine, *server),
{
    let (id, idx) = p;
    let m = match id {
        ModuleId::Engine => engine,
        ModuleId::Server => server,
    };
    if idx < m.records.len() {
        m.records[idx].is_available()
    } else {
        false
    }
}

impl FeatureRegistry {
    /// One flag per feature.
    pub open spec fn wf(&self) -> bool {
        self.defs@.len() == self.enabled@.len()
    }

    /// A registry over the given features, all flags down until the first
    /// refresh.
    pub fn new(defs: Vec<FeatureDef>) -> (r: FeatureRegistry)
        ensures
            r.wf(),
            r.defs == defs,
            forall|j: int| 0 <= j < r.enabled@.len() ==> r.enabled@[j] == false,
    {
        let n = defs.len();
        let mut enabled: Vec<bool> = Vec::new();
        for i in 0..n
            invariant
                enabled@.len() == i,
                forall|j: int| 0 <= j < i ==> enabled@[j] == false,
        {
            enabled.push(false);
        }
        FeatureRegistry { defs, enabled }
    }

    /// Recompute every flag from the current hook state, and log one line per
    /// feature: its name, at the info level when enabled and the warning
    /// level when not.
    pub fn refresh(
        &mut self,
        engine: &HookableModule,
        server: &HookableModule,
        logger: &mut Logger,
    )
        requires
            old(self).wf(),
        ensures
            final(self).wf(),
            final(self).defs == old(self).defs,
            forall|j: int|
                0 <= j < old(self).defs@.len() ==> final(self).enabled@[j] == spec_feature_enabled(
                    (#[trigger] old(self).defs@[j]).prereqs@,
                    *engine,
                    *server,
                ),
            logger_extended(*old(logger), *final(logger)),
    {
        let ghost log0 = *logger;
        proof {
            crate::logger::lemma_logger_extended_refl(log0);
        }
        let n = self.defs.len();
        for j in 0..n
            invariant
                n == self.defs@.len(),
                self.defs == old(self).defs,
                self.enabled@.len() == n,
                forall|k: int|
                    0 <= k < j ==> self.enabled@[k] == spec_feature_enabled(
                        (#[trigger] self.defs@[k]).prereqs@,
                        *engine,
                        *server,
                    ),
                logger_extended(log0, *logger),
        {
            let m = self.defs[j].prereqs.len();
            let mut all = true;
            for k in 0..m
                invariant
                    m == self.defs@[j as int].prereqs@.len(),
                    j < self.defs@.len(),
                    all == forall|k2: int|
                        0 <= k2 < k ==> prereq_available(
                            #[trigger] self.defs@[j as int].prereqs@[k2],
                            *engine,
                            *server,
                        ),
            {
                if !prereq_ok(self.defs[j].prereqs[k], engine, server) {
                    all = false;
                }
            }
            self.enabled.set(j, all);
            let level = if all {
                LogLevel::Info
            } else {
                LogLevel::Warn
            };
            let ghost lpre = *logger;
            logger.log(level, "features".to_owned(), self.defs[j].name.clone());
            proof {
                crate::logger::lemma_logger_extended_trans(log0, lpre, *logger);
            }
        }
    }

    /// Flag of one feature; an index outside the registry reads as disabled.
    pub fn is_enabled(&self, feature: usize) -> (r: bool)
        ensures
            r == (feature < self.enabled@.len() && self.enabled@[feature as int]),
    {
        feature < self.enabled.len() && self.enabled[feature]
    }

    /// Flag of the auto-pause feature.
    pub fn autopause(&self) -> (r: bool)
        ensures
            r == (FEATURE_AUTOPAUSE < self.enabled@.len()
                && self.enabled@[FEATURE_AUTOPAUSE as int]),
    {
        self.is_enabled(FEATURE_AUTOPAUSE)
    }

    /// Flag of the console-command registration feature.
    pub fn console_commands(&self) -> (r: bool)
        ensures
            r == (FEATURE_CONSOLE_COMMANDS < self.enabled@.len()
                && self.enabled@[FEATURE_CONSOLE_COMMANDS as int]),
    {
        self.is_enabled(FEATURE_CONSOLE_COMMANDS)
    }

    /// Flag of the jump-assistance feature.
    pub fn autojump(&self) -> (r: bool)
        ensures
            r == (FEATURE_AUTOJUMP < self.enabled@.len() && self.enabled@[FEATURE_AUTOJUMP as int]),
    {
        self.is_enabled(FEATURE_AUTOJUMP)
    }
}

/// The registry of this agent's features: auto-pause needs the command
/// writer and both pause handlers; console commands need the command vtable
/// and the interface factory; jump assistance needs both movement hooks.
pub fn standard_features() -> (r: FeatureRegistry)
    ensures
        r.wf(),
        r.defs@.len() == 3,
        forall|j: int| 0 <= j < r.enabled@.len() ==> r.enabled@[j] == false,
        r.defs@[FEATURE_AUTOPAUSE as int].name@ == "autopause"@,
        r.defs@[FEATURE_CONSOLE_COMMANDS as int].name@ == "console commands"@,
        r.defs@[FEATURE_AUTOJUMP as int].name@ == "autojump"@,
        r.defs@[FEATURE_AUTOPAUSE as int].prereqs@ == seq![
            (ModuleId::Engine, ENGINE_CBUF_ADDTEXT),
            (ModuleId::Engine, ENGINE_HOST_SPAWN),
            (ModuleId::Engine, ENGINE_HOST_UNPAUSE),
        ],
        r.defs@[FEATURE_CONSOLE_COMMANDS as int].prereqs@ == seq![
            (ModuleId::Engine, ENGINE_CONCOMMAND_VTABLE),
            (ModuleId::Engine, ENGINE_CREATE_INTERFACE),
        ],
        r.defs@[FEATURE_AUTOJUMP as int].prereqs@ == seq![
            (ModuleId::Server, SERVER_CHECK_JUMP_BUTTON),
            (ModuleId::Server, SERVER_FINISH_GRAVITY),
        ],
{
    let defs: Vec<FeatureDef> = vec![
        FeatureDef {
            name: "autopause".to_owned(),
            prereqs: vec![
                (ModuleId::Engine, ENGINE_CBUF_ADDTEXT),
                (ModuleId::Engine, ENGINE_HOST_SPAWN),
                (ModuleId::Engine, ENGINE_HOST_UNPAUSE),
            ],
        },
        FeatureDef {
            name: "console commands".to_owned(),
            prereqs: vec![
                (ModuleId::Engine, ENGINE_CONCOMMAND_VTABLE),
                (ModuleId::Engine, ENGINE_CREATE_INTERFACE),
            ],
        },
        FeatureDef {
            name: "autojump".to_owned(),
            prereqs: vec![
                (ModuleId::Server, SERVER_CHECK_JUMP_BUTTON),
                (ModuleId::Server, SERVER_FINISH_GRAVITY),
            ],
        },
    ];
    FeatureRegistry::new(defs)
}

/// A feature's flag depends on its prerequisites alone: hook states that
/// agree on every prerequisite of the feature give it the same flag.  In
/// particular, toggling a record no feature prerequisite names changes no
/// flag.
pub proof fn lemma_feature_depends_only_on_prereqs(
    prereqs: Seq<(ModuleId, usize)>,
    engine_a: HookableModule,
    server_a: HookableModule,
    engine_b: HookableModule,
    server_b: HookableModule,
)
    requires
        forall|k: int|
            0 <= k < prereqs.len() ==> prereq_available(#[trigger] prereqs[k], engine_a, server_a)
                == prereq_available(prereqs[k], engine_b, server_b),
    ensures
        spec_feature_enabled(prereqs, engine_a, server_a) == spec_feature_enabled(
            prereqs,
            engine_b,
            server_b,
        ),
{
}

/// When every other prerequisite of a feature is available, the feature's
/// flag is exactly the availability of the remaining one: toggling that
/// record toggles the feature.
pub proof fn lemma_feature_pivots_on_prereq(
    prereqs: Seq<(ModuleId, usize)>,
    engine: HookableModule,
    server: HookableModule,
    p: (ModuleId, usize),
)
    requires
        prereqs.contains(p),
        forall|k: int|
            0 <= k < prereqs.len() && #[trigger] prereqs[k] != p ==> prereq_available(
                prereqs[k],
                engine,
                server,
            ),
    ensures
        spec_feature_enabled(prereqs, engine, server) == prereq_available(p, engine, server),
{
    let i = choose|i: int| 0 <= i < prereqs.len() && prereqs[i] == p;
    if prereq_available(p, engine, server) {
        assert forall|k: int| 0 <= k < prereqs.len() implies prereq_available(
            #[trigger] prereqs[k],
            engine,
            server,
        ) by {
            if prereqs[k] == p {
            }
        }
    } else {
        assert(!prereq_available(prereqs[i], engine, server));
    }
}

} // verus!
