//! The agent's context and its load/unload watcher.
//!
//! All process-wide state — detour bookkeeping, the hookable targets, the
//! feature registry, the logger, the per-target detour state machines — lives
//! in one explicit context the host passes to every entry point.  The watcher
//! entry points implement the module lifecycle policy: pick the best
//! candidates at startup, re-target a hookable when a better module loads,
//! drop its hooks when its module unloads, and recompute the feature flags
//! after every transition.  The host reports, per entry point, the outcomes
//! it got from the installation primitive; the contracts say exactly what
//! each report does to the state.

use vstd::prelude::*;

use crate::detour::DetourEngine;
use crate::engine;
use crate::engine::EngineState;
use crate::features::{spec_feature_enabled, standard_features, FeatureRegistry};
use crate::hookable::{
    spec_name_index, spec_pick_best, spec_record_after, spec_resolve, spec_should_hook,
    HookableModule,
};
use crate::kernel32;
use crate::kernel32::LoaderDetours;
use crate::logger::{logger_extended, Logger};
use crate::module::{ModuleInfo, ModuleInfoV};
use crate::server;
use crate::server::ServerState;

verus! {

/// Host-reported outcomes for one hook attempt: one install outcome per table
/// entry, and the outcome of committing the queued enables.
pub struct HookIo {
    pub installs: Vec<Result<usize, i32>>,
    pub install_commit: Result<(), i32>,
}

/// Host-reported outcomes for one unhook: one removal outcome per table
/// entry, and the outcome of committing the queued disables.
pub struct UnhookIo {
    pub removals: Vec<Result<(), i32>>,
    pub remove_commit: Result<(), i32>,
}

/// Host-reported outcomes for one adoption: the unhook of the old module (if
/// one was hooked) and the hook of the new one.
pub struct AdoptIo {
    pub unhook: UnhookIo,
    pub hook: HookIo,
}

/// The detour functions the host supplies for the engine and server targets.
#[derive(Clone, Copy, PartialEq, Eq, Structural, Debug)]
pub struct GameDetours {
    pub host_spawn: usize,
    pub host_unpause: usize,
    pub check_jump_button: usize,
    pub finish_gravity: usize,
}

/// The whole agent state, explicit and owned: no ambient globals.
pub struct Context {
    pub detour: DetourEngine,
    pub engine: HookableModule,
    pub server: HookableModule,
    pub kernel32: HookableModule,
    pub features: FeatureRegistry,
    pub logger: Logger,
    pub engine_state: EngineState,
    pub server_state: ServerState,
}

/// The hook state a target reaches by a hook attempt on module `mi` with
/// install outcomes `installs`: bound to `mi`, name index recomputed, and
/// every record determined by its entry's resolution and outcome.
pub open spec fn spec_hook_outcome(
    pre: HookableModule,
    mi: ModuleInfoV,
    installs: Seq<Result<usize, i32>>,
    init: bool,
    post: HookableModule,
) -> bool {
    &&& post.tag == pre.tag
    &&& post.names == pre.names
    &&& post.specs == pre.specs
    &&& post.module_info is Some
    &&& post.module_info->0@ == mi
    &&& match post.current_name_index {
        Some(i) => spec_name_index(pre.names_view(), mi.filename) == Some(i as int),
        None => spec_name_index(pre.names_view(), mi.filename) is None,
    }
    &&& post.records@.len() == pre.specs@.len()
    &&& forall|i: int|
        0 <= i < pre.specs@.len() ==> post.records@[i] == spec_record_after(
            #[trigger] pre.specs@[i],
            spec_resolve(pre.specs@[i], mi),
            installs[i],
            init,
        )
}

/// Hooking after an unhook brings a target to the same state as hooking a
/// fresh instance: `unhook` leaves a target in the reset state with its
/// preference list and table intact, and from the reset state the outcome of
/// a hook attempt is a function of the table and the attempt's inputs alone.
/// So hook, unhook, hook again — on the same or another module — is
/// indistinguishable from a single hook on a fresh instance, but for the
/// feature flags recomputed along the way.
pub proof fn lemma_rehook_matches_fresh(
    reused: HookableModule,
    fresh: HookableModule,
    mi: ModuleInfoV,
    installs: Seq<Result<usize, i32>>,
    init: bool,
    post_reused: HookableModule,
    post_fresh: HookableModule,
)
    requires
        reused.is_reset(),
        fresh.is_reset(),
        reused.tag == fresh.tag,
        reused.names == fresh.names,
        reused.specs == fresh.specs,
        spec_hook_outcome(reused, mi, installs, init, post_reused),
        spec_hook_outcome(fresh, mi, installs, init, post_fresh),
    ensures
        post_reused.tag == post_fresh.tag,
        post_reused.names == post_fresh.names,
        post_reused.specs == post_fresh.specs,
        post_reused.records@ == post_fresh.records@,
        post_reused.current_name_index == post_fresh.current_name_index,
        post_reused.module_info is Some,
        post_fresh.module_info is Some,
        post_reused.module_info->0@ == post_fresh.module_info->0@,
{
    assert forall|i: int|
        0 <= i < post_reused.records@.len() implies post_reused.records@[i]
        == post_fresh.records@[i] by {
        assert(post_reused.records@[i] == spec_record_after(
            reused.specs@[i],
            spec_resolve(reused.specs@[i], mi),
            installs[i],
            init,
        ));
        assert(post_fresh.records@[i] == spec_record_after(
            fresh.specs@[i],
            spec_resolve(fresh.specs@[i], mi),
            installs[i],
            init,
        ));
    }
    assert(post_reused.records@ =~= post_fresh.records@);
    match post_reused.current_name_index {
        Some(i) => {
            match post_fresh.current_name_index {
                Some(j) => {
                    assert(Some(i as int) == Some(j as int));
                    assert(i == j);
                },
                None => {},
            }
        },
        None => {},
    }
}

/// The feature registry holds the flags derived from the given hook state.
pub open spec fn spec_features_refreshed(
    pre: FeatureRegistry,
    post: FeatureRegistry,
    engine: HookableModule,
    server: HookableModule,
) -> bool {
    &&& post.defs == pre.defs
    &&& post.wf()
    &&& forall|j: int|
        0 <= j < pre.defs@.len() ==> post.enabled@[j] == spec_feature_enabled(
            (#[trigger] pre.defs@[j]).prereqs@,
            engine,
            server,
        )
}

impl Context {
    pub open spec fn wf(&self) -> bool {
        &&& self.detour.wf()
        &&& self.detour.queued@.len() == 0
        &&& self.engine.wf()
        &&& self.server.wf()
        &&& self.kernel32.wf()
        &&& self.features.wf()
    }

    /// Build the agent's whole state: the cached initialization status of the
    /// detour subsystem, the three hookable targets over the host's detour
    /// functions, the feature registry, and the given logger.
    pub fn new(
        init_status: i32,
        game_detours: GameDetours,
        loader_detours: LoaderDetours,
        logger: Logger,
    ) -> (r: Context)
        ensures
            r.wf(),
            r.detour.init_status == init_status,
            r.detour.mapping@.len() == 0,
            r.detour.enabled@.len() == 0,
            r.engine.is_reset(),
            r.server.is_reset(),
            r.kernel32.is_reset(),
            r.logger == logger,
            r.engine_state.initialized == false,
            r.engine_state.icvar is None,
            r.engine_state.next_unpause_is_bad == false,
            r.server_state.jumped_last_tick == false,
            r.server_state.inside_check_jump_button == false,
            r.features.defs@.len() == 3,
            forall|j: int|
                0 <= j < r.features.enabled@.len() ==> r.features.enabled@[j] == false,
            r.engine.specs@.len() == 5,
            r.server.specs@.len() == 2,
            r.kernel32.specs@.len() == 5,
            r.engine.names@[0]@ == "engine.dll"@,
            r.server.names@[0]@ == "server.dll"@,
            r.kernel32.names@[0]@ == "kernel32.dll"@,
            r.engine.specs@[crate::engine::ENGINE_HOST_SPAWN as int].detour
                == game_detours.host_spawn,
            r.engine.specs@[crate::engine::ENGINE_HOST_UNPAUSE as int].detour
                == game_detours.host_unpause,
            r.server.specs@[crate::server::SERVER_CHECK_JUMP_BUTTON as int].detour
                == game_detours.check_jump_button,
            r.server.specs@[crate::server::SERVER_FINISH_GRAVITY as int].detour
                == game_detours.finish_gravity,
    {
        Context {
            detour: DetourEngine::new(init_status),
            engine: engine::engine_module(game_detours.host_spawn, game_detours.host_unpause),
            server: server::server_module(
                game_detours.check_jump_button,
                game_detours.finish_gravity,
            ),
            kernel32: kernel32::kernel32_module(loader_detours),
            features: standard_features(),
            logger,
            engine_state: EngineState::new(),
            server_state: ServerState::new(),
        }
    }

    /// Hook the loader target to its module, so that module loads and unloads
    /// reach the watcher.  Does not touch the game targets or the features.
    pub fn hook_kernel32(&mut self, module_info: ModuleInfo, io: &HookIo)
        requires
            old(self).wf(),
            old(self).kernel32.is_reset(),
            module_info.wf(),
            io.installs@.len() == old(self).kernel32.specs@.len(),
        ensures
            final(self).wf(),
            final(self).engine == old(self).engine,
            final(self).server == old(self).server,
            final(self).features == old(self).features,
            final(self).engine_state == old(self).engine_state,
            final(self).server_state == old(self).server_state,
            final(self).detour.init_status == old(self).detour.init_status,
            spec_hook_outcome(
                old(self).kernel32,
                module_info@,
                io.installs@,
                old(self).detour.initialized(),
                final(self).kernel32,
            ),
            logger_extended(old(self).logger, final(self).logger),
    {
        let ghost log0 = self.logger;
        let resolved = self.kernel32.resolve(module_info);
        self.kernel32.hook(
            resolved,
            &io.installs,
            &mut self.detour,
            io.install_commit,
            &mut self.logger,
        );
    }

    /// Startup pass over the already-loaded modules: each game target picks
    /// its best candidate by the selection policy and hooks it; the feature
    /// flags are recomputed when anything hooked.  Returns whether any target
    /// found a usable module — when none did, the host may surface that to
    /// the user.
    pub fn initial_hook(
        &mut self,
        modules: &Vec<ModuleInfo>,
        server_io: &HookIo,
        engine_io: &HookIo,
    ) -> (hooked_any: bool)
        requires
            old(self).wf(),
            old(self).server.is_reset(),
            old(self).engine.is_reset(),
            forall|i: int| 0 <= i < modules@.len() ==> (#[trigger] modules@[i]).wf(),
            server_io.installs@.len() == old(self).server.specs@.len(),
            engine_io.installs@.len() == old(self).engine.specs@.len(),
        ensures
            final(self).wf(),
            final(self).kernel32 == old(self).kernel32,
            final(self).engine_state == old(self).engine_state,
            final(self).server_state == old(self).server_state,
            final(self).detour.init_status == old(self).detour.init_status,
            match spec_pick_best(
                old(self).server.names_view(),
                modules@.map_values(|m: ModuleInfo| m@),
            ) {
                Some(i) => spec_hook_outcome(
                    old(self).server,
                    modules@.map_values(|m: ModuleInfo| m@)[i],
                    server_io.installs@,
                    old(self).detour.initialized(),
                    final(self).server,
                ),
                None => final(self).server == old(self).server,
            },
            match spec_pick_best(
                old(self).engine.names_view(),
                modules@.map_values(|m: ModuleInfo| m@),
            ) {
                Some(i) => spec_hook_outcome(
                    old(self).engine,
                    modules@.map_values(|m: ModuleInfo| m@)[i],
                    engine_io.installs@,
                    old(self).detour.initialized(),
                    final(self).engine,
                ),
                None => final(self).engine == old(self).engine,
            },
            if spec_pick_best(
                old(self).server.names_view(),
                modules@.map_values(|m: ModuleInfo| m@),
            ) is None && spec_pick_best(
                old(self).engine.names_view(),
                modules@.map_values(|m: ModuleInfo| m@),
            ) is None {
                final(self).features == old(self).features
            } else {
                spec_features_refreshed(
                    old(self).features,
                    final(self).features,
                    final(self).engine,
                    final(self).server,
                )
            },
            logger_extended(old(self).logger, final(self).logger),
            hooked_any == !(spec_pick_best(
                old(self).server.names_view(),
                modules@.map_values(|m: ModuleInfo| m@),
            ) is None && spec_pick_best(
                old(self).engine.names_view(),
                modules@.map_values(|m: ModuleInfo| m@),
            ) is None),
    {
        let ghost log0 = self.logger;
        proof {
            crate::logger::lemma_logger_extended_refl(log0);
        }
        let mut any = false;

        match self.server.pick_best_hook_target(modules) {
            Some(i) => {
                let mi = modules[i].duplicate();
                let resolved = self.server.resolve(mi);
                let ghost lpre = self.logger;
                self.server.hook(
                    resolved,
                    &server_io.installs,
                    &mut self.detour,
                    server_io.install_commit,
                    &mut self.logger,
                );
                proof {
                    crate::logger::lemma_logger_extended_trans(log0, lpre, self.logger);
                }
                any = true;
            },
            None => {},
        }

        match self.engine.pick_best_hook_target(modules) {
            Some(i) => {
                let mi = modules[i].duplicate();
                let resolved = self.engine.resolve(mi);
                let ghost lpre = self.logger;
                self.engine.hook(
                    resolved,
                    &engine_io.installs,
                    &mut self.detour,
                    engine_io.install_commit,
                    &mut self.logger,
                );
                proof {
                    crate::logger::lemma_logger_extended_trans(log0, lpre, self.logger);
                }
                any = true;
            },
            None => {},
        }

        if any {
            let ghost lpre = self.logger;
            self.features.refresh(&self.engine, &self.server, &mut self.logger);
            proof {
                crate::logger::lemma_logger_extended_trans(log0, lpre, self.logger);
            }
        }
        any
    }

    /// A module load was observed.  Each game target asks the selection
    /// policy whether to adopt the new module; an adopting target first drops
    /// the hooks on its old module, then hooks the new one.  The feature
    /// flags are recomputed when anything was adopted; a filename no
    /// preference list names changes nothing at all.
    pub fn on_module_loaded(
        &mut self,
        module_info: ModuleInfo,
        server_io: &AdoptIo,
        engine_io: &AdoptIo,
    )
        requires
            old(self).wf(),
            module_info.wf(),
            server_io.hook.installs@.len() == old(self).server.specs@.len(),
            server_io.unhook.removals@.len() == old(self).server.specs@.len(),
            engine_io.hook.installs@.len() == old(self).engine.specs@.len(),
            engine_io.unhook.removals@.len() == old(self).engine.specs@.len(),
        ensures
            final(self).wf(),
            final(self).kernel32 == old(self).kernel32,
            final(self).detour.init_status == old(self).detour.init_status,
            !spec_should_hook(
                old(self).server.names_view(),
                old(self).server.current_name_index,
                module_info@.filename,
            ) ==> {
                &&& final(self).server == old(self).server
                &&& final(self).server_state == old(self).server_state
            },
            spec_should_hook(
                old(self).server.names_view(),
                old(self).server.current_name_index,
                module_info@.filename,
            ) ==> {
                &&& spec_hook_outcome(
                    old(self).server,
                    module_info@,
                    server_io.hook.installs@,
                    old(self).detour.initialized(),
                    final(self).server,
                )
                &&& final(self).server_state.jumped_last_tick == false
                &&& final(self).server_state.inside_check_jump_button == false
            },
            !spec_should_hook(
                old(self).engine.names_view(),
                old(self).engine.current_name_index,
                module_info@.filename,
            ) ==> {
                &&& final(self).engine == old(self).engine
                &&& final(self).engine_state == old(self).engine_state
            },
            spec_should_hook(
                old(self).engine.names_view(),
                old(self).engine.current_name_index,
                module_info@.filename,
            ) ==> {
                &&& spec_hook_outcome(
                    old(self).engine,
                    module_info@,
                    engine_io.hook.installs@,
                    old(self).detour.initialized(),
                    final(self).engine,
                )
                &&& final(self).engine_state.initialized == false
                &&& final(self).engine_state.icvar is None
                &&& final(self).engine_state.next_unpause_is_bad == false
            },
            if !spec_should_hook(
                old(self).server.names_view(),
                old(self).server.current_name_index,
                module_info@.filename,
            ) && !spec_should_hook(
                old(self).engine.names_view(),
                old(self).engine.current_name_index,
                module_info@.filename,
            ) {
                &&& final(self).features == old(self).features
                &&& final(self).logger == old(self).logger
            } else {
                spec_features_refreshed(
                    old(self).features,
                    final(self).features,
                    final(self).engine,
                    final(self).server,
                )
            },
            logger_extended(old(self).logger, final(self).logger),
    {
        let ghost log0 = self.logger;
        proof {
            crate::logger::lemma_logger_extended_refl(log0);
        }
        let mut any = false;

        if self.server.should_hook(&module_info) {
            if self.server.module_info().is_some() {
                let ghost lpre = self.logger;
                self.server.unhook(
                    &mut self.detour,
                    server_io.unhook.remove_commit,
                    &server_io.unhook.removals,
                    &mut self.logger,
                );
                proof {
                    crate::logger::lemma_logger_extended_trans(log0, lpre, self.logger);
                }
            }
            self.server_state.reset();
            let mi = module_info.duplicate();
            let resolved = self.server.resolve(mi);
            let ghost lpre = self.logger;
            self.server.hook(
                resolved,
                &server_io.hook.installs,
                &mut self.detour,
                server_io.hook.install_commit,
                &mut self.logger,
            );
            proof {
                crate::logger::lemma_logger_extended_trans(log0, lpre, self.logger);
            }
            any = true;
        }

        if self.engine.should_hook(&module_info) {
            if self.engine.module_info().is_some() {
                let ghost lpre = self.logger;
                self.engine.unhook(
                    &mut self.detour,
                    engine_io.unhook.remove_commit,
                    &engine_io.unhook.removals,
                    &mut self.logger,
                );
                proof {
                    crate::logger::lemma_logger_extended_trans(log0, lpre, self.logger);
                }
            }
            self.engine_state.reset();
            let mi = module_info.duplicate();
            let resolved = self.engine.resolve(mi);
            let ghost lpre = self.logger;
            self.engine.hook(
                resolved,
                &engine_io.hook.installs,
                &mut self.detour,
                engine_io.hook.install_commit,
                &mut self.logger,
            );
            proof {
                crate::logger::lemma_logger_extended_trans(log0, lpre, self.logger);
            }
            any = true;
        }

        if any {
            let ghost lpre = self.logger;
            self.features.refresh(&self.engine, &self.server, &mut self.logger);
            proof {
                crate::logger::lemma_logger_extended_trans(log0, lpre, self.logger);
            }
        }
    }

    /// A module unload was observed.  Each game target hooked to that very
    /// module (matched by handle identity) drops its hooks and resets; the
    /// feature flags are recomputed when anything was dropped.
    pub fn on_module_unloaded(&mut self, handle: usize, server_io: &UnhookIo, engine_io: &UnhookIo)
        requires
            old(self).wf(),
            server_io.removals@.len() == old(self).server.specs@.len(),
            engine_io.removals@.len() == old(self).engine.specs@.len(),
        ensures
            final(self).wf(),
            final(self).kernel32 == old(self).kernel32,
            final(self).detour.init_status == old(self).detour.init_status,
            !(old(self).server.module_info is Some && old(self).server.module_info->0.handle
                == handle) ==> {
                &&& final(self).server == old(self).server
                &&& final(self).server_state == old(self).server_state
            },
            (old(self).server.module_info is Some && old(self).server.module_info->0.handle
                == handle) ==> {
                &&& final(self).server.is_reset()
                &&& final(self).server.tag == old(self).server.tag
                &&& final(self).server.names == old(self).server.names
                &&& final(self).server.specs == old(self).server.specs
                &&& final(self).server_state.jumped_last_tick == false
                &&& final(self).server_state.inside_check_jump_button == false
            },
            !(old(self).engine.module_info is Some && old(self).engine.module_info->0.handle
                == handle) ==> {
                &&& final(self).engine == old(self).engine
                &&& final(self).engine_state == old(self).engine_state
            },
            (old(self).engine.module_info is Some && old(self).engine.module_info->0.handle
                == handle) ==> {
                &&& final(self).engine.is_reset()
                &&& final(self).engine.tag == old(self).engine.tag
                &&& final(self).engine.names == old(self).engine.names
                &&& final(self).engine.specs == old(self).engine.specs
                &&& final(self).engine_state.initialized == false
                &&& final(self).engine_state.icvar is None
                &&& final(self).engine_state.next_unpause_is_bad == false
            },
            if !(old(self).server.module_info is Some && old(self).server.module_info->0.handle
                == handle) && !(old(self).engine.module_info is Some
                && old(self).engine.module_info->0.handle == handle) {
                &&& final(self).features == old(self).features
                &&& final(self).logger == old(self).logger
            } else {
                spec_features_refreshed(
                    old(self).features,
                    final(self).features,
                    final(self).engine,
                    final(self).server,
                )
            },
            logger_extended(old(self).logger, final(self).logger),
    {
        let ghost log0 = self.logger;
        proof {
            crate::logger::lemma_logger_extended_refl(log0);
        }
        let mut any = false;

        let unload_server = match self.server.module_info() {
            Some(mi) => mi.handle == handle,
            None => false,
        };
        if unload_server {
            let ghost lpre = self.logger;
            self.server.unhook(
                &mut self.detour,
                server_io.remove_commit,
                &server_io.removals,
                &mut self.logger,
            );
            proof {
                crate::logger::lemma_logger_extended_trans(log0, lpre, self.logger);
            }
            self.server_state.reset();
            any = true;
        }

        let unload_engine = match self.engine.module_info() {
            Some(mi) => mi.handle == handle,
            None => false,
        };
        if unload_engine {
            let ghost lpre = self.logger;
            self.engine.unhook(
                &mut self.detour,
                engine_io.remove_commit,
                &engine_io.removals,
                &mut self.logger,
            );
            proof {
                crate::logger::lemma_logger_extended_trans(log0, lpre, self.logger);
            }
            self.engine_state.reset();
            any = true;
        }

        if any {
            let ghost lpre = self.logger;
            self.features.refresh(&self.engine, &self.server, &mut self.logger);
            proof {
                crate::logger::lemma_logger_extended_trans(log0, lpre, self.logger);
            }
        }
    }

    /// Process teardown: drop the detour bookkeeping.  A no-op if the
    /// subsystem never initialized.
    pub fn uninitialize(&mut self)
        requires
            old(self).wf(),
        ensures
            final(self).wf(),
            final(self).detour.init_status == old(self).detour.init_status,
            old(self).detour.initialized() ==> final(self).detour.mapping@.len() == 0,
    {
        self.detour.uninitialize();
    }
}

} // verus!
