use vstd::prelude::*;

use crate::smoothing::StepMode;

verus! {

/// Whether the plugin spawns a sun and a moon when the world has none.
#[derive(Clone, Copy, Debug, PartialEq, Eq, Structural)]
pub struct ManagedLightConfig {
    pub auto_spawn: bool,
}

impl Default for ManagedLightConfig {
    fn default() -> (config: Self)
        ensures
            config.auto_spawn,
    {
        ManagedLightConfig { auto_spawn: true }
    }
}

/// Which managed lights to spawn.
#[derive(Clone, Copy, Debug, PartialEq, Eq, Structural)]
pub struct SpawnPlan {
    pub spawn_sun: bool,
    pub spawn_moon: bool,
}

impl ManagedLightConfig {
    /// A sun is spawned where auto-spawning is on and the world has no sun;
    /// likewise a moon.
    pub open spec fn spawn_plan_for(self, has_sun: bool, has_moon: bool) -> SpawnPlan {
        SpawnPlan {
            spawn_sun: self.auto_spawn && !has_sun,
            spawn_moon: self.auto_spawn && !has_moon,
        }
    }

    /// Decides which managed lights to spawn, given whether the world
    /// already holds a sun and a moon.
    pub fn spawn_plan(&self, has_sun: bool, has_moon: bool) -> (plan: SpawnPlan)
        ensures
            plan == self.spawn_plan_for(has_sun, has_moon),
    {
        if !self.auto_spawn {
            return SpawnPlan { spawn_sun: false, spawn_moon: false };
        }
        SpawnPlan { spawn_sun: !has_sun, spawn_moon: !has_moon }
    }
}

/// How a lighting update combines the current lighting with the target.
#[derive(Clone, Copy, Debug, PartialEq, Eq, Structural)]
pub enum LightingUpdate {
    /// Move the current lighting towards the target, smoothed as after a
    /// step of this mode.
    Smooth(StepMode),
    /// Take the target as it is.
    Snap,
}

/// The state of the lighting runtime between frames. `E` identifies an
/// entity of the world.
#[derive(Clone, Debug)]
pub struct LightingRuntimeState<E> {
    /// Whether the lighting systems run.
    pub active: bool,
    /// Whether the lighting has been resolved once, so that later updates
    /// are smoothed.
    pub lighting_initialized: bool,
    /// The mode of the last clock step seen, if any.
    pub last_step_mode: Option<StepMode>,
    /// The sun that the runtime spawned, if any.
    pub spawned_sun: Option<E>,
    /// The moon that the runtime spawned, if any.
    pub spawned_moon: Option<E>,
}

impl<E> LightingRuntimeState<E> {
    /// An active runtime has resolved its lighting once.
    pub open spec fn wf(self) -> bool {
        self.active ==> self.lighting_initialized
    }

    /// The runtime before activation.
    pub open spec fn initial() -> Self {
        LightingRuntimeState {
            active: false,
            lighting_initialized: false,
            last_step_mode: None,
            spawned_sun: None,
            spawned_moon: None,
        }
    }

    /// The runtime after activation: active, with the lighting resolved for
    /// the current time and an idle step recorded.
    pub open spec fn activated(self) -> Self {
        LightingRuntimeState {
            active: true,
            lighting_initialized: true,
            last_step_mode: Some(StepMode::Idle),
            ..self
        }
    }

    /// The runtime after deactivation: inactive, holding no spawned light.
    pub open spec fn deactivated(self) -> Self {
        LightingRuntimeState { active: false, spawned_sun: None, spawned_moon: None, ..self }
    }

    /// The runtime after recording the lights that were just spawned.
    pub open spec fn with_spawned(self, sun: Option<E>, moon: Option<E>) -> Self {
        LightingRuntimeState {
            spawned_sun: if sun is Some { sun } else { self.spawned_sun },
            spawned_moon: if moon is Some { moon } else { self.spawned_moon },
            ..self
        }
    }

    /// The step mode that smoothing and diagnostics go by: the last one
    /// seen, or idle where none was.
    pub open spec fn step_mode_of(self) -> StepMode {
        match self.last_step_mode {
            Some(mode) => mode,
            None => StepMode::Idle,
        }
    }

    /// How the next lighting update is made: smoothed once the lighting has
    /// been resolved, else taken as it is.
    pub open spec fn update_for(self) -> LightingUpdate {
        if self.lighting_initialized {
            LightingUpdate::Smooth(self.step_mode_of())
        } else {
            LightingUpdate::Snap
        }
    }

    /// The runtime after a lighting update: its lighting is resolved.
    pub open spec fn after_update(self) -> Self {
        LightingRuntimeState { lighting_initialized: true, ..self }
    }

    /// A runtime that has not been activated.
    pub fn new() -> (state: Self)
        ensures
            state == Self::initial(),
    {
        LightingRuntimeState {
            active: false,
            lighting_initialized: false,
            last_step_mode: None,
            spawned_sun: None,
            spawned_moon: None,
        }
    }

    /// Activates the runtime. The caller resolves the lighting for the
    /// current time alongside.
    pub fn activate(&mut self)
        ensures
            *final(self) == old(self).activated(),
    {
        self.active = true;
        self.last_step_mode = Some(StepMode::Idle);
        self.lighting_initialized = true;
    }

    /// Deactivates the runtime and hands back the sun and the moon that it
    /// spawned, which the caller despawns.
    pub fn deactivate(&mut self) -> (released: (Option<E>, Option<E>))
        ensures
            *final(self) == old(self).deactivated(),
            released == (old(self).spawned_sun, old(self).spawned_moon),
    {
        self.active = false;
        let sun = self.spawned_sun.take();
        let moon = self.spawned_moon.take();
        (sun, moon)
    }

    /// Whether the lighting systems run.
    pub fn is_active(&self) -> (active: bool)
        ensures
            active == self.active,
    {
        self.active
    }

    /// The step mode that smoothing and diagnostics go by.
    pub fn step_mode(&self) -> (mode: StepMode)
        ensures
            mode == self.step_mode_of(),
            self.last_step_mode is Some ==> mode == self.last_step_mode->0,
            self.last_step_mode is None ==> mode == StepMode::Idle,
    {
        match self.last_step_mode {
            Some(mode) => mode,
            None => StepMode::Idle,
        }
    }

    /// Records the lights that the caller has just spawned (`None` where it
    /// spawned none).
    pub fn record_spawned(&mut self, sun: Option<E>, moon: Option<E>)
        ensures
            *final(self) == old(self).with_spawned(sun, moon),
            final(self).spawned_sun == (if sun is Some { sun } else { old(self).spawned_sun }),
            final(self).spawned_moon == (if moon is Some { moon } else { old(self).spawned_moon }),
    {
        if sun.is_some() {
            self.spawned_sun = sun;
        }
        if moon.is_some() {
            self.spawned_moon = moon;
        }
    }

    /// Says how the next lighting update is made and marks the lighting as
    /// resolved.
    pub fn begin_lighting_update(&mut self) -> (update: LightingUpdate)
        ensures
            update == old(self).update_for(),
            *final(self) == old(self).after_update(),
    {
        if self.lighting_initialized {
            LightingUpdate::Smooth(self.step_mode())
        } else {
            self.lighting_initialized = true;
            LightingUpdate::Snap
        }
    }
}

/// Every transition keeps the runtime's invariant: an active runtime has
/// resolved its lighting once.
pub proof fn runtime_invariant_is_kept<E>(
    s: LightingRuntimeState<E>,
    sun: Option<E>,
    moon: Option<E>,
)
    ensures
        LightingRuntimeState::<E>::initial().wf(),
        s.activated().wf(),
        s.wf() ==> s.deactivated().wf(),
        s.wf() ==> s.with_spawned(sun, moon).wf(),
        s.wf() ==> s.after_update().wf(),
{
}

/// While the runtime is active, a lighting update is always smoothed, with
/// the recorded step mode; right after activation that mode is idle.
pub proof fn active_runtime_smooths<E>(s: LightingRuntimeState<E>)
    requires
        s.wf(),
    ensures
        s.active ==> s.update_for() == LightingUpdate::Smooth(s.step_mode_of()),
        s.activated().update_for() == LightingUpdate::Smooth(StepMode::Idle),
        s.activated().step_mode_of() == StepMode::Idle,
{
}

/// Deactivation undoes activation and releases exactly the lights that were
/// recorded as spawned; a second deactivation changes nothing more, and
/// recording spawns never touches whether the runtime runs.
pub proof fn deactivation_releases_spawned<E>(
    s: LightingRuntimeState<E>,
    sun: Option<E>,
    moon: Option<E>,
)
    ensures
        !s.activated().deactivated().active,
        s.activated().deactivated().spawned_sun is None,
        s.activated().deactivated().spawned_moon is None,
        s.deactivated().deactivated() == s.deactivated(),
        sun is Some ==> s.with_spawned(sun, moon).spawned_sun == sun,
        moon is Some ==> s.with_spawned(sun, moon).spawned_moon == moon,
        s.with_spawned(sun, moon).active == s.active,
        s.with_spawned(sun, moon).lighting_initialized == s.lighting_initialized,
{
}

/// No light is spawned while auto-spawning is off, and none is spawned
/// where the world already holds one of its kind.
pub proof fn spawning_only_fills_gaps(config: ManagedLightConfig, has_sun: bool, has_moon: bool)
    ensures
        !config.auto_spawn ==> config.spawn_plan_for(has_sun, has_moon) == (SpawnPlan {
            spawn_sun: false,
            spawn_moon: false,
        }),
        has_sun ==> !config.spawn_plan_for(has_sun, has_moon).spawn_sun,
        has_moon ==> !config.spawn_plan_for(has_sun, has_moon).spawn_moon,
{
}

/// Updates go by the step mode that was recorded: an initialized runtime
/// smooths with exactly the last recorded mode, and with the idle mode where
/// none was recorded.
pub proof fn updates_use_the_recorded_step<E>(s: LightingRuntimeState<E>, m: StepMode)
    ensures
        s.last_step_mode == Some(m) ==> s.step_mode_of() == m,
        s.last_step_mode is None ==> s.step_mode_of() == StepMode::Idle,
        s.lighting_initialized && s.last_step_mode == Some(m) ==> s.update_for()
            == LightingUpdate::Smooth(m),
        !s.lighting_initialized ==> s.update_for() == LightingUpdate::Snap,
{
}

/// Recording no spawn keeps what was recorded before, so a light recorded in
/// one frame is still released at deactivation after frames that spawned
/// nothing; a later spawn replaces only its own kind.
pub proof fn spawn_records_persist<E>(s: LightingRuntimeState<E>, sun: Option<E>, moon: Option<E>)
    ensures
        sun is None ==> s.with_spawned(sun, moon).spawned_sun == s.spawned_sun,
        moon is None ==> s.with_spawned(sun, moon).spawned_moon == s.spawned_moon,
        s.with_spawned(None, None) == s,
        s.with_spawned(sun, moon).with_spawned(None, None).spawned_sun == (if sun is Some {
            sun
        } else {
            s.spawned_sun
        }),
        s.with_spawned(sun, moon).with_spawned(None, None).spawned_moon == (if moon is Some {
            moon
        } else {
            s.spawned_moon
        }),
{
}

} // verus!
