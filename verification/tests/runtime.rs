use saddle_world_lighting::{
    LightingRuntimeState, LightingUpdate, ManagedLightConfig, SpawnPlan, StepMode,
};

#[test]
fn new_runtime_is_inactive_and_holds_nothing() {
    let state: LightingRuntimeState<u64> = LightingRuntimeState::new();
    assert!(!state.is_active());
    assert!(!state.lighting_initialized);
    assert_eq!(state.last_step_mode, None);
    assert_eq!(state.spawned_sun, None);
    assert_eq!(state.spawned_moon, None);
    assert_eq!(state.step_mode(), StepMode::Idle);
}

#[test]
fn activation_resolves_lighting_and_records_an_idle_step() {
    let mut state: LightingRuntimeState<u64> = LightingRuntimeState::new();
    state.activate();
    assert!(state.is_active());
    assert!(state.lighting_initialized);
    assert_eq!(state.last_step_mode, Some(StepMode::Idle));
    assert_eq!(state.step_mode(), StepMode::Idle);
}

#[test]
fn first_update_before_activation_snaps_then_smooths() {
    let mut state: LightingRuntimeState<u64> = LightingRuntimeState::new();
    assert_eq!(state.begin_lighting_update(), LightingUpdate::Snap);
    assert!(state.lighting_initialized);
    assert_eq!(state.begin_lighting_update(), LightingUpdate::Smooth(StepMode::Idle));
}

#[test]
fn active_runtime_smooths_with_the_recorded_step() {
    let mut state: LightingRuntimeState<u64> = LightingRuntimeState::new();
    state.activate();
    assert_eq!(state.begin_lighting_update(), LightingUpdate::Smooth(StepMode::Idle));
    state.last_step_mode = Some(StepMode::Scrub);
    assert_eq!(state.begin_lighting_update(), LightingUpdate::Smooth(StepMode::Scrub));
}

#[test]
fn deactivation_releases_the_spawned_lights_once() {
    let mut state: LightingRuntimeState<u64> = LightingRuntimeState::new();
    state.activate();
    state.record_spawned(Some(7), Some(9));
    assert_eq!(state.spawned_sun, Some(7));
    assert_eq!(state.spawned_moon, Some(9));
    assert_eq!(state.deactivate(), (Some(7), Some(9)));
    assert!(!state.is_active());
    assert_eq!(state.spawned_sun, None);
    assert_eq!(state.spawned_moon, None);
    assert_eq!(state.deactivate(), (None, None));
}

#[test]
fn recording_no_spawn_keeps_the_earlier_one() {
    let mut state: LightingRuntimeState<u64> = LightingRuntimeState::new();
    state.record_spawned(Some(3), None);
    state.record_spawned(None, Some(4));
    assert_eq!(state.spawned_sun, Some(3));
    assert_eq!(state.spawned_moon, Some(4));
    state.record_spawned(Some(5), None);
    assert_eq!(state.spawned_sun, Some(5));
    assert_eq!(state.spawned_moon, Some(4));
}

#[test]
fn reactivation_after_deactivation_runs_again() {
    let mut state: LightingRuntimeState<u64> = LightingRuntimeState::new();
    state.activate();
    let _ = state.deactivate();
    state.activate();
    assert!(state.is_active());
    assert_eq!(state.begin_lighting_update(), LightingUpdate::Smooth(StepMode::Idle));
}

#[test]
fn managed_lights_spawn_by_default() {
    assert!(ManagedLightConfig::default().auto_spawn);
}

#[test]
fn spawn_plan_fills_only_missing_lights() {
    let config = ManagedLightConfig::default();
    assert_eq!(config.spawn_plan(false, false), SpawnPlan { spawn_sun: true, spawn_moon: true });
    assert_eq!(config.spawn_plan(true, false), SpawnPlan { spawn_sun: false, spawn_moon: true });
    assert_eq!(config.spawn_plan(false, true), SpawnPlan { spawn_sun: true, spawn_moon: false });
    assert_eq!(config.spawn_plan(true, true), SpawnPlan { spawn_sun: false, spawn_moon: false });
}

#[test]
fn no_spawn_when_auto_spawn_is_off() {
    let config = ManagedLightConfig { auto_spawn: false };
    for has_sun in [false, true] {
        for has_moon in [false, true] {
            assert_eq!(
                config.spawn_plan(has_sun, has_moon),
                SpawnPlan { spawn_sun: false, spawn_moon: false }
            );
        }
    }
}
