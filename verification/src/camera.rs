use vstd::prelude::*;

verus! {

/// Marks a camera whose fog, exposure and atmosphere the lighting pass
/// manages, and says which of them.
#[derive(Clone, Copy, Debug, PartialEq, Eq, Structural)]
pub struct LightingCamera {
    /// Whether the camera is managed at all.
    pub enabled: bool,
    /// Write distance fog.
    pub apply_distance_fog: bool,
    /// Write volumetric fog.
    pub apply_volumetric_fog: bool,
    /// Write the exposure.
    pub apply_exposure: bool,
    /// Write the atmosphere environment-map light.
    pub apply_environment_map_light: bool,
    /// Insert a managed component that the camera lacks.
    pub insert_missing_components: bool,
    /// Keep atmosphere settings (and an atmosphere) on the camera.
    pub ensure_atmosphere: bool,
}

impl LightingCamera {
    /// The default camera settings: everything managed and inserted where
    /// missing, except the atmosphere.
    pub open spec fn default_spec() -> Self {
        LightingCamera {
            enabled: true,
            apply_distance_fog: true,
            apply_volumetric_fog: true,
            apply_exposure: true,
            apply_environment_map_light: true,
            insert_missing_components: true,
            ensure_atmosphere: false,
        }
    }
}

impl Default for LightingCamera {
    fn default() -> (camera: Self)
        ensures
            camera == LightingCamera::default_spec(),
    {
        LightingCamera {
            enabled: true,
            apply_distance_fog: true,
            apply_volumetric_fog: true,
            apply_exposure: true,
            apply_environment_map_light: true,
            insert_missing_components: true,
            ensure_atmosphere: false,
        }
    }
}

/// What the lighting pass does to one managed component of a camera.
#[derive(Clone, Copy, Debug, PartialEq, Eq, Structural)]
pub enum ComponentAction {
    /// Leave it alone.
    Skip,
    /// The camera has it: bring its values to the resolved lighting.
    Update,
    /// The camera lacks it: insert one built from the resolved lighting.
    Insert,
}

/// Which managed components a camera entity already carries, and whether the
/// scattering-medium asset store exists.
#[derive(Clone, Copy, Debug, PartialEq, Eq, Structural)]
pub struct CameraComponents {
    pub distance_fog: bool,
    pub volumetric_fog: bool,
    pub exposure: bool,
    pub environment_map_light: bool,
    pub atmosphere: bool,
    pub atmosphere_settings: bool,
    pub scattering_media: bool,
}

/// What the lighting pass does to one camera.
#[derive(Clone, Copy, Debug, PartialEq, Eq, Structural)]
pub struct CameraPlan {
    pub distance_fog: ComponentAction,
    pub volumetric_fog: ComponentAction,
    pub exposure: ComponentAction,
    pub environment_map_light: ComponentAction,
    pub atmosphere_settings: ComponentAction,
    /// Insert an earthlike atmosphere.
    pub insert_atmosphere: bool,
}

/// The action for a component that the camera asks to be managed
/// (`wanted`): update it where present, insert it where missing and
/// insertion is allowed, else leave it.
pub open spec fn action_for(wanted: bool, present: bool, insert_missing: bool) -> ComponentAction {
    if !wanted {
        ComponentAction::Skip
    } else if present {
        ComponentAction::Update
    } else if insert_missing {
        ComponentAction::Insert
    } else {
        ComponentAction::Skip
    }
}

/// The plan that leaves every component of a camera alone.
pub open spec fn idle_plan() -> CameraPlan {
    CameraPlan {
        distance_fog: ComponentAction::Skip,
        volumetric_fog: ComponentAction::Skip,
        exposure: ComponentAction::Skip,
        environment_map_light: ComponentAction::Skip,
        atmosphere_settings: ComponentAction::Skip,
        insert_atmosphere: false,
    }
}

/// What the lighting pass does to a camera with these settings and these
/// components.
pub open spec fn plan_for(camera: LightingCamera, present: CameraComponents) -> CameraPlan {
    if !camera.enabled {
        idle_plan()
    } else {
        let insert = camera.insert_missing_components;
        CameraPlan {
            distance_fog: action_for(camera.apply_distance_fog, present.distance_fog, insert),
            volumetric_fog: action_for(camera.apply_volumetric_fog, present.volumetric_fog, insert),
            exposure: action_for(camera.apply_exposure, present.exposure, insert),
            environment_map_light: action_for(
                camera.apply_environment_map_light,
                present.environment_map_light,
                insert,
            ),
            atmosphere_settings: action_for(
                camera.ensure_atmosphere,
                present.atmosphere_settings,
                insert,
            ),
            insert_atmosphere: camera.ensure_atmosphere && !present.atmosphere && insert
                && present.scattering_media,
        }
    }
}

fn choose_action(wanted: bool, present: bool, insert_missing: bool) -> (action: ComponentAction)
    ensures
        action == action_for(wanted, present, insert_missing),
{
    if !wanted {
        ComponentAction::Skip
    } else if present {
        ComponentAction::Update
    } else if insert_missing {
        ComponentAction::Insert
    } else {
        ComponentAction::Skip
    }
}

/// Decides, for one camera, which managed components are updated, which are
/// inserted and whether an atmosphere is added.
pub fn plan_camera(camera: &LightingCamera, present: &CameraComponents) -> (plan: CameraPlan)
    ensures
        plan == plan_for(*camera, *present),
        plan.insert_atmosphere <==> (camera.enabled && camera.ensure_atmosphere
            && camera.insert_missing_components && !present.atmosphere
            && present.scattering_media),
        !camera.enabled || !camera.apply_exposure ==> plan.exposure == ComponentAction::Skip,
        !camera.enabled || !camera.apply_distance_fog ==> plan.distance_fog == ComponentAction::Skip,
        !camera.enabled || !camera.apply_volumetric_fog ==> plan.volumetric_fog
            == ComponentAction::Skip,
        !camera.enabled || !camera.apply_environment_map_light ==> plan.environment_map_light
            == ComponentAction::Skip,
{
    if !camera.enabled {
        return CameraPlan {
            distance_fog: ComponentAction::Skip,
            volumetric_fog: ComponentAction::Skip,
            exposure: ComponentAction::Skip,
            environment_map_light: ComponentAction::Skip,
            atmosphere_settings: ComponentAction::Skip,
            insert_atmosphere: false,
        };
    }
    let insert = camera.insert_missing_components;
    CameraPlan {
        distance_fog: choose_action(camera.apply_distance_fog, present.distance_fog, insert),
        volumetric_fog: choose_action(camera.apply_volumetric_fog, present.volumetric_fog, insert),
        exposure: choose_action(camera.apply_exposure, present.exposure, insert),
        environment_map_light: choose_action(
            camera.apply_environment_map_light,
            present.environment_map_light,
            insert,
        ),
        atmosphere_settings: choose_action(
            camera.ensure_atmosphere,
            present.atmosphere_settings,
            insert,
        ),
        insert_atmosphere: camera.ensure_atmosphere && !present.atmosphere && insert
            && present.scattering_media,
    }
}

/// Whether carrying out `action` counts as a write: an insertion always
/// does, an update does where it changed a value (`changed`).
pub open spec fn is_write(action: ComponentAction, changed: bool) -> bool {
    match action {
        ComponentAction::Skip => false,
        ComponentAction::Update => changed,
        ComponentAction::Insert => true,
    }
}

/// Whether carrying out `action` counts as a write, where `changed` says
/// whether an update changed a value.
pub fn counts_as_write(action: ComponentAction, changed: bool) -> (write: bool)
    ensures
        write == is_write(action, changed),
{
    match action {
        ComponentAction::Skip => false,
        ComponentAction::Update => changed,
        ComponentAction::Insert => true,
    }
}

/// A disabled camera is left alone; a camera that does not allow insertion
/// never gets a component inserted; every component that a camera carries
/// and asks to be managed is updated, never replaced.
pub proof fn camera_plan_respects_settings(camera: LightingCamera, present: CameraComponents)
    ensures
        !camera.enabled ==> plan_for(camera, present) == idle_plan(),
        !camera.insert_missing_components ==> {
            let p = plan_for(camera, present);
            &&& p.distance_fog != ComponentAction::Insert
            &&& p.volumetric_fog != ComponentAction::Insert
            &&& p.exposure != ComponentAction::Insert
            &&& p.environment_map_light != ComponentAction::Insert
            &&& p.atmosphere_settings != ComponentAction::Insert
            &&& !p.insert_atmosphere
        },
        camera.enabled && camera.apply_distance_fog && present.distance_fog
            ==> plan_for(camera, present).distance_fog == ComponentAction::Update,
        camera.enabled && camera.apply_volumetric_fog && present.volumetric_fog
            ==> plan_for(camera, present).volumetric_fog == ComponentAction::Update,
        camera.enabled && camera.apply_exposure && present.exposure
            ==> plan_for(camera, present).exposure == ComponentAction::Update,
        camera.enabled && camera.apply_environment_map_light && present.environment_map_light
            ==> plan_for(camera, present).environment_map_light == ComponentAction::Update,
        present.atmosphere ==> !plan_for(camera, present).insert_atmosphere,
        !camera.ensure_atmosphere ==> {
            let p = plan_for(camera, present);
            p.atmosphere_settings == ComponentAction::Skip && !p.insert_atmosphere
        },
{
}

/// Each managed component of a camera is planned by its own switch alone: it
/// is updated exactly when the camera is enabled, asks for it and carries it;
/// inserted exactly when the camera is enabled, asks for it, lacks it and
/// allows insertion; and skipped otherwise, so a component whose switch is off
/// is never touched.
pub proof fn component_actions_follow_their_switches(
    camera: LightingCamera,
    present: CameraComponents,
)
    ensures
        ({
            let p = plan_for(camera, present);
            let on = camera.enabled;
            let ins = camera.insert_missing_components;
            &&& (p.distance_fog == ComponentAction::Update <==> on && camera.apply_distance_fog
                && present.distance_fog)
            &&& (p.distance_fog == ComponentAction::Insert <==> on && camera.apply_distance_fog
                && !present.distance_fog && ins)
            &&& (p.volumetric_fog == ComponentAction::Update <==> on && camera.apply_volumetric_fog
                && present.volumetric_fog)
            &&& (p.volumetric_fog == ComponentAction::Insert <==> on && camera.apply_volumetric_fog
                && !present.volumetric_fog && ins)
            &&& (p.exposure == ComponentAction::Update <==> on && camera.apply_exposure
                && present.exposure)
            &&& (p.exposure == ComponentAction::Insert <==> on && camera.apply_exposure
                && !present.exposure && ins)
            &&& (p.environment_map_light == ComponentAction::Update <==> on
                && camera.apply_environment_map_light && present.environment_map_light)
            &&& (p.environment_map_light == ComponentAction::Insert <==> on
                && camera.apply_environment_map_light && !present.environment_map_light && ins)
            &&& (p.atmosphere_settings == ComponentAction::Update <==> on
                && camera.ensure_atmosphere && present.atmosphere_settings)
            &&& (p.atmosphere_settings == ComponentAction::Insert <==> on
                && camera.ensure_atmosphere && !present.atmosphere_settings && ins)
            &&& (!camera.apply_distance_fog ==> p.distance_fog == ComponentAction::Skip)
            &&& (!camera.apply_volumetric_fog ==> p.volumetric_fog == ComponentAction::Skip)
            &&& (!camera.apply_exposure ==> p.exposure == ComponentAction::Skip)
            &&& (!camera.apply_environment_map_light ==> p.environment_map_light
                == ComponentAction::Skip)
        }),
{
}

/// An earthlike atmosphere is added exactly when the camera is enabled, asks
/// for an atmosphere, allows insertion, lacks an atmosphere and the
/// scattering-medium store exists, whatever the atmosphere settings are.
pub proof fn atmosphere_inserted_exactly_where_missing(
    camera: LightingCamera,
    present: CameraComponents,
)
    ensures
        plan_for(camera, present).insert_atmosphere <==> (camera.enabled
            && camera.ensure_atmosphere && camera.insert_missing_components && !present.atmosphere
            && present.scattering_media),
        plan_for(camera, present).insert_atmosphere == plan_for(
            camera,
            CameraComponents { atmosphere_settings: !present.atmosphere_settings, ..present },
        ).insert_atmosphere,
{
}

} // verus!
