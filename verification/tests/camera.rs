use saddle_world_lighting::{
    counts_as_write, plan_camera, CameraComponents, CameraPlan, ComponentAction, LightingCamera,
};

fn none_present() -> CameraComponents {
    CameraComponents {
        distance_fog: false,
        volumetric_fog: false,
        exposure: false,
        environment_map_light: false,
        atmosphere: false,
        atmosphere_settings: false,
        scattering_media: true,
    }
}

fn all_present() -> CameraComponents {
    CameraComponents {
        distance_fog: true,
        volumetric_fog: true,
        exposure: true,
        environment_map_light: true,
        atmosphere: true,
        atmosphere_settings: true,
        scattering_media: true,
    }
}

fn idle() -> CameraPlan {
    CameraPlan {
        distance_fog: ComponentAction::Skip,
        volumetric_fog: ComponentAction::Skip,
        exposure: ComponentAction::Skip,
        environment_map_light: ComponentAction::Skip,
        atmosphere_settings: ComponentAction::Skip,
        insert_atmosphere: false,
    }
}

#[test]
fn default_camera_manages_everything_but_the_atmosphere() {
    let camera = LightingCamera::default();
    assert!(camera.enabled);
    assert!(camera.apply_distance_fog);
    assert!(camera.apply_volumetric_fog);
    assert!(camera.apply_exposure);
    assert!(camera.apply_environment_map_light);
    assert!(camera.insert_missing_components);
    assert!(!camera.ensure_atmosphere);
}

#[test]
fn default_camera_inserts_what_it_lacks() {
    let plan = plan_camera(&LightingCamera::default(), &none_present());
    assert_eq!(
        plan,
        CameraPlan {
            distance_fog: ComponentAction::Insert,
            volumetric_fog: ComponentAction::Insert,
            exposure: ComponentAction::Insert,
            environment_map_light: ComponentAction::Insert,
            atmosphere_settings: ComponentAction::Skip,
            insert_atmosphere: false,
        }
    );
}

#[test]
fn default_camera_updates_what_it_has() {
    let plan = plan_camera(&LightingCamera::default(), &all_present());
    assert_eq!(plan.distance_fog, ComponentAction::Update);
    assert_eq!(plan.volumetric_fog, ComponentAction::Update);
    assert_eq!(plan.exposure, ComponentAction::Update);
    assert_eq!(plan.environment_map_light, ComponentAction::Update);
    assert_eq!(plan.atmosphere_settings, ComponentAction::Skip);
    assert!(!plan.insert_atmosphere);
}

#[test]
fn disabled_camera_is_left_alone() {
    let camera = LightingCamera { enabled: false, ensure_atmosphere: true, ..LightingCamera::default() };
    assert_eq!(plan_camera(&camera, &none_present()), idle());
    assert_eq!(plan_camera(&camera, &all_present()), idle());
}

#[test]
fn camera_without_insertion_only_updates() {
    let camera = LightingCamera {
        insert_missing_components: false,
        ensure_atmosphere: true,
        ..LightingCamera::default()
    };
    assert_eq!(plan_camera(&camera, &none_present()), idle());
    let present = CameraComponents { exposure: true, ..none_present() };
    let plan = plan_camera(&camera, &present);
    assert_eq!(plan, CameraPlan { exposure: ComponentAction::Update, ..idle() });
}

#[test]
fn switched_off_components_are_skipped() {
    let camera = LightingCamera {
        apply_distance_fog: false,
        apply_exposure: false,
        ..LightingCamera::default()
    };
    let plan = plan_camera(&camera, &all_present());
    assert_eq!(plan.distance_fog, ComponentAction::Skip);
    assert_eq!(plan.exposure, ComponentAction::Skip);
    assert_eq!(plan.volumetric_fog, ComponentAction::Update);
    assert_eq!(plan.environment_map_light, ComponentAction::Update);
}

#[test]
fn atmosphere_is_added_only_where_missing_and_media_exist() {
    let camera = LightingCamera { ensure_atmosphere: true, ..LightingCamera::default() };
    let plan = plan_camera(&camera, &none_present());
    assert_eq!(plan.atmosphere_settings, ComponentAction::Insert);
    assert!(plan.insert_atmosphere);

    let no_media = CameraComponents { scattering_media: false, ..none_present() };
    let plan = plan_camera(&camera, &no_media);
    assert_eq!(plan.atmosphere_settings, ComponentAction::Insert);
    assert!(!plan.insert_atmosphere);

    let plan = plan_camera(&camera, &all_present());
    assert_eq!(plan.atmosphere_settings, ComponentAction::Update);
    assert!(!plan.insert_atmosphere);
}

#[test]
fn inserts_always_count_and_updates_count_when_they_change_something() {
    assert!(counts_as_write(ComponentAction::Insert, false));
    assert!(counts_as_write(ComponentAction::Insert, true));
    assert!(counts_as_write(ComponentAction::Update, true));
    assert!(!counts_as_write(ComponentAction::Update, false));
    assert!(!counts_as_write(ComponentAction::Skip, true));
    assert!(!counts_as_write(ComponentAction::Skip, false));
}
