use plumber::entities::{
    ColorBrightness, EntityParseError, LightSettings, PyEnvLight, PyLight, PyLoadedProp,
    PySkyCamera, PySpotLight, PyUnknownEntity, RawEnvLight, RawLight, RawLoadedProp, RawSkyCamera,
    RawSpotLight, RawUnknownEntity, SrgbColor, SrgbColorAlpha, Vec3,
};

fn white() -> SrgbColor {
    SrgbColor { r: 255, g: 255, b: 255 }
}

fn props() -> Vec<(String, String)> {
    vec![
        ("classname".to_string(), "light".to_string()),
        ("style".to_string(), "0".to_string()),
    ]
}

fn ldr_light(brightness: u64) -> RawLight {
    RawLight {
        id: 7,
        class_name: "light".to_string(),
        hdr_color_brightness: Ok(None),
        hdr_scale: Err(EntityParseError::MissingProperty),
        color_brightness: Ok(ColorBrightness { color: white(), brightness }),
        origin: Ok(Vec3 { x: 1_000_000, y: -2_000_000, z: 3_000_000 }),
        properties: props(),
    }
}

#[test]
fn ldr_light_energy_is_brightness_times_factor() {
    // 200 units of brightness at the default 0.1 light factor: 20 units.
    let light = PyLight::new(ldr_light(200_000_000), &LightSettings::default(), 10_000).unwrap();
    assert_eq!(light.energy, 20_000_000);
    assert_eq!(light.id, 7);
    // Position scaled by 0.01.
    assert_eq!(light.position, Vec3 { x: 10_000, y: -20_000, z: 30_000 });
    // White linearizes to full intensity.
    assert_eq!(light.color.r, 1_000_000);
    assert_eq!(light.color.g, 1_000_000);
    assert_eq!(light.color.b, 1_000_000);
}

#[test]
fn hdr_light_applies_hdr_scale() {
    // HDR brightness 100 units, HDR scale 0.5, light factor 0.1: 5 units.
    let raw = RawLight {
        id: 9,
        class_name: "light".to_string(),
        hdr_color_brightness: Ok(Some(ColorBrightness {
            color: SrgbColor { r: 128, g: 0, b: 255 },
            brightness: 100_000_000,
        })),
        hdr_scale: Ok(500_000),
        color_brightness: Ok(ColorBrightness { color: white(), brightness: 777 }),
        origin: Ok(Vec3 { x: 0, y: 0, z: 0 }),
        properties: props(),
    };
    let light = PyLight::new(raw, &LightSettings::default(), 10_000).unwrap();
    assert_eq!(light.energy, 5_000_000);
    // The HDR color wins over the standard one.
    assert_eq!(light.color.r, 215_859);
    assert_eq!(light.color.g, 0);
    assert_eq!(light.color.b, 1_000_000);
}

#[test]
fn light_missing_origin_fails() {
    let mut raw = ldr_light(200_000_000);
    raw.origin = Err(EntityParseError::MissingProperty);
    let err = PyLight::new(raw, &LightSettings::default(), 10_000).unwrap_err();
    assert_eq!(err, EntityParseError::MissingProperty);
}

#[test]
fn light_malformed_hdr_fails_first() {
    let mut raw = ldr_light(200_000_000);
    raw.hdr_color_brightness = Err(EntityParseError::InvalidProperty);
    raw.origin = Err(EntityParseError::MissingProperty);
    let err = PyLight::new(raw, &LightSettings::default(), 10_000).unwrap_err();
    assert_eq!(err, EntityParseError::InvalidProperty);
}

#[test]
fn light_properties_taken_once() {
    let mut light = PyLight::new(ldr_light(1_000_000), &LightSettings::default(), 10_000).unwrap();
    let first = light.properties();
    assert_eq!(first.len(), 2);
    assert_eq!(first[0], ("classname".to_string(), "light".to_string()));
    let second = light.properties();
    assert!(second.is_empty());
}

fn spot_light(outer: u64, inner: u64) -> RawSpotLight {
    RawSpotLight {
        id: 11,
        class_name: "light_spot".to_string(),
        hdr_color_brightness: Ok(None),
        hdr_scale: Err(EntityParseError::MissingProperty),
        color_brightness: Ok(ColorBrightness { color: white(), brightness: 100_000_000 }),
        outer_cone: Ok(outer),
        inner_cone: Ok(inner),
        origin: Ok(Vec3 { x: 0, y: 0, z: 0 }),
        angles: Ok(Vec3 { x: 10_000_000, y: 20_000_000, z: 30_000_000 }),
        properties: props(),
    }
}

#[test]
fn spot_cone_round_trip() {
    // outer 45 degrees, inner 30 degrees: spot_size is 2 * radians(45),
    // about 1.5708, and spot_blend about 1 - 30/45, about 0.3333.
    let light =
        PySpotLight::new(spot_light(45_000_000, 30_000_000), &LightSettings::default(), 10_000)
            .unwrap();
    assert_eq!(light.spot_size, 1_570_796);
    assert_eq!(light.spot_blend, 333_334);
    // The source-space angles ride along unchanged.
    assert_eq!(light.rotation, Vec3 { x: 10_000_000, y: 20_000_000, z: 30_000_000 });
}

#[test]
fn spot_zero_outer_cone_is_parse_error() {
    let err = PySpotLight::new(spot_light(0, 0), &LightSettings::default(), 10_000).unwrap_err();
    assert_eq!(err, EntityParseError::InvalidProperty);
}

#[test]
fn spot_inner_wider_than_outer_gives_negative_blend() {
    let light =
        PySpotLight::new(spot_light(30_000_000, 45_000_000), &LightSettings::default(), 10_000)
            .unwrap();
    assert!(light.spot_blend < 0);
}

fn env_light() -> RawEnvLight {
    RawEnvLight {
        id: 13,
        class_name: "light_environment".to_string(),
        hdr_color_brightness: Ok(None),
        hdr_scale: Err(EntityParseError::MissingProperty),
        color_brightness: Ok(ColorBrightness { color: white(), brightness: 400_000_000 }),
        ambient_hdr_color_brightness: Ok(None),
        ambient_hdr_scale: Err(EntityParseError::MissingProperty),
        ambient_color_brightness: Ok(ColorBrightness {
            color: SrgbColor { r: 128, g: 128, b: 128 },
            brightness: 300_000_000,
        }),
        sun_spread_angle: Ok(5_000_000),
        origin: Ok(Vec3 { x: 0, y: 0, z: 0 }),
        angles: Ok(Vec3 { x: 0, y: 0, z: 0 }),
        properties: props(),
    }
}

#[test]
fn env_light_sun_and_ambient_are_independent() {
    let light = PyEnvLight::new(env_light(), &LightSettings::default(), 10_000).unwrap();
    // sun: 400 units times 0.01; ambient: 300 units times 0.001.
    assert_eq!(light.sun_energy, 4_000_000);
    assert_eq!(light.ambient_strength, 300_000);
    // 5 degrees of sun spread in micro-radians.
    assert_eq!(light.angle, 87_266);
    assert_eq!(light.ambient_color.r, 215_859);
}

#[test]
fn env_light_ambient_alpha_always_full() {
    for brightness in [0u64, 1, 300_000_000, 9_999_999_999] {
        let mut raw = env_light();
        raw.ambient_color_brightness = Ok(ColorBrightness {
            color: SrgbColor { r: 7, g: 200, b: 0 },
            brightness,
        });
        let light = PyEnvLight::new(raw, &LightSettings::default(), 10_000).unwrap();
        assert_eq!(light.ambient_color.a, 1_000_000);
    }
}

#[test]
fn env_light_missing_ambient_fails() {
    let mut raw = env_light();
    raw.ambient_color_brightness = Err(EntityParseError::MissingProperty);
    let err = PyEnvLight::new(raw, &LightSettings::default(), 10_000).unwrap_err();
    assert_eq!(err, EntityParseError::MissingProperty);
}

#[test]
fn sky_camera_broadcasts_scale() {
    let raw = RawSkyCamera {
        id: 3,
        class_name: "sky_camera".to_string(),
        origin: Ok(Vec3 { x: 1_000_000, y: 0, z: -1_000_000 }),
        scale: Ok(16_000_000),
    };
    let camera = PySkyCamera::new(raw, 10_000).unwrap();
    assert_eq!(camera.position, Vec3 { x: 10_000, y: 0, z: -10_000 });
    assert_eq!(camera.scale, Vec3 { x: 16_000_000, y: 16_000_000, z: 16_000_000 });
}

#[test]
fn sky_camera_missing_scale_fails() {
    let raw = RawSkyCamera {
        id: 3,
        class_name: "sky_camera".to_string(),
        origin: Ok(Vec3 { x: 0, y: 0, z: 0 }),
        scale: Err(EntityParseError::InvalidProperty),
    };
    assert_eq!(PySkyCamera::new(raw, 10_000).unwrap_err(), EntityParseError::InvalidProperty);
}

#[test]
fn unknown_entity_never_fails() {
    let raw = RawUnknownEntity {
        id: 21,
        class_name: "func_oddity".to_string(),
        origin: Err(EntityParseError::MissingProperty),
        angles: Err(EntityParseError::InvalidProperty),
        properties: props(),
    };
    let entity = PyUnknownEntity::new(raw, 10_000);
    assert_eq!(entity.position, Vec3 { x: 0, y: 0, z: 0 });
    assert_eq!(entity.rotation, Vec3 { x: 0, y: 0, z: 0 });
    assert_eq!(entity.scale, Vec3 { x: 10_000, y: 10_000, z: 10_000 });
    assert_eq!(entity.class_name(), "func_oddity");
}

#[test]
fn unknown_entity_remaps_rotation() {
    let raw = RawUnknownEntity {
        id: 22,
        class_name: "func_oddity".to_string(),
        origin: Ok(Vec3 { x: 0, y: 0, z: 0 }),
        angles: Ok(Vec3 { x: 10_000_000, y: 20_000_000, z: 30_000_000 }),
        properties: vec![],
    };
    let entity = PyUnknownEntity::new(raw, 10_000);
    // [pitch, yaw, roll] becomes [roll, pitch, yaw] in micro-radians.
    assert_eq!(entity.rotation, Vec3 { x: 523_598, y: 174_532, z: 349_065 });
}

#[test]
fn prop_conversion_is_exact() {
    let raw = RawLoadedProp {
        model: "props/barrel.mdl".to_string(),
        class_name: "prop_static".to_string(),
        id: 31,
        position: Vec3 { x: 5_000, y: 6_000, z: 7_000 },
        rotation: Vec3 { x: 10_000_000, y: 20_000_000, z: 30_000_000 },
        scale: Vec3 { x: 1_000_000, y: 1_000_000, z: 1_000_000 },
        color: SrgbColorAlpha { r: 255, g: 128, b: 0, a: 128 },
        properties: props(),
    };
    let prop = PyLoadedProp::new(raw);
    assert_eq!(prop.model(), "props/barrel.mdl");
    assert_eq!(prop.class_name(), "prop_static");
    // Position is used verbatim: the prop decoder scales it already.
    assert_eq!(prop.position, Vec3 { x: 5_000, y: 6_000, z: 7_000 });
    assert_eq!(prop.rotation, Vec3 { x: 523_598, y: 174_532, z: 349_065 });
    assert_eq!(prop.color.r, 1_000_000);
    assert_eq!(prop.color.g, 215_859);
    assert_eq!(prop.color.b, 0);
    assert_eq!(prop.color.a, 501_960);
}

#[test]
fn prop_properties_taken_once() {
    let raw = RawLoadedProp {
        model: String::new(),
        class_name: String::new(),
        id: 0,
        position: Vec3 { x: 0, y: 0, z: 0 },
        rotation: Vec3 { x: 0, y: 0, z: 0 },
        scale: Vec3 { x: 0, y: 0, z: 0 },
        color: SrgbColorAlpha { r: 0, g: 0, b: 0, a: 0 },
        properties: props(),
    };
    let mut prop = PyLoadedProp::new(raw);
    assert_eq!(prop.properties().len(), 2);
    assert!(prop.properties().is_empty());
}

#[test]
fn light_settings_defaults() {
    let s = LightSettings::default();
    assert_eq!(s.light_factor, 100_000);
    assert_eq!(s.sun_factor, 10_000);
    assert_eq!(s.ambient_factor, 1_000);
}
