use plumber::dispatch::{
    message_channel, recv_message, BlenderAssetHandler, DecodeError, Disposition, HandlerSettings,
    Material, Message, MessageId, PyBuiltBrushEntity, PyBuiltOverlay, PyModel, PySkyEqui, Texture,
};
use plumber::entities::{
    ColorBrightness, EntityInput, EntityParseError, LightSettings, PyLight, PySkyCamera,
    PyUnknownEntity, RawLight, RawSkyCamera, RawUnknownEntity, SrgbColor, Vec3,
};

fn valid_light(id: i32) -> RawLight {
    RawLight {
        id,
        class_name: "light".to_string(),
        hdr_color_brightness: Ok(None),
        hdr_scale: Err(EntityParseError::MissingProperty),
        color_brightness: Ok(ColorBrightness {
            color: SrgbColor { r: 255, g: 255, b: 255 },
            brightness: 200_000_000,
        }),
        origin: Ok(Vec3 { x: 0, y: 0, z: 0 }),
        properties: vec![],
    }
}

fn unknown_entity(id: i32) -> RawUnknownEntity {
    RawUnknownEntity {
        id,
        class_name: "func_oddity".to_string(),
        origin: Err(EntityParseError::MissingProperty),
        angles: Err(EntityParseError::InvalidProperty),
        properties: vec![],
    }
}

#[test]
fn stream_with_one_valid_light_yields_one_envelope() {
    // One valid point light, one light missing its origin, one entity of an
    // unrecognized class with unknown-entity import disabled: exactly one
    // envelope of kind "light" comes out of the channel.
    let (sender, receiver) = message_channel();
    let handler = BlenderAssetHandler { sender, settings: HandlerSettings::default() };

    let d1 = handler.handle(EntityInput::Light(valid_light(1)));
    assert!(matches!(d1, Disposition::Sent));

    let mut broken = valid_light(2);
    broken.origin = Err(EntityParseError::MissingProperty);
    let d2 = handler.handle(EntityInput::Light(broken));
    match d2 {
        Disposition::ParseFailed(e) => assert_eq!(e, EntityParseError::MissingProperty),
        _ => panic!("malformed light must report a parse failure"),
    }

    let d3 = handler.handle(EntityInput::Unknown(unknown_entity(3)));
    assert!(matches!(d3, Disposition::Filtered));

    drop(handler);
    let first = recv_message(&receiver).expect("one envelope must arrive");
    assert_eq!(first.kind(), "light");
    match first.id() {
        MessageId::Int(id) => assert_eq!(id, 1),
        MessageId::Str(_) => panic!("lights are id-keyed"),
    }
    assert!(recv_message(&receiver).is_none(), "no further envelope may arrive");
}

#[test]
fn malformed_unknown_entity_never_fails_when_enabled() {
    let (sender, receiver) = message_channel();
    let mut settings = HandlerSettings::default();
    settings.import_unknown_entities = true;
    let handler = BlenderAssetHandler { sender, settings };

    let d = handler.handle(EntityInput::Unknown(unknown_entity(4)));
    assert!(matches!(d, Disposition::Sent));

    drop(handler);
    let envelope = recv_message(&receiver).expect("the unknown entity must arrive");
    assert_eq!(envelope.kind(), "unknown entity");
    match envelope {
        Message::UnknownEntity(e) => {
            assert_eq!(e.position, Vec3 { x: 0, y: 0, z: 0 });
            assert_eq!(e.rotation, Vec3 { x: 0, y: 0, z: 0 });
        }
        _ => panic!("wrong envelope variant"),
    }
}

#[test]
fn lights_filtered_when_import_disabled() {
    let (sender, receiver) = message_channel();
    let mut settings = HandlerSettings::default();
    settings.import_lights = false;
    let handler = BlenderAssetHandler { sender, settings };

    let d = handler.handle(EntityInput::Light(valid_light(5)));
    assert!(matches!(d, Disposition::Filtered));

    drop(handler);
    assert!(recv_message(&receiver).is_none());
}

#[test]
fn send_after_receiver_gone_reports_disconnect() {
    let (sender, receiver) = message_channel();
    drop(receiver);
    let handler = BlenderAssetHandler { sender, settings: HandlerSettings::default() };
    let d = handler.handle(EntityInput::Light(valid_light(6)));
    assert!(matches!(d, Disposition::Disconnected));
}

#[test]
fn pass_through_kinds_sent_unconditionally() {
    let (sender, receiver) = message_channel();
    let handler = BlenderAssetHandler { sender, settings: HandlerSettings::default() };

    let d = handler.handle_texture(Ok(Texture { name: "concrete/wall".to_string() }));
    assert!(matches!(d, Disposition::Sent));
    let d = handler.handle_brush(PyBuiltBrushEntity { id: 44 });
    assert!(matches!(d, Disposition::Sent));
    let d = handler.handle_model(Err(DecodeError { message: "bad header".to_string() }));
    match d {
        Disposition::DecodeFailed(e) => assert_eq!(e.message, "bad header"),
        _ => panic!("a decode failure must be reported"),
    }

    drop(handler);
    let first = recv_message(&receiver).unwrap();
    assert_eq!(first.kind(), "texture");
    match first.id() {
        MessageId::Str(name) => assert_eq!(name, "concrete/wall"),
        MessageId::Int(_) => panic!("textures are name-keyed"),
    }
    let second = recv_message(&receiver).unwrap();
    assert_eq!(second.kind(), "brush");
    match second.id() {
        MessageId::Int(id) => assert_eq!(id, 44),
        MessageId::Str(_) => panic!("brushes are id-keyed"),
    }
    assert!(recv_message(&receiver).is_none());
}

#[test]
fn material_without_data_is_dropped_silently() {
    let (sender, receiver) = message_channel();
    let handler = BlenderAssetHandler { sender, settings: HandlerSettings::default() };
    let d = handler.handle_material(Ok(None));
    assert!(matches!(d, Disposition::Filtered));
    let d = handler.handle_material(Ok(Some(Material { name: "metal/rust".to_string() })));
    assert!(matches!(d, Disposition::Sent));
    drop(handler);
    assert_eq!(recv_message(&receiver).unwrap().kind(), "material");
    assert!(recv_message(&receiver).is_none());
}

#[test]
fn every_message_kind_has_its_label_and_id_keying() {
    let light = PyLight::new(valid_light(1), &LightSettings::default(), 10_000).unwrap();
    let spot = plumber::entities::PySpotLight::new(
        plumber::entities::RawSpotLight {
            id: 2,
            class_name: "light_spot".to_string(),
            hdr_color_brightness: Ok(None),
            hdr_scale: Err(EntityParseError::MissingProperty),
            color_brightness: Ok(ColorBrightness {
                color: SrgbColor { r: 0, g: 0, b: 0 },
                brightness: 0,
            }),
            outer_cone: Ok(45_000_000),
            inner_cone: Ok(30_000_000),
            origin: Ok(Vec3 { x: 0, y: 0, z: 0 }),
            angles: Ok(Vec3 { x: 0, y: 0, z: 0 }),
            properties: vec![],
        },
        &LightSettings::default(),
        10_000,
    )
    .unwrap();
    let camera = PySkyCamera::new(
        RawSkyCamera {
            id: 3,
            class_name: "sky_camera".to_string(),
            origin: Ok(Vec3 { x: 0, y: 0, z: 0 }),
            scale: Ok(16_000_000),
        },
        10_000,
    )
    .unwrap();
    let unknown = PyUnknownEntity::new(unknown_entity(4), 10_000);
    let prop = plumber::entities::PyLoadedProp::new(plumber::entities::RawLoadedProp {
        model: String::new(),
        class_name: String::new(),
        id: 5,
        position: Vec3 { x: 0, y: 0, z: 0 },
        rotation: Vec3 { x: 0, y: 0, z: 0 },
        scale: Vec3 { x: 0, y: 0, z: 0 },
        color: plumber::entities::SrgbColorAlpha { r: 0, g: 0, b: 0, a: 0 },
        properties: vec![],
    });
    let env = plumber::entities::PyEnvLight::new(
        plumber::entities::RawEnvLight {
            id: 6,
            class_name: "light_environment".to_string(),
            hdr_color_brightness: Ok(None),
            hdr_scale: Err(EntityParseError::MissingProperty),
            color_brightness: Ok(ColorBrightness {
                color: SrgbColor { r: 0, g: 0, b: 0 },
                brightness: 0,
            }),
            ambient_hdr_color_brightness: Ok(None),
            ambient_hdr_scale: Err(EntityParseError::MissingProperty),
            ambient_color_brightness: Ok(ColorBrightness {
                color: SrgbColor { r: 0, g: 0, b: 0 },
                brightness: 0,
            }),
            sun_spread_angle: Ok(0),
            origin: Ok(Vec3 { x: 0, y: 0, z: 0 }),
            angles: Ok(Vec3 { x: 0, y: 0, z: 0 }),
            properties: vec![],
        },
        &LightSettings::default(),
        10_000,
    )
    .unwrap();

    let cases: Vec<(Message, &str, bool)> = vec![
        (Message::Material(Material { name: "n".to_string() }), "material", false),
        (Message::Texture(Texture { name: "n".to_string() }), "texture", false),
        (Message::Model(PyModel { name: "n".to_string() }), "model", false),
        (Message::Brush(PyBuiltBrushEntity { id: 7 }), "brush", true),
        (Message::Overlay(PyBuiltOverlay { id: 8 }), "overlay", true),
        (Message::Prop(prop), "prop", true),
        (Message::Light(light), "light", true),
        (Message::SpotLight(spot), "spot light", true),
        (Message::EnvLight(env), "env light", true),
        (Message::SkyCamera(camera), "sky camera", true),
        (Message::SkyEqui(PySkyEqui { name: "n".to_string() }), "sky equi", false),
        (Message::UnknownEntity(unknown), "unknown entity", true),
    ];
    for (message, label, id_keyed) in cases {
        assert_eq!(message.kind(), label);
        match message.id() {
            MessageId::Int(_) => assert!(id_keyed, "{label} must be name-keyed"),
            MessageId::Str(_) => assert!(!id_keyed, "{label} must be id-keyed"),
        }
    }
}

#[test]
fn duplicated_handlers_share_the_channel() {
    let (sender, receiver) = message_channel();
    let first = BlenderAssetHandler { sender, settings: HandlerSettings::default() };
    let second = first.duplicate();
    assert!(matches!(first.handle(EntityInput::Light(valid_light(1))), Disposition::Sent));
    assert!(matches!(second.handle(EntityInput::Light(valid_light(2))), Disposition::Sent));
    drop(first);
    // The channel stays open while any sender lives.
    assert!(recv_message(&receiver).is_some());
    drop(second);
    assert!(recv_message(&receiver).is_some());
    assert!(recv_message(&receiver).is_none());
}

#[test]
fn route_pins_the_envelope_content() {
    let settings = HandlerSettings::default();
    match plumber::dispatch::route(EntityInput::Light(valid_light(17)), &settings) {
        plumber::dispatch::Routing::Deliver(Message::Light(light)) => {
            assert_eq!(light.id, 17);
            assert_eq!(light.energy, 20_000_000);
        }
        _ => panic!("a valid light must be delivered as a light envelope"),
    }
    match plumber::dispatch::route(EntityInput::Unknown(unknown_entity(18)), &settings) {
        plumber::dispatch::Routing::Filtered => {}
        _ => panic!("unknown entities are filtered by default"),
    }
}

#[test]
fn handler_settings_defaults() {
    let s = HandlerSettings::default();
    assert!(s.import_lights);
    assert!(s.import_sky_camera);
    assert!(!s.import_unknown_entities);
    assert!(!s.remove_animations);
    assert_eq!(s.scale, 10_000);
    assert_eq!(s.target_fps, 30_000_000);
    assert_eq!(s.sky_equi_height, None);
}
