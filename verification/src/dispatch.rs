//! The dispatch protocol: a tagged envelope over every asset kind, a
//! multi-producer single-consumer channel carrying envelopes, and the
//! handler facade that filters, converts and sends each decode result.
//!
//! Errors never propagate past the handler: a failed decode or conversion is
//! reported in the returned [`Disposition`] so the caller can log it, and
//! the asset is dropped.  A send that fails because the consumer is gone is
//! a broken lifecycle invariant; it is reported as
//! [`Disposition::Disconnected`], which the enclosing worker must treat as
//! fatal rather than ignore.

use vstd::prelude::*;

use crate::entities::{
    entity_input_wf, env_light_new_spec, light_new_spec, light_settings_wf, sky_camera_new_spec,
    spot_light_new_spec, unknown_entity_new_spec, EntityInput, EntityParseError, LightSettings,
    PyEnvLight, PyLight, PyLoadedProp, PySkyCamera, PySpotLight, PyUnknownEntity,
};
use crate::units::MAX_MICRO;

verus! {

/// A material that the out-of-scope material decoder has already built;
/// passed through under its name.
#[derive(Debug)]
pub struct Material {
    pub name: String,
}

/// A decoded texture, passed through under its name.
#[derive(Debug)]
pub struct Texture {
    pub name: String,
}

/// A decoded model, passed through under its name.
#[derive(Debug)]
pub struct PyModel {
    pub name: String,
}

/// A built brush entity, passed through under its id.
#[derive(Clone, Copy, Debug, PartialEq, Eq, Structural)]
pub struct PyBuiltBrushEntity {
    pub id: i32,
}

/// A built overlay, passed through under its id.
#[derive(Clone, Copy, Debug, PartialEq, Eq, Structural)]
pub struct PyBuiltOverlay {
    pub id: i32,
}

/// A decoded equirectangular sky image, passed through under its name.
#[derive(Debug)]
pub struct PySkyEqui {
    pub name: String,
}

/// An error of the out-of-scope decoding layer, carried only for
/// diagnostics.
#[derive(Debug)]
pub struct DecodeError {
    pub message: String,
}

/// The tagged envelope delivered through the channel: one variant per asset
/// kind.
#[derive(Debug)]
pub enum Message {
    Material(Material),
    Texture(Texture),
    Model(PyModel),
    Brush(PyBuiltBrushEntity),
    Overlay(PyBuiltOverlay),
    Prop(PyLoadedProp),
    Light(PyLight),
    SpotLight(PySpotLight),
    EnvLight(PyEnvLight),
    SkyCamera(PySkyCamera),
    SkyEqui(PySkyEqui),
    UnknownEntity(PyUnknownEntity),
}

/// A displayable identifier: name-keyed kinds render as a string, id-keyed
/// kinds as an integer.
#[derive(Debug)]
pub enum MessageId {
    Str(String),
    Int(i32),
}

/// The fixed kind label of each envelope variant.
pub open spec fn kind_spec(m: Message) -> Seq<char> {
    match m {
        Message::Material(_) => "material"@,
        Message::Texture(_) => "texture"@,
        Message::Model(_) => "model"@,
        Message::Brush(_) => "brush"@,
        Message::Overlay(_) => "overlay"@,
        Message::Prop(_) => "prop"@,
        Message::Light(_) => "light"@,
        Message::SpotLight(_) => "spot light"@,
        Message::EnvLight(_) => "env light"@,
        Message::SkyCamera(_) => "sky camera"@,
        Message::SkyEqui(_) => "sky equi"@,
        Message::UnknownEntity(_) => "unknown entity"@,
    }
}

/// The display identifier of each envelope variant: the name for material,
/// texture, model and sky image envelopes, the stable integer id for the
/// rest.
pub open spec fn id_spec(m: Message) -> MessageId {
    match m {
        Message::Material(v) => MessageId::Str(v.name),
        Message::Texture(v) => MessageId::Str(v.name),
        Message::Model(v) => MessageId::Str(v.name),
        Message::Brush(v) => MessageId::Int(v.id),
        Message::Overlay(v) => MessageId::Int(v.id),
        Message::Prop(v) => MessageId::Int(v.id),
        Message::Light(v) => MessageId::Int(v.id),
        Message::SpotLight(v) => MessageId::Int(v.id),
        Message::EnvLight(v) => MessageId::Int(v.id),
        Message::SkyCamera(v) => MessageId::Int(v.id),
        Message::SkyEqui(v) => MessageId::Str(v.name),
        Message::UnknownEntity(v) => MessageId::Int(v.id),
    }
}

impl Message {
    /// The human-readable kind label used for logging.
    pub fn kind(&self) -> (r: &'static str)
        ensures
            r@ == kind_spec(*self),
    {
        match self {
            Message::Material(_) => "material",
            Message::Texture(_) => "texture",
            Message::Model(_) => "model",
            Message::Brush(_) => "brush",
            Message::Overlay(_) => "overlay",
            Message::Prop(_) => "prop",
            Message::Light(_) => "light",
            Message::SpotLight(_) => "spot light",
            Message::EnvLight(_) => "env light",
            Message::SkyCamera(_) => "sky camera",
            Message::SkyEqui(_) => "sky equi",
            Message::UnknownEntity(_) => "unknown entity",
        }
    }

    /// The display identifier: the name for material, texture, model and sky
    /// image envelopes, the stable integer id for the rest.
    pub fn id(&self) -> (r: MessageId)
        ensures
            r == id_spec(*self),
    {
        match self {
            Message::Material(v) => MessageId::Str(v.name.clone()),
            Message::Texture(v) => MessageId::Str(v.name.clone()),
            Message::Model(v) => MessageId::Str(v.name.clone()),
            Message::Brush(v) => MessageId::Int(v.id),
            Message::Overlay(v) => MessageId::Int(v.id),
            Message::Prop(v) => MessageId::Int(v.id),
            Message::Light(v) => MessageId::Int(v.id),
            Message::SpotLight(v) => MessageId::Int(v.id),
            Message::EnvLight(v) => MessageId::Int(v.id),
            Message::SkyCamera(v) => MessageId::Int(v.id),
            Message::SkyEqui(v) => MessageId::Str(v.name.clone()),
            Message::UnknownEntity(v) => MessageId::Int(v.id),
        }
    }
}

/// Process-wide import settings, immutable once constructed.
#[derive(Clone, Copy, Debug)]
pub struct HandlerSettings {
    pub import_lights: bool,
    pub light: LightSettings,
    pub import_sky_camera: bool,
    pub sky_equi_height: Option<u32>,
    pub scale: u64,
    pub target_fps: u64,
    pub remove_animations: bool,
    pub import_unknown_entities: bool,
}

pub open spec fn handler_settings_wf(s: HandlerSettings) -> bool {
    light_settings_wf(s.light) && s.scale <= MAX_MICRO
}

impl Default for HandlerSettings {
    /// Light and sky-camera import on, unknown-entity import off, a global
    /// scale of 0.01 and a target frame rate of 30, all in micro-units.
    fn default() -> (r: Self)
        ensures
            r.import_lights == true,
            r.light == (LightSettings {
                light_factor: 100_000u64,
                sun_factor: 10_000u64,
                ambient_factor: 1_000u64,
            }),
            r.import_sky_camera == true,
            r.sky_equi_height is None,
            r.scale == 10_000,
            r.target_fps == 30_000_000,
            r.remove_animations == false,
            r.import_unknown_entities == false,
            handler_settings_wf(r),
    {
        HandlerSettings {
            import_lights: true,
            light: LightSettings::default(),
            import_sky_camera: true,
            sky_equi_height: None,
            scale: 10_000,
            target_fps: 30_000_000,
            remove_animations: false,
            import_unknown_entities: false,
        }
    }
}

#[verifier::external_type_specification]
#[verifier::external_body]
#[verifier::reject_recursive_types(T)]
pub struct ExSender<T>(crossbeam_channel::Sender<T>);

#[verifier::external_type_specification]
#[verifier::external_body]
#[verifier::reject_recursive_types(T)]
pub struct ExReceiver<T>(crossbeam_channel::Receiver<T>);

/// Relies on crossbeam_channel::unbounded: yields a connected sender and
/// receiver for a channel of unbounded capacity that accepts concurrent
/// senders.
#[verifier::external_body]
pub fn message_channel() -> (crossbeam_channel::Sender<Message>, crossbeam_channel::Receiver<
    Message,
>) {
    crossbeam_channel::unbounded()
}

/// Relies on crossbeam_channel::Sender::send: on an unbounded channel the
/// call succeeds unless every receiver is gone, and on failure the message
/// comes back unchanged inside the error.
#[verifier::external_body]
fn send_message(sender: &crossbeam_channel::Sender<Message>, msg: Message) -> (r: Result<
    (),
    Message,
>)
    ensures
        r matches Err(back) ==> back == msg,
{
    match sender.send(msg) {
        Ok(()) => Ok(()),
        Err(e) => Err(e.0),
    }
}

/// Relies on crossbeam_channel::Sender::clone: yields another sending
/// handle to the same channel, safe to hand to another worker.
#[verifier::external_body]
fn clone_sender(sender: &crossbeam_channel::Sender<Message>) -> (r: crossbeam_channel::Sender<
    Message,
>) {
    sender.clone()
}

/// Relies on crossbeam_channel::Receiver::recv: blocks for the next
/// message; yields nothing only once the channel is empty and every sender
/// is gone.
#[verifier::external_body]
pub fn recv_message(receiver: &crossbeam_channel::Receiver<Message>) -> (r: Option<Message>) {
    match receiver.recv() {
        Ok(m) => Some(m),
        Err(_) => None,
    }
}

/// What the handler did with one decode result.
#[derive(Debug)]
pub enum Disposition {
    /// Converted and delivered to the channel.
    Sent,
    /// Dropped silently because a settings flag disables the kind, or
    /// because the decoder yielded no data for it.
    Filtered,
    /// The conversion routine rejected the entity; log and drop.
    ParseFailed(EntityParseError),
    /// The out-of-scope decoder failed; log and drop.
    DecodeFailed(DecodeError),
    /// The consumer is gone: the lifecycle invariant is broken and the
    /// enclosing worker must abort.
    Disconnected,
}

/// The per-worker facade: shares the channel's sending half and the
/// immutable settings.
pub struct BlenderAssetHandler {
    pub sender: crossbeam_channel::Sender<Message>,
    pub settings: HandlerSettings,
}

/// What the settings-driven filter and conversion decided for one decoded
/// entity, before anything touches the channel.
#[derive(Debug)]
pub enum Routing {
    /// Wrap this envelope and send it.
    Deliver(Message),
    /// The settings disable this kind: drop silently.
    Filtered,
    /// The conversion routine rejected the entity: log and drop.
    ParseFailed(EntityParseError),
}

/// The complete filter-and-convert state machine over one decoded entity:
/// each kind consults its settings flag, then its conversion routine; no
/// kind influences another.
pub open spec fn route_spec(entity: EntityInput, settings: HandlerSettings) -> Routing {
    match entity {
        EntityInput::Light(l) => if !settings.import_lights {
            Routing::Filtered
        } else {
            match light_new_spec(l, settings.light, settings.scale as int) {
                Result::Ok(v) => Routing::Deliver(Message::Light(v)),
                Result::Err(e) => Routing::ParseFailed(e),
            }
        },
        EntityInput::SpotLight(l) => if !settings.import_lights {
            Routing::Filtered
        } else {
            match spot_light_new_spec(l, settings.light, settings.scale as int) {
                Result::Ok(v) => Routing::Deliver(Message::SpotLight(v)),
                Result::Err(e) => Routing::ParseFailed(e),
            }
        },
        EntityInput::EnvLight(l) => if !settings.import_lights {
            Routing::Filtered
        } else {
            match env_light_new_spec(l, settings.light, settings.scale as int) {
                Result::Ok(v) => Routing::Deliver(Message::EnvLight(v)),
                Result::Err(e) => Routing::ParseFailed(e),
            }
        },
        EntityInput::SkyCamera(c) => if !settings.import_sky_camera {
            Routing::Filtered
        } else {
            match sky_camera_new_spec(c, settings.scale as int) {
                Result::Ok(v) => Routing::Deliver(Message::SkyCamera(v)),
                Result::Err(e) => Routing::ParseFailed(e),
            }
        },
        EntityInput::Unknown(u) => if !settings.import_unknown_entities {
            Routing::Filtered
        } else {
            Routing::Deliver(
                Message::UnknownEntity(unknown_entity_new_spec(u, settings.scale as int)),
            )
        },
    }
}

/// Filter and convert one decoded entity without sending it.
pub fn route(entity: EntityInput, settings: &HandlerSettings) -> (r: Routing)
    requires
        entity_input_wf(entity),
        handler_settings_wf(*settings),
    ensures
        r == route_spec(entity, *settings),
{
    match entity {
        EntityInput::Light(l) => {
            if !settings.import_lights {
                return Routing::Filtered;
            }
            match PyLight::new(l, &settings.light, settings.scale) {
                Ok(light) => Routing::Deliver(Message::Light(light)),
                Err(e) => Routing::ParseFailed(e),
            }
        },
        EntityInput::SpotLight(l) => {
            if !settings.import_lights {
                return Routing::Filtered;
            }
            match PySpotLight::new(l, &settings.light, settings.scale) {
                Ok(light) => Routing::Deliver(Message::SpotLight(light)),
                Err(e) => Routing::ParseFailed(e),
            }
        },
        EntityInput::EnvLight(l) => {
            if !settings.import_lights {
                return Routing::Filtered;
            }
            match PyEnvLight::new(l, &settings.light, settings.scale) {
                Ok(light) => Routing::Deliver(Message::EnvLight(light)),
                Err(e) => Routing::ParseFailed(e),
            }
        },
        EntityInput::SkyCamera(c) => {
            if !settings.import_sky_camera {
                return Routing::Filtered;
            }
            match PySkyCamera::new(c, settings.scale) {
                Ok(camera) => Routing::Deliver(Message::SkyCamera(camera)),
                Err(e) => Routing::ParseFailed(e),
            }
        },
        EntityInput::Unknown(u) => {
            if !settings.import_unknown_entities {
                return Routing::Filtered;
            }
            Routing::Deliver(Message::UnknownEntity(PyUnknownEntity::new(u, settings.scale)))
        },
    }
}

impl BlenderAssetHandler {
    /// Another facade over the same channel and the same settings, for a
    /// further worker: the sending half is shared, the settings are copied.
    pub fn duplicate(&self) -> (h: Self)
        ensures
            h.settings == self.settings,
    {
        BlenderAssetHandler { sender: clone_sender(&self.sender), settings: self.settings }
    }

    fn send_asset(&self, asset: Message) -> (ok: bool) {
        match send_message(&self.sender, asset) {
            Ok(()) => true,
            Err(_) => false,
        }
    }

    /// Route one decoded entity: apply the settings filter for its kind,
    /// convert, and send the envelope that `route_spec` determines; a
    /// conversion error is reported and the entity dropped.
    pub fn handle(&self, entity: EntityInput) -> (d: Disposition)
        requires
            entity_input_wf(entity),
            handler_settings_wf(self.settings),
        ensures
            ({
                match route_spec(entity, self.settings) {
                    Routing::Deliver(_) => d == Disposition::Sent || d
                        == Disposition::Disconnected,
                    Routing::Filtered => d == Disposition::Filtered,
                    Routing::ParseFailed(e) => d == Disposition::ParseFailed(e),
                }
            }),
    {
        match route(entity, &self.settings) {
            Routing::Deliver(envelope) => self.deliver(envelope),
            Routing::Filtered => Disposition::Filtered,
            Routing::ParseFailed(e) => Disposition::ParseFailed(e),
        }
    }

    fn deliver(&self, asset: Message) -> (d: Disposition)
        ensures
            d == Disposition::Sent || d == Disposition::Disconnected,
    {
        if self.send_asset(asset) {
            Disposition::Sent
        } else {
            Disposition::Disconnected
        }
    }

    /// A decoded material: nothing is sent when the decoder yielded no
    /// material data for the name.
    pub fn handle_material(&self, output: Result<Option<Material>, DecodeError>) -> (d: Disposition)
        ensures
            output matches Err(e) ==> d == Disposition::DecodeFailed(e),
            output matches Ok(m) && m is None ==> d == Disposition::Filtered,
            output matches Ok(m) && m is Some ==> d == Disposition::Sent || d
                == Disposition::Disconnected,
    {
        match output {
            Ok(Some(material)) => self.deliver(Message::Material(material)),
            Ok(None) => Disposition::Filtered,
            Err(e) => Disposition::DecodeFailed(e),
        }
    }

    /// A decoded texture: sent unconditionally on success.
    pub fn handle_texture(&self, output: Result<Texture, DecodeError>) -> (d: Disposition)
        ensures
            output matches Err(e) ==> d == Disposition::DecodeFailed(e),
            output is Ok ==> d == Disposition::Sent || d == Disposition::Disconnected,
    {
        match output {
            Ok(texture) => self.deliver(Message::Texture(texture)),
            Err(e) => Disposition::DecodeFailed(e),
        }
    }

    /// A decoded model: sent unconditionally on success.
    pub fn handle_model(&self, output: Result<PyModel, DecodeError>) -> (d: Disposition)
        ensures
            output matches Err(e) ==> d == Disposition::DecodeFailed(e),
            output is Ok ==> d == Disposition::Sent || d == Disposition::Disconnected,
    {
        match output {
            Ok(model) => self.deliver(Message::Model(model)),
            Err(e) => Disposition::DecodeFailed(e),
        }
    }

    /// A built brush entity: brush building cannot fail, so the envelope is
    /// always sent.
    pub fn handle_brush(&self, brush: PyBuiltBrushEntity) -> (d: Disposition)
        ensures
            d == Disposition::Sent || d == Disposition::Disconnected,
    {
        self.deliver(Message::Brush(brush))
    }

    /// A built overlay: sent unconditionally on success.
    pub fn handle_overlay(&self, output: Result<PyBuiltOverlay, DecodeError>) -> (d: Disposition)
        ensures
            output matches Err(e) ==> d == Disposition::DecodeFailed(e),
            output is Ok ==> d == Disposition::Sent || d == Disposition::Disconnected,
    {
        match output {
            Ok(overlay) => self.deliver(Message::Overlay(overlay)),
            Err(e) => Disposition::DecodeFailed(e),
        }
    }

    /// A decoded prop: prop conversion cannot fail.
    pub fn handle_prop(&self, output: Result<crate::entities::RawLoadedProp, DecodeError>) -> (d:
        Disposition)
        requires
            output matches Ok(p) ==> crate::entities::raw_loaded_prop_wf(p),
        ensures
            output matches Err(e) ==> d == Disposition::DecodeFailed(e),
            output is Ok ==> d == Disposition::Sent || d == Disposition::Disconnected,
    {
        match output {
            Ok(prop) => self.deliver(Message::Prop(PyLoadedProp::new(prop))),
            Err(e) => Disposition::DecodeFailed(e),
        }
    }

    /// A decoded equirectangular sky image: sent unconditionally on success.
    pub fn handle_sky_equi(&self, output: Result<PySkyEqui, DecodeError>) -> (d: Disposition)
        ensures
            output matches Err(e) ==> d == Disposition::DecodeFailed(e),
            output is Ok ==> d == Disposition::Sent || d == Disposition::Disconnected,
    {
        match output {
            Ok(equi) => self.deliver(Message::SkyEqui(equi)),
            Err(e) => Disposition::DecodeFailed(e),
        }
    }
}

} // verus!
