//! Normalized value objects for decoded world entities, and the conversion
//! routines that build them.
//!
//! The upstream decoding layer is out of scope: it hands each routine a raw
//! record whose fields are the results of the per-property lookups (each
//! either a plain value or the parse error the lookup produced), with all
//! scalars already expressed in micro-units (see `units`).  The routines here
//! apply the settings-driven math — HDR-preferred brightness resolution,
//! sRGB linearization, unit scaling, rotation remapping — and either return
//! the finished value object or the first lookup error, in the same order in
//! which the lookups are consulted.

use vstd::prelude::*;

use crate::srgb::{srgb8_to_linear, srgb_micro};
use crate::units::{
    alpha_micro, alpha_micro_spec, deg_to_rad_micro, deg_to_rad_spec, lemma_bounded_product,
    mul_micro, mul_micro_spec, scale_micro, scale_micro_spec, MAX_BRIGHT, MAX_FACTOR, MAX_MICRO,
    MICRO,
};

verus! {

/// A malformed or missing required property on an otherwise recognized
/// entity.  Produced by the out-of-scope property lookups and forwarded
/// unchanged by the conversion routines.
#[derive(Clone, Copy, Debug, PartialEq, Eq, Structural)]
pub enum EntityParseError {
    /// The required property is absent.
    MissingProperty,
    /// The property is present but cannot be read as the expected type.
    InvalidProperty,
}

/// A three-component vector of micro-unit scalars.
#[derive(Clone, Copy, Debug, PartialEq, Eq, Structural)]
pub struct Vec3 {
    pub x: i64,
    pub y: i64,
    pub z: i64,
}

/// An sRGB-encoded color as it appears in the source data, one byte per
/// channel.
#[derive(Clone, Copy, Debug, PartialEq, Eq, Structural)]
pub struct SrgbColor {
    pub r: u8,
    pub g: u8,
    pub b: u8,
}

/// A linear-space color in micro-units per channel.
#[derive(Clone, Copy, Debug, PartialEq, Eq, Structural)]
pub struct LinearColor {
    pub r: u32,
    pub g: u32,
    pub b: u32,
}

/// A linear-space color with an alpha channel, micro-units per component.
#[derive(Clone, Copy, Debug, PartialEq, Eq, Structural)]
pub struct LinearColorAlpha {
    pub r: u32,
    pub g: u32,
    pub b: u32,
    pub a: u32,
}

/// A color/brightness pair as read from a light entity (sRGB color plus a
/// micro-unit brightness scalar).
#[derive(Clone, Copy, Debug, PartialEq, Eq, Structural)]
pub struct ColorBrightness {
    pub color: SrgbColor,
    pub brightness: u64,
}

/// Non-negative micro-unit multipliers applied to light brightnesses.
#[derive(Clone, Copy, Debug, PartialEq, Eq, Structural)]
pub struct LightSettings {
    pub light_factor: u64,
    pub sun_factor: u64,
    pub ambient_factor: u64,
}

impl Default for LightSettings {
    /// Defaults of 0.1, 0.01 and 0.001 whole units.
    fn default() -> (r: Self)
        ensures
            r.light_factor == 100_000,
            r.sun_factor == 10_000,
            r.ambient_factor == 1_000,
    {
        LightSettings { light_factor: 100_000, sun_factor: 10_000, ambient_factor: 1_000 }
    }
}

pub open spec fn light_settings_wf(s: LightSettings) -> bool {
    s.light_factor <= MAX_FACTOR && s.sun_factor <= MAX_FACTOR && s.ambient_factor <= MAX_FACTOR
}

pub open spec fn vec3_wf(v: Vec3) -> bool {
    &&& -(MAX_MICRO as int) <= v.x <= MAX_MICRO as int
    &&& -(MAX_MICRO as int) <= v.y <= MAX_MICRO as int
    &&& -(MAX_MICRO as int) <= v.z <= MAX_MICRO as int
}

/// Linearize each channel of an sRGB color.
pub open spec fn linear_color_spec(c: SrgbColor) -> LinearColor {
    LinearColor {
        r: srgb_micro(c.r as int) as u32,
        g: srgb_micro(c.g as int) as u32,
        b: srgb_micro(c.b as int) as u32,
    }
}

pub fn linear_color(c: SrgbColor) -> (r: LinearColor)
    ensures
        r == linear_color_spec(c),
{
    LinearColor { r: srgb8_to_linear(c.r), g: srgb8_to_linear(c.g), b: srgb8_to_linear(c.b) }
}

/// Scale each component of a position by the global micro-unit scale.
pub open spec fn scale_vec_spec(v: Vec3, s: int) -> Vec3 {
    Vec3 {
        x: scale_micro_spec(v.x as int, s) as i64,
        y: scale_micro_spec(v.y as int, s) as i64,
        z: scale_micro_spec(v.z as int, s) as i64,
    }
}

pub fn scale_vec(v: Vec3, s: u64) -> (r: Vec3)
    requires
        vec3_wf(v),
        s <= MAX_MICRO,
    ensures
        r == scale_vec_spec(v, s as int),
{
    Vec3 { x: scale_micro(v.x, s), y: scale_micro(v.y, s), z: scale_micro(v.z, s) }
}

/// The non-directional rotation remap: input Euler angles
/// `[pitch, yaw, roll]` in micro-degrees become `[roll, pitch, yaw]` in
/// micro-radians.  Used for props and unknown entities, which have no
/// default pointing direction to reconcile.
pub open spec fn entity_rotation_spec(r: Vec3) -> Vec3 {
    Vec3 {
        x: deg_to_rad_spec(r.z as int) as i64,
        y: deg_to_rad_spec(r.x as int) as i64,
        z: deg_to_rad_spec(r.y as int) as i64,
    }
}

pub fn entity_rotation(r: Vec3) -> (out: Vec3)
    requires
        vec3_wf(r),
    ensures
        out == entity_rotation_spec(r),
{
    Vec3 { x: deg_to_rad_micro(r.z), y: deg_to_rad_micro(r.x), z: deg_to_rad_micro(r.y) }
}

/// The axis remap that feeds a directional light's source angles
/// `[pitch, yaw, roll]` into the Z-Y-X Euler composition as
/// `(yaw, pitch, roll)`.  The composition itself, and the fixed correction
/// that re-anchors the light's default pointing axis, are floating-point
/// quaternion math applied outside the verified core.
pub fn light_euler_feed_order(angles: Vec3) -> (r: (i64, i64, i64))
    ensures
        r == (angles.y, angles.x, angles.z),
{
    (angles.y, angles.x, angles.z)
}

/// The HDR-preferred resolution shared by every light kind: if the HDR
/// color/brightness lookup yielded a value, its brightness is multiplied by
/// the HDR scale lookup; otherwise the always-present standard pair is used.
/// The first failing lookup consulted wins.
pub open spec fn resolve_color_brightness_spec(
    hdr: Result<Option<ColorBrightness>, EntityParseError>,
    hdr_scale: Result<u64, EntityParseError>,
    ldr: Result<ColorBrightness, EntityParseError>,
) -> Result<ColorBrightness, EntityParseError> {
    match hdr {
        Result::Err(e) => Result::Err(e),
        Result::Ok(opt) => match opt {
            Option::Some(cb) => match hdr_scale {
                Result::Err(e) => Result::Err(e),
                Result::Ok(s) => Result::Ok(
                    ColorBrightness {
                        color: cb.color,
                        brightness: mul_micro_spec(cb.brightness as int, s as int) as u64,
                    },
                ),
            },
            Option::None => ldr,
        },
    }
}

pub open spec fn resolve_wf(
    hdr: Result<Option<ColorBrightness>, EntityParseError>,
    hdr_scale: Result<u64, EntityParseError>,
    ldr: Result<ColorBrightness, EntityParseError>,
) -> bool {
    &&& (hdr matches Result::Ok(opt) ==> (opt matches Option::Some(cb) ==> cb.brightness
        <= MAX_BRIGHT))
    &&& (hdr_scale matches Result::Ok(s) ==> s <= MAX_BRIGHT)
    &&& (ldr matches Result::Ok(cb) ==> cb.brightness <= MAX_BRIGHT)
}

/// Largest resolved brightness: `MAX_BRIGHT * MAX_BRIGHT / MICRO`.
pub const MAX_RESOLVED: u64 = 100_000_000_000_000;

pub fn resolve_color_brightness(
    hdr: Result<Option<ColorBrightness>, EntityParseError>,
    hdr_scale: Result<u64, EntityParseError>,
    ldr: Result<ColorBrightness, EntityParseError>,
) -> (r: Result<ColorBrightness, EntityParseError>)
    requires
        resolve_wf(hdr, hdr_scale, ldr),
    ensures
        r == resolve_color_brightness_spec(hdr, hdr_scale, ldr),
        r matches Result::Ok(cb) ==> cb.brightness <= MAX_RESOLVED,
{
    match hdr {
        Result::Err(e) => Result::Err(e),
        Result::Ok(opt) => match opt {
            Option::Some(cb) => match hdr_scale {
                Result::Err(e) => Result::Err(e),
                Result::Ok(s) => {
                    proof {
                        lemma_bounded_product(
                            cb.brightness as int,
                            s as int,
                            MAX_BRIGHT as int,
                            MAX_BRIGHT as int,
                        );
                        vstd::arithmetic::div_mod::lemma_div_is_ordered(
                            cb.brightness as int * s as int,
                            MAX_BRIGHT as int * MAX_BRIGHT as int,
                            MICRO as int,
                        );
                    }
                    Result::Ok(
                        ColorBrightness {
                            color: cb.color,
                            brightness: mul_micro(cb.brightness, s),
                        },
                    )
                },
            },
            Option::None => ldr,
        },
    }
}

/// `1 - inner/outer` in micro-units; negative when the inner cone is wider
/// than the outer one.
pub open spec fn spot_blend_spec(inner: int, outer: int) -> int {
    MICRO as int - (inner * (MICRO as int)) / outer
}

pub fn spot_blend(inner: u64, outer: u64) -> (r: i64)
    requires
        inner <= MAX_MICRO,
        0 < outer <= MAX_MICRO,
    ensures
        r == spot_blend_spec(inner as int, outer as int),
{
    proof {
        lemma_bounded_product(inner as int, MICRO as int, MAX_MICRO as int, MICRO as int);
        vstd::arithmetic::div_mod::lemma_div_is_ordered_by_denominator(
            inner as int * MICRO as int,
            1,
            outer as int,
        );
    }
    let q: u64 = inner * MICRO / outer;
    MICRO as i64 - q as i64
}

/// The brightness-to-energy step shared by every light kind: the resolved
/// brightness times the settings factor.
pub fn energy_of(brightness: u64, factor: u64) -> (r: u64)
    requires
        brightness <= MAX_RESOLVED,
        factor <= MAX_FACTOR,
    ensures
        r == mul_micro_spec(brightness as int, factor as int),
{
    proof {
        lemma_bounded_product(
            brightness as int,
            factor as int,
            MAX_RESOLVED as int,
            MAX_FACTOR as int,
        );
    }
    mul_micro(brightness, factor)
}

/// The raw lookup results for a point light, as the out-of-scope decoding
/// layer hands them over.
pub struct RawLight {
    pub id: i32,
    pub class_name: String,
    pub hdr_color_brightness: Result<Option<ColorBrightness>, EntityParseError>,
    pub hdr_scale: Result<u64, EntityParseError>,
    pub color_brightness: Result<ColorBrightness, EntityParseError>,
    pub origin: Result<Vec3, EntityParseError>,
    pub properties: Vec<(String, String)>,
}

pub open spec fn raw_light_wf(l: RawLight) -> bool {
    &&& resolve_wf(l.hdr_color_brightness, l.hdr_scale, l.color_brightness)
    &&& (l.origin matches Result::Ok(o) ==> vec3_wf(o))
}

/// A normalized point light.
#[derive(Debug)]
pub struct PyLight {
    pub color: LinearColor,
    pub energy: u64,
    pub position: Vec3,
    pub id: i32,
    pub properties: Option<Vec<(String, String)>>,
}

/// What `PyLight::new` returns: the HDR-preferred color/brightness
/// resolution, then the origin lookup; the first error wins.  On success the
/// color is linearized, the energy is the resolved brightness times the
/// light factor, and the position is scaled by the global scale.
pub open spec fn light_new_spec(l: RawLight, st: LightSettings, scale: int) -> Result<
    PyLight,
    EntityParseError,
> {
    match resolve_color_brightness_spec(l.hdr_color_brightness, l.hdr_scale, l.color_brightness) {
        Result::Err(e) => Result::Err(e),
        Result::Ok(cb) => match l.origin {
            Result::Err(e) => Result::Err(e),
            Result::Ok(o) => Result::Ok(
                PyLight {
                    color: linear_color_spec(cb.color),
                    energy: mul_micro_spec(cb.brightness as int, st.light_factor as int) as u64,
                    position: scale_vec_spec(o, scale),
                    id: l.id,
                    properties: Option::Some(l.properties),
                },
            ),
        },
    }
}

impl PyLight {
    pub fn new(light: RawLight, settings: &LightSettings, scale: u64) -> (r: Result<
        PyLight,
        EntityParseError,
    >)
        requires
            raw_light_wf(light),
            light_settings_wf(*settings),
            scale <= MAX_MICRO,
        ensures
            r == light_new_spec(light, *settings, scale as int),
    {
        let cb = match resolve_color_brightness(
            light.hdr_color_brightness,
            light.hdr_scale,
            light.color_brightness,
        ) {
            Ok(cb) => cb,
            Err(e) => {
                return Err(e);
            },
        };
        let origin = match light.origin {
            Ok(o) => o,
            Err(e) => {
                return Err(e);
            },
        };
        Ok(
            PyLight {
                color: linear_color(cb.color),
                energy: energy_of(cb.brightness, settings.light_factor),
                position: scale_vec(origin, scale),
                id: light.id,
                properties: Some(light.properties),
            },
        )
    }

    pub fn id(&self) -> (r: i32)
        ensures
            r == self.id,
    {
        self.id
    }

    pub fn position(&self) -> (r: Vec3)
        ensures
            r == self.position,
    {
        self.position
    }

    pub fn color(&self) -> (r: LinearColor)
        ensures
            r == self.color,
    {
        self.color
    }

    pub fn energy(&self) -> (r: u64)
        ensures
            r == self.energy,
    {
        self.energy
    }

    /// Hands the property bag out once: the first call returns the full
    /// mapping, later calls an empty one.
    pub fn properties(&mut self) -> (r: Vec<(String, String)>)
        ensures
            final(self).properties is None,
            old(self).properties matches Some(p) ==> r == p,
            old(self).properties is None ==> r@ == Seq::<(String, String)>::empty(),
            final(self).color == old(self).color,
            final(self).energy == old(self).energy,
            final(self).position == old(self).position,
            final(self).id == old(self).id,
    {
        match self.properties.take() {
            Some(p) => p,
            None => Vec::new(),
        }
    }
}

/// For a light with only the standard color/brightness present (the HDR
/// lookup yields nothing), the energy is exactly the standard brightness
/// times the light factor: no HDR scale enters.
pub proof fn lemma_ldr_energy(
    l: RawLight,
    st: LightSettings,
    scale: int,
    cb: ColorBrightness,
    o: Vec3,
)
    requires
        raw_light_wf(l),
        light_settings_wf(st),
        l.hdr_color_brightness == Result::<Option<ColorBrightness>, EntityParseError>::Ok(
            Option::<ColorBrightness>::None,
        ),
        l.color_brightness == Result::<ColorBrightness, EntityParseError>::Ok(cb),
        l.origin == Result::<Vec3, EntityParseError>::Ok(o),
    ensures
        light_new_spec(l, st, scale) matches Result::Ok(v) && v.energy == mul_micro_spec(
            cb.brightness as int,
            st.light_factor as int,
        ),
{
    lemma_bounded_product(
        cb.brightness as int,
        st.light_factor as int,
        MAX_BRIGHT as int,
        MAX_FACTOR as int,
    );
    vstd::arithmetic::div_mod::lemma_div_is_ordered(
        cb.brightness as int * st.light_factor as int,
        MAX_BRIGHT as int * MAX_FACTOR as int,
        MICRO as int,
    );
    vstd::arithmetic::div_mod::lemma_div_pos_is_pos(
        cb.brightness as int * st.light_factor as int,
        MICRO as int,
    );
}

/// For a light with HDR color/brightness present, the energy is exactly
/// the HDR brightness times the HDR scale times the light factor.
pub proof fn lemma_hdr_energy(
    l: RawLight,
    st: LightSettings,
    scale: int,
    cb: ColorBrightness,
    hdr_scale: u64,
    o: Vec3,
)
    requires
        raw_light_wf(l),
        light_settings_wf(st),
        l.hdr_color_brightness == Result::<Option<ColorBrightness>, EntityParseError>::Ok(
            Option::Some(cb),
        ),
        l.hdr_scale == Result::<u64, EntityParseError>::Ok(hdr_scale),
        l.origin == Result::<Vec3, EntityParseError>::Ok(o),
    ensures
        light_new_spec(l, st, scale) matches Result::Ok(v) && v.energy == mul_micro_spec(
            mul_micro_spec(cb.brightness as int, hdr_scale as int),
            st.light_factor as int,
        ),
{
    let resolved = mul_micro_spec(cb.brightness as int, hdr_scale as int);
    lemma_bounded_product(
        cb.brightness as int,
        hdr_scale as int,
        MAX_BRIGHT as int,
        MAX_BRIGHT as int,
    );
    vstd::arithmetic::div_mod::lemma_div_is_ordered(
        cb.brightness as int * hdr_scale as int,
        MAX_BRIGHT as int * MAX_BRIGHT as int,
        MICRO as int,
    );
    vstd::arithmetic::div_mod::lemma_div_pos_is_pos(
        cb.brightness as int * hdr_scale as int,
        MICRO as int,
    );
    assert(0 <= resolved <= MAX_RESOLVED);
    assert(resolved as u64 as int == resolved);
    lemma_bounded_product(resolved, st.light_factor as int, MAX_RESOLVED as int, MAX_FACTOR as int);
    vstd::arithmetic::div_mod::lemma_div_is_ordered(
        resolved * st.light_factor as int,
        MAX_RESOLVED as int * MAX_FACTOR as int,
        MICRO as int,
    );
    vstd::arithmetic::div_mod::lemma_div_pos_is_pos(resolved * st.light_factor as int, MICRO as int);
}

/// The raw lookup results for a spot light.
pub struct RawSpotLight {
    pub id: i32,
    pub class_name: String,
    pub hdr_color_brightness: Result<Option<ColorBrightness>, EntityParseError>,
    pub hdr_scale: Result<u64, EntityParseError>,
    pub color_brightness: Result<ColorBrightness, EntityParseError>,
    pub outer_cone: Result<u64, EntityParseError>,
    pub inner_cone: Result<u64, EntityParseError>,
    pub origin: Result<Vec3, EntityParseError>,
    pub angles: Result<Vec3, EntityParseError>,
    pub properties: Vec<(String, String)>,
}

pub open spec fn raw_spot_light_wf(l: RawSpotLight) -> bool {
    &&& resolve_wf(l.hdr_color_brightness, l.hdr_scale, l.color_brightness)
    &&& (l.outer_cone matches Result::Ok(c) ==> c <= MAX_MICRO)
    &&& (l.inner_cone matches Result::Ok(c) ==> c <= MAX_MICRO)
    &&& (l.origin matches Result::Ok(o) ==> vec3_wf(o))
    &&& (l.angles matches Result::Ok(a) ==> vec3_wf(a))
}

/// A normalized spot light.  `rotation` carries the source-space Euler
/// angles in micro-degrees; the floating-point quaternion reconciliation to
/// the target space is applied outside the verified core.
#[derive(Debug)]
pub struct PySpotLight {
    pub color: LinearColor,
    pub energy: u64,
    pub spot_size: u64,
    pub spot_blend: i64,
    pub position: Vec3,
    pub rotation: Vec3,
    pub id: i32,
    pub properties: Option<Vec<(String, String)>>,
}

/// What `PySpotLight::new` returns: the light resolution, then the outer and
/// inner cone lookups (a zero outer cone is a parse error), then origin and
/// angles; the first error wins.  `spot_size` is twice the outer cone
/// half-angle in micro-radians and `spot_blend` is `1 - inner/outer` in
/// micro-units.
pub open spec fn spot_light_new_spec(l: RawSpotLight, st: LightSettings, scale: int) -> Result<
    PySpotLight,
    EntityParseError,
> {
    match resolve_color_brightness_spec(l.hdr_color_brightness, l.hdr_scale, l.color_brightness) {
        Result::Err(e) => Result::Err(e),
        Result::Ok(cb) => match l.outer_cone {
            Result::Err(e) => Result::Err(e),
            Result::Ok(outer) => match l.inner_cone {
                Result::Err(e) => Result::Err(e),
                Result::Ok(inner) => if outer == 0 {
                    Result::Err(EntityParseError::InvalidProperty)
                } else {
                    match l.origin {
                        Result::Err(e) => Result::Err(e),
                        Result::Ok(o) => match l.angles {
                            Result::Err(e) => Result::Err(e),
                            Result::Ok(a) => Result::Ok(
                                PySpotLight {
                                    color: linear_color_spec(cb.color),
                                    energy: mul_micro_spec(
                                        cb.brightness as int,
                                        st.light_factor as int,
                                    ) as u64,
                                    spot_size: (2 * deg_to_rad_spec(outer as int)) as u64,
                                    spot_blend: spot_blend_spec(inner as int, outer as int) as i64,
                                    position: scale_vec_spec(o, scale),
                                    rotation: a,
                                    id: l.id,
                                    properties: Option::Some(l.properties),
                                },
                            ),
                        },
                    }
                },
            },
        },
    }
}

impl PySpotLight {
    pub fn new(light: RawSpotLight, settings: &LightSettings, scale: u64) -> (r: Result<
        PySpotLight,
        EntityParseError,
    >)
        requires
            raw_spot_light_wf(light),
            light_settings_wf(*settings),
            scale <= MAX_MICRO,
        ensures
            r == spot_light_new_spec(light, *settings, scale as int),
    {
        let cb = match resolve_color_brightness(
            light.hdr_color_brightness,
            light.hdr_scale,
            light.color_brightness,
        ) {
            Ok(cb) => cb,
            Err(e) => {
                return Err(e);
            },
        };
        let outer = match light.outer_cone {
            Ok(c) => c,
            Err(e) => {
                return Err(e);
            },
        };
        let inner = match light.inner_cone {
            Ok(c) => c,
            Err(e) => {
                return Err(e);
            },
        };
        if outer == 0 {
            return Err(EntityParseError::InvalidProperty);
        }
        let origin = match light.origin {
            Ok(o) => o,
            Err(e) => {
                return Err(e);
            },
        };
        let angles = match light.angles {
            Ok(a) => a,
            Err(e) => {
                return Err(e);
            },
        };
        let rad = deg_to_rad_micro(outer as i64);
        Ok(
            PySpotLight {
                color: linear_color(cb.color),
                energy: energy_of(cb.brightness, settings.light_factor),
                spot_size: 2 * (rad as u64),
                spot_blend: spot_blend(inner, outer),
                position: scale_vec(origin, scale),
                rotation: angles,
                id: light.id,
                properties: Some(light.properties),
            },
        )
    }

    pub fn id(&self) -> (r: i32)
        ensures
            r == self.id,
    {
        self.id
    }

    pub fn position(&self) -> (r: Vec3)
        ensures
            r == self.position,
    {
        self.position
    }

    pub fn rotation(&self) -> (r: Vec3)
        ensures
            r == self.rotation,
    {
        self.rotation
    }

    pub fn color(&self) -> (r: LinearColor)
        ensures
            r == self.color,
    {
        self.color
    }

    pub fn energy(&self) -> (r: u64)
        ensures
            r == self.energy,
    {
        self.energy
    }

    pub fn spot_size(&self) -> (r: u64)
        ensures
            r == self.spot_size,
    {
        self.spot_size
    }

    pub fn spot_blend(&self) -> (r: i64)
        ensures
            r == self.spot_blend,
    {
        self.spot_blend
    }

    /// Hands the property bag out once: the first call returns the full
    /// mapping, later calls an empty one.
    pub fn properties(&mut self) -> (r: Vec<(String, String)>)
        ensures
            final(self).properties is None,
            old(self).properties matches Some(p) ==> r == p,
            old(self).properties is None ==> r@ == Seq::<(String, String)>::empty(),
            final(self).color == old(self).color,
            final(self).energy == old(self).energy,
            final(self).spot_size == old(self).spot_size,
            final(self).spot_blend == old(self).spot_blend,
            final(self).position == old(self).position,
            final(self).rotation == old(self).rotation,
            final(self).id == old(self).id,
    {
        match self.properties.take() {
            Some(p) => p,
            None => Vec::new(),
        }
    }
}

/// The raw lookup results for an environment (sun) light.  The sun and the
/// ambient color/brightness live in distinct property namespaces, each with
/// its own HDR variant.
pub struct RawEnvLight {
    pub id: i32,
    pub class_name: String,
    pub hdr_color_brightness: Result<Option<ColorBrightness>, EntityParseError>,
    pub hdr_scale: Result<u64, EntityParseError>,
    pub color_brightness: Result<ColorBrightness, EntityParseError>,
    pub ambient_hdr_color_brightness: Result<Option<ColorBrightness>, EntityParseError>,
    pub ambient_hdr_scale: Result<u64, EntityParseError>,
    pub ambient_color_brightness: Result<ColorBrightness, EntityParseError>,
    pub sun_spread_angle: Result<u64, EntityParseError>,
    pub origin: Result<Vec3, EntityParseError>,
    pub angles: Result<Vec3, EntityParseError>,
    pub properties: Vec<(String, String)>,
}

pub open spec fn raw_env_light_wf(l: RawEnvLight) -> bool {
    &&& resolve_wf(l.hdr_color_brightness, l.hdr_scale, l.color_brightness)
    &&& resolve_wf(
        l.ambient_hdr_color_brightness,
        l.ambient_hdr_scale,
        l.ambient_color_brightness,
    )
    &&& (l.sun_spread_angle matches Result::Ok(a) ==> a <= MAX_MICRO)
    &&& (l.origin matches Result::Ok(o) ==> vec3_wf(o))
    &&& (l.angles matches Result::Ok(a) ==> vec3_wf(a))
}

/// A normalized environment light.  `rotation` carries the source-space
/// Euler angles in micro-degrees, as for `PySpotLight`.
#[derive(Debug)]
pub struct PyEnvLight {
    pub sun_color: LinearColor,
    pub sun_energy: u64,
    pub ambient_color: LinearColorAlpha,
    pub ambient_strength: u64,
    pub angle: u64,
    pub position: Vec3,
    pub rotation: Vec3,
    pub id: i32,
    pub properties: Option<Vec<(String, String)>>,
}

/// What `PyEnvLight::new` returns: the sun resolution, then the independent
/// ambient resolution, then the sun spread angle, origin and angles lookups;
/// the first error wins.  The ambient alpha channel is always exactly one
/// whole unit.
pub open spec fn env_light_new_spec(l: RawEnvLight, st: LightSettings, scale: int) -> Result<
    PyEnvLight,
    EntityParseError,
> {
    match resolve_color_brightness_spec(l.hdr_color_brightness, l.hdr_scale, l.color_brightness) {
        Result::Err(e) => Result::Err(e),
        Result::Ok(sun) => match resolve_color_brightness_spec(
            l.ambient_hdr_color_brightness,
            l.ambient_hdr_scale,
            l.ambient_color_brightness,
        ) {
            Result::Err(e) => Result::Err(e),
            Result::Ok(ambient) => match l.sun_spread_angle {
                Result::Err(e) => Result::Err(e),
                Result::Ok(spread) => match l.origin {
                    Result::Err(e) => Result::Err(e),
                    Result::Ok(o) => match l.angles {
                        Result::Err(e) => Result::Err(e),
                        Result::Ok(a) => Result::Ok(
                            PyEnvLight {
                                sun_color: linear_color_spec(sun.color),
                                sun_energy: mul_micro_spec(
                                    sun.brightness as int,
                                    st.sun_factor as int,
                                ) as u64,
                                ambient_color: with_full_alpha_spec(
                                    linear_color_spec(ambient.color),
                                ),
                                ambient_strength: mul_micro_spec(
                                    ambient.brightness as int,
                                    st.ambient_factor as int,
                                ) as u64,
                                angle: deg_to_rad_spec(spread as int) as u64,
                                position: scale_vec_spec(o, scale),
                                rotation: a,
                                id: l.id,
                                properties: Option::Some(l.properties),
                            },
                        ),
                    },
                },
            },
        },
    }
}

/// Expose a linear color with the alpha channel pinned to one whole unit.
pub open spec fn with_full_alpha_spec(c: LinearColor) -> LinearColorAlpha {
    LinearColorAlpha { r: c.r, g: c.g, b: c.b, a: MICRO as u32 }
}

impl PyEnvLight {
    pub fn new(light: RawEnvLight, settings: &LightSettings, scale: u64) -> (r: Result<
        PyEnvLight,
        EntityParseError,
    >)
        requires
            raw_env_light_wf(light),
            light_settings_wf(*settings),
            scale <= MAX_MICRO,
        ensures
            r == env_light_new_spec(light, *settings, scale as int),
            r matches Ok(v) ==> v.ambient_color.a == MICRO,
    {
        let sun = match resolve_color_brightness(
            light.hdr_color_brightness,
            light.hdr_scale,
            light.color_brightness,
        ) {
            Ok(cb) => cb,
            Err(e) => {
                return Err(e);
            },
        };
        let ambient = match resolve_color_brightness(
            light.ambient_hdr_color_brightness,
            light.ambient_hdr_scale,
            light.ambient_color_brightness,
        ) {
            Ok(cb) => cb,
            Err(e) => {
                return Err(e);
            },
        };
        let spread = match light.sun_spread_angle {
            Ok(a) => a,
            Err(e) => {
                return Err(e);
            },
        };
        let origin = match light.origin {
            Ok(o) => o,
            Err(e) => {
                return Err(e);
            },
        };
        let angles = match light.angles {
            Ok(a) => a,
            Err(e) => {
                return Err(e);
            },
        };
        let ambient_rgb = linear_color(ambient.color);
        Ok(
            PyEnvLight {
                sun_color: linear_color(sun.color),
                sun_energy: energy_of(sun.brightness, settings.sun_factor),
                ambient_color: LinearColorAlpha {
                    r: ambient_rgb.r,
                    g: ambient_rgb.g,
                    b: ambient_rgb.b,
                    a: MICRO as u32,
                },
                ambient_strength: energy_of(ambient.brightness, settings.ambient_factor),
                angle: deg_to_rad_micro(spread as i64) as u64,
                position: scale_vec(origin, scale),
                rotation: angles,
                id: light.id,
                properties: Some(light.properties),
            },
        )
    }

    pub fn id(&self) -> (r: i32)
        ensures
            r == self.id,
    {
        self.id
    }

    pub fn position(&self) -> (r: Vec3)
        ensures
            r == self.position,
    {
        self.position
    }

    pub fn rotation(&self) -> (r: Vec3)
        ensures
            r == self.rotation,
    {
        self.rotation
    }

    pub fn sun_color(&self) -> (r: LinearColor)
        ensures
            r == self.sun_color,
    {
        self.sun_color
    }

    pub fn sun_energy(&self) -> (r: u64)
        ensures
            r == self.sun_energy,
    {
        self.sun_energy
    }

    pub fn ambient_color(&self) -> (r: LinearColorAlpha)
        ensures
            r == self.ambient_color,
    {
        self.ambient_color
    }

    pub fn ambient_strength(&self) -> (r: u64)
        ensures
            r == self.ambient_strength,
    {
        self.ambient_strength
    }

    pub fn angle(&self) -> (r: u64)
        ensures
            r == self.angle,
    {
        self.angle
    }

    /// Hands the property bag out once: the first call returns the full
    /// mapping, later calls an empty one.
    pub fn properties(&mut self) -> (r: Vec<(String, String)>)
        ensures
            final(self).properties is None,
            old(self).properties matches Some(p) ==> r == p,
            old(self).properties is None ==> r@ == Seq::<(String, String)>::empty(),
            final(self).sun_color == old(self).sun_color,
            final(self).sun_energy == old(self).sun_energy,
            final(self).ambient_color == old(self).ambient_color,
            final(self).ambient_strength == old(self).ambient_strength,
            final(self).angle == old(self).angle,
            final(self).position == old(self).position,
            final(self).rotation == old(self).rotation,
            final(self).id == old(self).id,
    {
        match self.properties.take() {
            Some(p) => p,
            None => Vec::new(),
        }
    }
}

/// The ambient color's alpha channel is exactly one whole unit, whatever
/// the input brightness and color values were.
pub proof fn lemma_ambient_alpha(l: RawEnvLight, st: LightSettings, scale: int)
    ensures
        env_light_new_spec(l, st, scale) matches Result::Ok(v) ==> v.ambient_color.a
            == MICRO as int,
{
}

/// The raw lookup results for a sky camera.
pub struct RawSkyCamera {
    pub id: i32,
    pub class_name: String,
    pub origin: Result<Vec3, EntityParseError>,
    pub scale: Result<i64, EntityParseError>,
}

pub open spec fn raw_sky_camera_wf(c: RawSkyCamera) -> bool {
    &&& (c.origin matches Result::Ok(o) ==> vec3_wf(o))
    &&& (c.scale matches Result::Ok(s) ==> -(MAX_MICRO as int) <= s <= MAX_MICRO as int)
}

/// A normalized sky camera: its single scalar scale is broadcast to a
/// uniform three-component scale.
#[derive(Debug)]
pub struct PySkyCamera {
    pub id: i32,
    pub position: Vec3,
    pub scale: Vec3,
}

/// What `PySkyCamera::new` returns: the origin lookup, then the scale
/// lookup; the first error wins.
pub open spec fn sky_camera_new_spec(c: RawSkyCamera, scale: int) -> Result<
    PySkyCamera,
    EntityParseError,
> {
    match c.origin {
        Result::Err(e) => Result::Err(e),
        Result::Ok(o) => match c.scale {
            Result::Err(e) => Result::Err(e),
            Result::Ok(s) => Result::Ok(
                PySkyCamera {
                    id: c.id,
                    position: scale_vec_spec(o, scale),
                    scale: Vec3 { x: s, y: s, z: s },
                },
            ),
        },
    }
}

impl PySkyCamera {
    pub fn new(sky_camera: RawSkyCamera, scale: u64) -> (r: Result<PySkyCamera, EntityParseError>)
        requires
            raw_sky_camera_wf(sky_camera),
            scale <= MAX_MICRO,
        ensures
            r == sky_camera_new_spec(sky_camera, scale as int),
    {
        let origin = match sky_camera.origin {
            Ok(o) => o,
            Err(e) => {
                return Err(e);
            },
        };
        let s = match sky_camera.scale {
            Ok(s) => s,
            Err(e) => {
                return Err(e);
            },
        };
        Ok(
            PySkyCamera {
                id: sky_camera.id,
                position: scale_vec(origin, scale),
                scale: Vec3 { x: s, y: s, z: s },
            },
        )
    }

    pub fn id(&self) -> (r: i32)
        ensures
            r == self.id,
    {
        self.id
    }

    pub fn position(&self) -> (r: Vec3)
        ensures
            r == self.position,
    {
        self.position
    }

    pub fn scale(&self) -> (r: Vec3)
        ensures
            r == self.scale,
    {
        self.scale
    }
}

/// The raw lookup results for an entity of an unrecognized class.
pub struct RawUnknownEntity {
    pub id: i32,
    pub class_name: String,
    pub origin: Result<Vec3, EntityParseError>,
    pub angles: Result<Vec3, EntityParseError>,
    pub properties: Vec<(String, String)>,
}

pub open spec fn raw_unknown_entity_wf(e: RawUnknownEntity) -> bool {
    &&& (e.origin matches Result::Ok(o) ==> vec3_wf(o))
    &&& (e.angles matches Result::Ok(a) ==> vec3_wf(a))
}

/// A normalized entity of an unrecognized class.
#[derive(Debug)]
pub struct PyUnknownEntity {
    pub class_name: String,
    pub id: i32,
    pub position: Vec3,
    pub rotation: Vec3,
    pub scale: Vec3,
    pub properties: Option<Vec<(String, String)>>,
}

/// A failed origin or angles lookup falls back to zero instead of failing.
pub open spec fn vec3_or_zero(r: Result<Vec3, EntityParseError>) -> Vec3 {
    match r {
        Result::Ok(v) => v,
        Result::Err(_) => Vec3 { x: 0, y: 0, z: 0 },
    }
}

/// What `PyUnknownEntity::new` returns: the class is not understood well
/// enough to demand well-formed spatial data, so origin and angles fall back
/// to zero on failure and the conversion never fails.  The global scale is
/// broadcast to the uniform scale.
pub open spec fn unknown_entity_new_spec(e: RawUnknownEntity, scale: int) -> PyUnknownEntity {
    PyUnknownEntity {
        class_name: e.class_name,
        id: e.id,
        position: scale_vec_spec(vec3_or_zero(e.origin), scale),
        rotation: entity_rotation_spec(vec3_or_zero(e.angles)),
        scale: Vec3 { x: scale as i64, y: scale as i64, z: scale as i64 },
        properties: Option::Some(e.properties),
    }
}

impl PyUnknownEntity {
    pub fn new(entity: RawUnknownEntity, scale: u64) -> (r: PyUnknownEntity)
        requires
            raw_unknown_entity_wf(entity),
            scale <= MAX_MICRO,
        ensures
            r == unknown_entity_new_spec(entity, scale as int),
    {
        let origin = match entity.origin {
            Ok(o) => o,
            Err(_) => Vec3 { x: 0, y: 0, z: 0 },
        };
        let angles = match entity.angles {
            Ok(a) => a,
            Err(_) => Vec3 { x: 0, y: 0, z: 0 },
        };
        PyUnknownEntity {
            class_name: entity.class_name,
            id: entity.id,
            position: scale_vec(origin, scale),
            rotation: entity_rotation(angles),
            scale: Vec3 { x: scale as i64, y: scale as i64, z: scale as i64 },
            properties: Some(entity.properties),
        }
    }

    pub fn class_name(&self) -> (r: &str)
        ensures
            r@ == self.class_name@,
    {
        self.class_name.as_str()
    }

    pub fn id(&self) -> (r: i32)
        ensures
            r == self.id,
    {
        self.id
    }

    pub fn position(&self) -> (r: Vec3)
        ensures
            r == self.position,
    {
        self.position
    }

    pub fn rotation(&self) -> (r: Vec3)
        ensures
            r == self.rotation,
    {
        self.rotation
    }

    pub fn scale(&self) -> (r: Vec3)
        ensures
            r == self.scale,
    {
        self.scale
    }

    /// Hands the property bag out once: the first call returns the full
    /// mapping, later calls an empty one.
    pub fn properties(&mut self) -> (r: Vec<(String, String)>)
        ensures
            final(self).properties is None,
            old(self).properties matches Some(p) ==> r == p,
            old(self).properties is None ==> r@ == Seq::<(String, String)>::empty(),
            final(self).class_name == old(self).class_name,
            final(self).position == old(self).position,
            final(self).rotation == old(self).rotation,
            final(self).scale == old(self).scale,
            final(self).id == old(self).id,
    {
        match self.properties.take() {
            Some(p) => p,
            None => Vec::new(),
        }
    }
}

/// One decoded entity as the out-of-scope entity decoder classifies it:
/// either one of the recognized classes, or the catch-all for the rest.
pub enum EntityInput {
    Light(RawLight),
    SpotLight(RawSpotLight),
    EnvLight(RawEnvLight),
    SkyCamera(RawSkyCamera),
    Unknown(RawUnknownEntity),
}

pub open spec fn entity_input_wf(e: EntityInput) -> bool {
    match e {
        EntityInput::Light(l) => raw_light_wf(l),
        EntityInput::SpotLight(l) => raw_spot_light_wf(l),
        EntityInput::EnvLight(l) => raw_env_light_wf(l),
        EntityInput::SkyCamera(c) => raw_sky_camera_wf(c),
        EntityInput::Unknown(u) => raw_unknown_entity_wf(u),
    }
}

/// An sRGB color with an alpha byte, as carried on a decoded prop.
#[derive(Clone, Copy, Debug, PartialEq, Eq, Structural)]
pub struct SrgbColorAlpha {
    pub r: u8,
    pub g: u8,
    pub b: u8,
    pub a: u8,
}

/// A decoded prop as the out-of-scope prop decoder hands it over; the
/// position is already scaled into the target space by that layer.
pub struct RawLoadedProp {
    pub model: String,
    pub class_name: String,
    pub id: i32,
    pub position: Vec3,
    pub rotation: Vec3,
    pub scale: Vec3,
    pub color: SrgbColorAlpha,
    pub properties: Vec<(String, String)>,
}

pub open spec fn raw_loaded_prop_wf(p: RawLoadedProp) -> bool {
    vec3_wf(p.rotation)
}

/// A normalized prop instance.
#[derive(Debug)]
pub struct PyLoadedProp {
    pub model: String,
    pub class_name: String,
    pub id: i32,
    pub position: Vec3,
    pub rotation: Vec3,
    pub scale: Vec3,
    pub color: LinearColorAlpha,
    pub properties: Option<Vec<(String, String)>>,
}

/// What `PyLoadedProp::new` returns: the rotation is remapped without a
/// directional correction, the color channels are linearized and the alpha
/// byte is normalized to micro-units; the conversion never fails.
pub open spec fn loaded_prop_new_spec(p: RawLoadedProp) -> PyLoadedProp {
    PyLoadedProp {
        model: p.model,
        class_name: p.class_name,
        id: p.id,
        position: p.position,
        rotation: entity_rotation_spec(p.rotation),
        scale: p.scale,
        color: LinearColorAlpha {
            r: srgb_micro(p.color.r as int) as u32,
            g: srgb_micro(p.color.g as int) as u32,
            b: srgb_micro(p.color.b as int) as u32,
            a: alpha_micro_spec(p.color.a as int) as u32,
        },
        properties: Option::Some(p.properties),
    }
}

impl PyLoadedProp {
    pub fn new(prop: RawLoadedProp) -> (r: PyLoadedProp)
        requires
            raw_loaded_prop_wf(prop),
        ensures
            r == loaded_prop_new_spec(prop),
    {
        PyLoadedProp {
            model: prop.model,
            class_name: prop.class_name,
            id: prop.id,
            position: prop.position,
            rotation: entity_rotation(prop.rotation),
            scale: prop.scale,
            color: LinearColorAlpha {
                r: srgb8_to_linear(prop.color.r),
                g: srgb8_to_linear(prop.color.g),
                b: srgb8_to_linear(prop.color.b),
                a: alpha_micro(prop.color.a),
            },
            properties: Some(prop.properties),
        }
    }

    pub fn model(&self) -> (r: &str)
        ensures
            r@ == self.model@,
    {
        self.model.as_str()
    }

    pub fn class_name(&self) -> (r: &str)
        ensures
            r@ == self.class_name@,
    {
        self.class_name.as_str()
    }

    pub fn id(&self) -> (r: i32)
        ensures
            r == self.id,
    {
        self.id
    }

    pub fn position(&self) -> (r: Vec3)
        ensures
            r == self.position,
    {
        self.position
    }

    pub fn rotation(&self) -> (r: Vec3)
        ensures
            r == self.rotation,
    {
        self.rotation
    }

    pub fn scale(&self) -> (r: Vec3)
        ensures
            r == self.scale,
    {
        self.scale
    }

    pub fn color(&self) -> (r: LinearColorAlpha)
        ensures
            r == self.color,
    {
        self.color
    }

    /// Hands the property bag out once: the first call returns the full
    /// mapping, later calls an empty one.
    pub fn properties(&mut self) -> (r: Vec<(String, String)>)
        ensures
            final(self).properties is None,
            old(self).properties matches Some(p) ==> r == p,
            old(self).properties is None ==> r@ == Seq::<(String, String)>::empty(),
            final(self).model == old(self).model,
            final(self).class_name == old(self).class_name,
            final(self).position == old(self).position,
            final(self).rotation == old(self).rotation,
            final(self).scale == old(self).scale,
            final(self).color == old(self).color,
            final(self).id == old(self).id,
    {
        match self.properties.take() {
            Some(p) => p,
            None => Vec::new(),
        }
    }
}

} // verus!
