//! The graphics settings a player can choose, and what each choice comes to.

use vstd::prelude::*;
use vstd::string::*;

verus! {

/// Framerate limiting configuration for controlling maximum rendering frame
/// rate.
#[derive(Debug, Clone, Copy, PartialEq, Eq, Structural)]
pub enum LimitFramerate {
    /// No framerate limit applied.
    Unlimited,
    /// Limit framerate to the specified value in Hz.
    Limit(u16),
}

impl LimitFramerate {
    /// Whether the setting is one of those a player can choose.
    pub open spec fn spec_is_offered(&self) -> bool {
        match self {
            LimitFramerate::Unlimited => true,
            LimitFramerate::Limit(limit) => *limit == 30 || *limit == 60 || *limit == 120 || *limit == 144 || *limit
                == 240,
        }
    }

    #[verifier::when_used_as_spec(spec_is_offered)]
    pub fn is_offered(&self) -> (offered: bool)
        ensures
            offered == self.spec_is_offered(),
    {
        match self {
            LimitFramerate::Unlimited => true,
            LimitFramerate::Limit(limit) => *limit == 30 || *limit == 60 || *limit == 120 || *limit == 144 || *limit
                == 240,
        }
    }

    pub open spec fn spec_text(&self) -> &'static str {
        match self {
            LimitFramerate::Unlimited => "Unlimited",
            LimitFramerate::Limit(limit) => if *limit == 30 {
                "30 Hz"
            } else if *limit == 60 {
                "60 Hz"
            } else if *limit == 120 {
                "120 Hz"
            } else if *limit == 144 {
                "144 Hz"
            } else {
                "240 Hz"
            },
        }
    }

    /// The name under which the setting is offered.
    pub fn text(&self) -> (text: &'static str)
        requires
            self.is_offered(),
        ensures
            text == self.spec_text(),
    {
        match self {
            LimitFramerate::Unlimited => "Unlimited",
            LimitFramerate::Limit(30) => "30 Hz",
            LimitFramerate::Limit(60) => "60 Hz",
            LimitFramerate::Limit(120) => "120 Hz",
            LimitFramerate::Limit(144) => "144 Hz",
            LimitFramerate::Limit(_) => "240 Hz",
        }
    }

    pub fn value(&self) -> (value: LimitFramerate)
        ensures
            value == *self,
    {
        *self
    }
}

/// Texture sampling method for filtering and interpolation during rendering.
#[derive(Debug, Clone, Copy, PartialEq, Eq, Structural)]
pub enum TextureSamplerType {
    /// Nearest-neighbor filtering with no interpolation.
    Nearest,
    /// Linear interpolation for smooth texture filtering.
    Linear,
    /// Anisotropic filtering with the specified level for improved quality at
    /// oblique angles.
    Anisotropic(u16),
}

impl TextureSamplerType {
    /// Whether the setting is one of those a player can choose.
    pub open spec fn spec_is_offered(&self) -> bool {
        match self {
            TextureSamplerType::Nearest => true,
            TextureSamplerType::Linear => true,
            TextureSamplerType::Anisotropic(level) => *level == 4 || *level == 8 || *level == 16,
        }
    }

    #[verifier::when_used_as_spec(spec_is_offered)]
    pub fn is_offered(&self) -> (offered: bool)
        ensures
            offered == self.spec_is_offered(),
    {
        match self {
            TextureSamplerType::Nearest => true,
            TextureSamplerType::Linear => true,
            TextureSamplerType::Anisotropic(level) => *level == 4 || *level == 8 || *level == 16,
        }
    }

    pub open spec fn spec_text(&self) -> &'static str {
        match self {
            TextureSamplerType::Nearest => "Nearest",
            TextureSamplerType::Linear => "Linear",
            TextureSamplerType::Anisotropic(level) => if *level == 4 {
                "Anisotropic x4"
            } else if *level == 8 {
                "Anisotropic x8"
            } else {
                "Anisotropic x16"
            },
        }
    }

    /// The name under which the setting is offered.
    pub fn text(&self) -> (text: &'static str)
        requires
            self.is_offered(),
        ensures
            text == self.spec_text(),
    {
        match self {
            TextureSamplerType::Nearest => "Nearest",
            TextureSamplerType::Linear => "Linear",
            TextureSamplerType::Anisotropic(4) => "Anisotropic x4",
            TextureSamplerType::Anisotropic(8) => "Anisotropic x8",
            TextureSamplerType::Anisotropic(_) => "Anisotropic x16",
        }
    }

    pub fn value(&self) -> (value: TextureSamplerType)
        ensures
            value == *self,
    {
        *self
    }
}

/// Shadow map resolution quality preset for both directional and point lights.
#[derive(Debug, Clone, Copy, PartialEq, Eq, Structural)]
pub enum ShadowResolution {
    /// Standard quality shadow resolution.
    Normal,
    /// Ultra quality shadow resolution.
    Ultra,
    /// Insane quality shadow resolution.
    Insane,
}

impl ShadowResolution {
    pub open spec fn spec_directional_shadow_resolution(self) -> u32 {
        match self {
            ShadowResolution::Normal => 2048,
            ShadowResolution::Ultra => 3072,
            ShadowResolution::Insane => 4096,
        }
    }

    /// Returns the shadow map resolution in pixels for directional lights.
    #[verifier::when_used_as_spec(spec_directional_shadow_resolution)]
    pub fn directional_shadow_resolution(self) -> (pixels: u32)
        ensures
            pixels == self.spec_directional_shadow_resolution(),
    {
        match self {
            ShadowResolution::Normal => 2048,
            ShadowResolution::Ultra => 3072,
            ShadowResolution::Insane => 4096,
        }
    }

    pub open spec fn spec_point_shadow_resolution(self) -> u32 {
        match self {
            ShadowResolution::Normal => 128,
            ShadowResolution::Ultra => 256,
            ShadowResolution::Insane => 512,
        }
    }

    /// Returns the shadow map resolution in pixels for point lights.
    #[verifier::when_used_as_spec(spec_point_shadow_resolution)]
    pub fn point_shadow_resolution(self) -> (pixels: u32)
        ensures
            pixels == self.spec_point_shadow_resolution(),
    {
        match self {
            ShadowResolution::Normal => 128,
            ShadowResolution::Ultra => 256,
            ShadowResolution::Insane => 512,
        }
    }

    pub open spec fn spec_text(&self) -> &'static str {
        match self {
            ShadowResolution::Normal => "Normal",
            ShadowResolution::Ultra => "Ultra",
            ShadowResolution::Insane => "Insane",
        }
    }

    /// The name under which the setting is offered.
    pub fn text(&self) -> (text: &'static str)
        ensures
            text == self.spec_text(),
    {
        match self {
            ShadowResolution::Normal => "Normal",
            ShadowResolution::Ultra => "Ultra",
            ShadowResolution::Insane => "Insane",
        }
    }

    pub fn value(&self) -> (value: ShadowResolution)
        ensures
            value == *self,
    {
        *self
    }
}

/// Shadow rendering detail level controlling the number of shadow samples.
#[derive(Debug, Clone, Copy, PartialEq, Eq, Structural)]
pub enum ShadowDetail {
    /// Low shadow detail with fewest samples.
    Low,
    /// Medium shadow detail with balanced quality.
    Medium,
    /// High shadow detail with more samples.
    High,
    /// Maximum shadow detail with most samples.
    Ultra,
}

impl ShadowDetail {
    pub open spec fn spec_text(&self) -> &'static str {
        match self {
            ShadowDetail::Low => "Low",
            ShadowDetail::Medium => "Medium",
            ShadowDetail::High => "High",
            ShadowDetail::Ultra => "Ultra",
        }
    }

    /// The name under which the setting is offered.
    pub fn text(&self) -> (text: &'static str)
        ensures
            text == self.spec_text(),
    {
        match self {
            ShadowDetail::Low => "Low",
            ShadowDetail::Medium => "Medium",
            ShadowDetail::High => "High",
            ShadowDetail::Ultra => "Ultra",
        }
    }

    pub fn value(&self) -> (value: ShadowDetail)
        ensures
            value == *self,
    {
        *self
    }

    /// The number under which the shaders know the detail level.
    pub open spec fn level(self) -> u32 {
        match self {
            ShadowDetail::Low => 1,
            ShadowDetail::Medium => 2,
            ShadowDetail::High => 3,
            ShadowDetail::Ultra => 4,
        }
    }
}

impl From<ShadowDetail> for u32 {
    fn from(value: ShadowDetail) -> (level: u32)
        ensures
            level == value.level(),
    {
        match value {
            ShadowDetail::Low => 1,
            ShadowDetail::Medium => 2,
            ShadowDetail::High => 3,
            ShadowDetail::Ultra => 4,
        }
    }
}

impl vstd::std_specs::convert::FromSpecImpl<ShadowDetail> for u32 {
    open spec fn obeys_from_spec() -> bool {
        true
    }

    open spec fn from_spec(value: ShadowDetail) -> u32 {
        value.level()
    }
}

/// Shadow rendering algorithm method for different shadow edge quality.
#[derive(Debug, Clone, Copy, PartialEq, Eq, Structural)]
pub enum ShadowMethod {
    /// Hard shadows with sharp edges and no filtering.
    Hard,
    /// Soft shadows using Percentage-Closer Filtering.
    SoftPCF,
    /// Soft shadows using Percentage-Closer Soft Shadows with variable
    /// penumbra.
    SoftPCSS,
}

impl ShadowMethod {
    pub open spec fn spec_text(&self) -> &'static str {
        match self {
            ShadowMethod::Hard => "Hard",
            ShadowMethod::SoftPCF => "Soft (PCF)",
            ShadowMethod::SoftPCSS => "Soft (PCSS)",
        }
    }

    /// The name under which the setting is offered.
    pub fn text(&self) -> (text: &'static str)
        ensures
            text == self.spec_text(),
    {
        match self {
            ShadowMethod::Hard => "Hard",
            ShadowMethod::SoftPCF => "Soft (PCF)",
            ShadowMethod::SoftPCSS => "Soft (PCSS)",
        }
    }

    pub fn value(&self) -> (value: ShadowMethod)
        ensures
            value == *self,
    {
        *self
    }

    /// The number under which the shaders know the method.
    pub open spec fn index(self) -> u32 {
        match self {
            ShadowMethod::Hard => 0,
            ShadowMethod::SoftPCF => 1,
            ShadowMethod::SoftPCSS => 2,
        }
    }
}

impl From<ShadowMethod> for u32 {
    fn from(value: ShadowMethod) -> (index: u32)
        ensures
            index == value.index(),
    {
        match value {
            ShadowMethod::Hard => 0,
            ShadowMethod::SoftPCF => 1,
            ShadowMethod::SoftPCSS => 2,
        }
    }
}

impl vstd::std_specs::convert::FromSpecImpl<ShadowMethod> for u32 {
    open spec fn obeys_from_spec() -> bool {
        true
    }

    open spec fn from_spec(value: ShadowMethod) -> u32 {
        value.index()
    }
}

/// Multisample Anti-Aliasing (MSAA) setting for edge smoothing during
/// rendering.
#[derive(Debug, Clone, Copy, PartialEq, Eq, Hash, Structural)]
pub enum Msaa {
    /// MSAA disabled.
    Off,
    /// 2x MSAA with 2 samples per pixel.
    X2,
    /// 4x MSAA with 4 samples per pixel.
    X4,
    /// 8x MSAA with 8 samples per pixel.
    X8,
    /// 16x MSAA with 16 samples per pixel.
    X16,
}

impl Msaa {
    pub open spec fn spec_text(&self) -> &'static str {
        match self {
            Msaa::Off => "Off",
            Msaa::X2 => "x2",
            Msaa::X4 => "x4",
            Msaa::X8 => "x8",
            Msaa::X16 => "x16",
        }
    }

    /// The name under which the setting is offered.
    pub fn text(&self) -> (text: &'static str)
        ensures
            text == self.spec_text(),
    {
        match self {
            Msaa::Off => "Off",
            Msaa::X2 => "x2",
            Msaa::X4 => "x4",
            Msaa::X8 => "x8",
            Msaa::X16 => "x16",
        }
    }

    /// The setting as it is displayed: by its name.
    pub fn to_string(&self) -> (text: String)
        ensures
            text@ == self.spec_text()@,
    {
        String::from_str(self.text())
    }

    pub fn value(&self) -> (value: Msaa)
        ensures
            value == *self,
    {
        *self
    }

    pub open spec fn spec_sample_count(self) -> u32 {
        match self {
            Msaa::Off => 1,
            Msaa::X2 => 2,
            Msaa::X4 => 4,
            Msaa::X8 => 8,
            Msaa::X16 => 16,
        }
    }

    /// Returns the number of samples per pixel for this MSAA setting.
    #[verifier::when_used_as_spec(spec_sample_count)]
    pub fn sample_count(self) -> (samples: u32)
        ensures
            samples == self.spec_sample_count(),
    {
        match self {
            Msaa::Off => 1,
            Msaa::X2 => 2,
            Msaa::X4 => 4,
            Msaa::X8 => 8,
            Msaa::X16 => 16,
        }
    }

    pub open spec fn spec_multisampling_activated(self) -> bool {
        self != Msaa::Off
    }

    /// Returns true if multisampling is enabled.
    #[verifier::when_used_as_spec(spec_multisampling_activated)]
    pub fn multisampling_activated(self) -> (activated: bool)
        ensures
            activated == self.spec_multisampling_activated(),
    {
        self != Msaa::Off
    }

    /// The setting with a number of samples per pixel, if there is one.
    pub open spec fn with_sample_count(value: u32) -> Option<Msaa> {
        if value == 1 {
            Some(Msaa::Off)
        } else if value == 2 {
            Some(Msaa::X2)
        } else if value == 4 {
            Some(Msaa::X4)
        } else if value == 8 {
            Some(Msaa::X8)
        } else if value == 16 {
            Some(Msaa::X16)
        } else {
            None
        }
    }

    /// Returns the setting with a number of samples per pixel, if there is
    /// one.
    pub fn try_from_sample_count(value: u32) -> (setting: Option<Msaa>)
        ensures
            setting == Msaa::with_sample_count(value),
    {
        match value {
            1 => Some(Msaa::Off),
            2 => Some(Msaa::X2),
            4 => Some(Msaa::X4),
            8 => Some(Msaa::X8),
            16 => Some(Msaa::X16),
            _ => None,
        }
    }

    /// Returns the setting with a number of samples per pixel that is known
    /// to have one.
    pub fn from_sample_count(value: u32) -> (setting: Msaa)
        requires
            Msaa::with_sample_count(value) is Some,
        ensures
            Some(setting) == Msaa::with_sample_count(value),
    {
        match value {
            1 => Msaa::Off,
            2 => Msaa::X2,
            4 => Msaa::X4,
            8 => Msaa::X8,
            _ => Msaa::X16,
        }
    }
}

/// The number of samples tells the settings apart: each setting is the one
/// with its number of samples, and a number that belongs to a setting is that
/// setting's number. Multisampling is active exactly with more than one
/// sample.
pub proof fn lemma_sample_count_round_trip(setting: Msaa, value: u32)
    ensures
        Msaa::with_sample_count(setting.spec_sample_count()) == Some(setting),
        Msaa::with_sample_count(value) matches Some(found) ==> found.spec_sample_count() == value,
        setting.spec_multisampling_activated() <==> setting.spec_sample_count() > 1,
{
}

/// Supersample Anti-Aliasing (SSAA) setting for rendering at higher resolution
/// then downsampling.
#[derive(Debug, Clone, Copy, PartialEq, Eq, Hash, Structural)]
pub enum Ssaa {
    /// SSAA disabled.
    Off,
    /// 2x SSAA rendering at square root of 2 times the resolution.
    X2,
    /// 3x SSAA rendering at square root of 3 times the resolution.
    X3,
    /// 4x SSAA rendering at double the resolution.
    X4,
}

impl Ssaa {
    pub open spec fn spec_text(&self) -> &'static str {
        match self {
            Ssaa::Off => "Off",
            Ssaa::X2 => "x2",
            Ssaa::X3 => "x3",
            Ssaa::X4 => "x4",
        }
    }

    /// The name under which the setting is offered.
    pub fn text(&self) -> (text: &'static str)
        ensures
            text == self.spec_text(),
    {
        match self {
            Ssaa::Off => "Off",
            Ssaa::X2 => "x2",
            Ssaa::X3 => "x3",
            Ssaa::X4 => "x4",
        }
    }

    /// The setting as it is displayed: by its name.
    pub fn to_string(&self) -> (text: String)
        ensures
            text@ == self.spec_text()@,
    {
        String::from_str(self.text())
    }

    pub fn value(&self) -> (value: Ssaa)
        ensures
            value == *self,
    {
        *self
    }

    pub open spec fn spec_supersampling_activated(self) -> bool {
        self != Ssaa::Off
    }

    /// Returns true if supersampling is enabled.
    #[verifier::when_used_as_spec(spec_supersampling_activated)]
    pub fn supersampling_activated(self) -> (activated: bool)
        ensures
            activated == self.spec_supersampling_activated(),
    {
        self != Ssaa::Off
    }

    /// The factor by which the number of pixels grows.
    pub open spec fn spec_pixel_factor(self) -> u32 {
        match self {
            Ssaa::Off => 1,
            Ssaa::X2 => 2,
            Ssaa::X3 => 3,
            Ssaa::X4 => 4,
        }
    }

    /// Returns the factor by which the number of pixels grows. Each side of
    /// the screen grows by the square root of it.
    #[verifier::when_used_as_spec(spec_pixel_factor)]
    pub fn pixel_factor(self) -> (factor: u32)
        ensures
            factor == self.spec_pixel_factor(),
    {
        match self {
            Ssaa::Off => 1,
            Ssaa::X2 => 2,
            Ssaa::X3 => 3,
            Ssaa::X4 => 4,
        }
    }
}

/// Screen-space anti-aliasing method applied as a post-processing effect.
#[derive(Debug, Clone, Copy, PartialEq, Eq, Hash, Structural)]
pub enum ScreenSpaceAntiAliasing {
    /// No screen-space anti-aliasing.
    Off,
    /// Fast Approximate Anti-Aliasing for efficient edge smoothing.
    Fxaa,
}

impl ScreenSpaceAntiAliasing {
    pub open spec fn spec_text(&self) -> &'static str {
        match self {
            ScreenSpaceAntiAliasing::Off => "Off",
            ScreenSpaceAntiAliasing::Fxaa => "FXAA",
        }
    }

    /// The name under which the setting is offered.
    pub fn text(&self) -> (text: &'static str)
        ensures
            text == self.spec_text(),
    {
        match self {
            ScreenSpaceAntiAliasing::Off => "Off",
            ScreenSpaceAntiAliasing::Fxaa => "FXAA",
        }
    }

    /// The setting as it is displayed: by its name.
    pub fn to_string(&self) -> (text: String)
        ensures
            text@ == self.spec_text()@,
    {
        String::from_str(self.text())
    }

    pub fn value(&self) -> (value: ScreenSpaceAntiAliasing)
        ensures
            value == *self,
    {
        *self
    }
}

/// The graphics settings that are kept between runs.
#[derive(Debug, Clone, Copy, PartialEq, Eq, Structural)]
pub struct GraphicsSettings {
    pub vsync: bool,
    pub limit_framerate: LimitFramerate,
    pub triple_buffering: bool,
    pub texture_filtering: TextureSamplerType,
    pub msaa: Msaa,
    pub ssaa: Ssaa,
    pub screen_space_anti_aliasing: ScreenSpaceAntiAliasing,
    pub shadow_detail: ShadowDetail,
    pub high_quality_interface: bool,
}

impl GraphicsSettings {
    /// The settings of a client that has none stored.
    pub open spec fn initial() -> GraphicsSettings {
        GraphicsSettings {
            vsync: true,
            limit_framerate: LimitFramerate::Unlimited,
            triple_buffering: true,
            texture_filtering: TextureSamplerType::Anisotropic(4),
            msaa: Msaa::X4,
            ssaa: Ssaa::Off,
            screen_space_anti_aliasing: ScreenSpaceAntiAliasing::Off,
            shadow_detail: ShadowDetail::High,
            high_quality_interface: true,
        }
    }

    /// The settings that were stored, or the initial ones where none could be
    /// loaded.
    pub fn from_stored(stored: Option<GraphicsSettings>) -> (settings: Self)
        ensures
            settings == match stored {
                Some(stored) => stored,
                None => GraphicsSettings::initial(),
            },
    {
        match stored {
            Some(stored) => stored,
            None => Default::default(),
        }
    }

    /// Whether every setting is one of those a player can choose.
    pub open spec fn spec_is_offered(&self) -> bool {
        self.limit_framerate.spec_is_offered() && self.texture_filtering.spec_is_offered()
    }

    #[verifier::when_used_as_spec(spec_is_offered)]
    pub fn is_offered(&self) -> (offered: bool)
        ensures
            offered == self.spec_is_offered(),
    {
        self.limit_framerate.is_offered() && self.texture_filtering.is_offered()
    }
}

impl Default for GraphicsSettings {
    fn default() -> (settings: Self)
        ensures
            settings == GraphicsSettings::initial(),
    {
        GraphicsSettings {
            vsync: true,
            limit_framerate: LimitFramerate::Unlimited,
            triple_buffering: true,
            texture_filtering: TextureSamplerType::Anisotropic(4),
            msaa: Msaa::X4,
            ssaa: Ssaa::Off,
            screen_space_anti_aliasing: ScreenSpaceAntiAliasing::Off,
            shadow_detail: ShadowDetail::High,
            high_quality_interface: true,
        }
    }
}

/// Debug rendering options for controlling visibility and behavior of various
/// rendering features.
#[derive(Debug, Clone, Copy, PartialEq, Eq, Structural)]
pub struct RenderOptions {
    /// Display frames per second counter.
    pub show_frames_per_second: bool,
    /// Enable frustum culling to skip rendering off-screen objects.
    pub frustum_culling: bool,
    /// Display bounding boxes around objects.
    pub show_bounding_boxes: bool,
    /// Render the map geometry.
    pub show_map: bool,
    /// Render map objects.
    pub show_objects: bool,
    /// Render entities.
    pub show_entities: bool,
    /// Render entities with paper-style visualization.
    pub show_entities_paper: bool,
    /// Render entities with debug visualization.
    pub show_entities_debug: bool,
    /// Render water surfaces.
    pub show_water: bool,
    /// Display interaction indicators.
    pub show_indicators: bool,
    /// Enable ambient lighting.
    pub enable_ambient_lighting: bool,
    /// Enable directional lighting.
    pub enable_directional_lighting: bool,
    /// Enable point light sources.
    pub enable_point_lights: bool,
    /// Enable lighting for particle effects.
    pub enable_particle_lighting: bool,
    /// Use debug camera instead of normal camera.
    pub use_debug_camera: bool,
    /// Render geometry in wireframe mode.
    pub show_wireframe: bool,
    /// Display markers for map objects.
    pub show_object_markers: bool,
    /// Display markers for light sources.
    pub show_light_markers: bool,
    /// Display markers for sound emitters.
    pub show_sound_markers: bool,
    /// Display markers for effects.
    pub show_effect_markers: bool,
    /// Display markers for particles.
    pub show_particle_markers: bool,
    /// Display markers for entities.
    pub show_entity_markers: bool,
    /// Display markers for shadow casters.
    pub show_shadow_markers: bool,
    /// Display map tile grid.
    pub show_map_tiles: bool,
    /// Display pathfinding data.
    pub show_pathing: bool,
    /// Display the picker buffer used for object selection.
    pub show_picker_buffer: bool,
    /// Display specified directional shadow map cascade, counted from one.
    pub show_directional_shadow_map: Option<u32>,
    /// Display specified point light shadow map, counted from one.
    pub show_point_shadow_map: Option<u32>,
    /// Display light culling count buffer.
    pub show_light_culling_count_buffer: bool,
    /// Display the font atlas texture.
    pub show_font_map: bool,
    /// Display Sample Distribution Shadow Map partitions.
    pub show_sdsm_partitions: bool,
    /// Display debug info for rectangle rendering instructions.
    pub show_rectangle_instructions: bool,
    /// Display debug info for glyph rendering instructions.
    pub show_glyph_instructions: bool,
    /// Display debug info for sprite rendering instructions.
    pub show_sprite_instructions: bool,
    /// Display debug info for signed distance field rendering instructions.
    pub show_sdf_instructions: bool,
}

impl RenderOptions {
    /// A shadow map that is chosen for display is chosen by a number that is
    /// not zero.
    pub open spec fn wf(&self) -> bool {
        self.show_directional_shadow_map != Some(0u32) && self.show_point_shadow_map != Some(0u32)
    }

    /// The options with which debugging starts: the world is shown as it is,
    /// without any aid.
    pub open spec fn initial() -> RenderOptions {
        RenderOptions {
            show_frames_per_second: false,
            frustum_culling: true,
            show_bounding_boxes: false,
            show_map: true,
            show_objects: true,
            show_entities: true,
            show_entities_paper: false,
            show_entities_debug: false,
            show_water: true,
            show_indicators: true,
            enable_ambient_lighting: true,
            enable_directional_lighting: true,
            enable_point_lights: true,
            enable_particle_lighting: true,
            use_debug_camera: false,
            show_wireframe: false,
            show_object_markers: false,
            show_light_markers: false,
            show_sound_markers: false,
            show_effect_markers: false,
            show_particle_markers: false,
            show_entity_markers: false,
            show_shadow_markers: false,
            show_map_tiles: false,
            show_pathing: false,
            show_picker_buffer: false,
            show_directional_shadow_map: None,
            show_point_shadow_map: None,
            show_light_culling_count_buffer: false,
            show_font_map: false,
            show_sdsm_partitions: false,
            show_rectangle_instructions: false,
            show_glyph_instructions: false,
            show_sprite_instructions: false,
            show_sdf_instructions: false,
        }
    }

    /// Creates a new RenderOptions with default debug settings.
    pub fn new() -> (options: Self)
        ensures
            options == RenderOptions::initial(),
            options.wf(),
            !options.spec_show_buffers(),
    {
        RenderOptions {
            show_frames_per_second: false,
            frustum_culling: true,
            show_bounding_boxes: false,
            show_map: true,
            show_objects: true,
            show_entities: true,
            show_entities_paper: false,
            show_entities_debug: false,
            show_water: true,
            show_indicators: true,
            enable_ambient_lighting: true,
            enable_directional_lighting: true,
            enable_point_lights: true,
            enable_particle_lighting: true,
            use_debug_camera: false,
            show_wireframe: false,
            show_object_markers: false,
            show_light_markers: false,
            show_sound_markers: false,
            show_effect_markers: false,
            show_particle_markers: false,
            show_entity_markers: false,
            show_shadow_markers: false,
            show_map_tiles: false,
            show_pathing: false,
            show_picker_buffer: false,
            show_directional_shadow_map: None,
            show_point_shadow_map: None,
            show_light_culling_count_buffer: false,
            show_font_map: false,
            show_sdsm_partitions: false,
            show_rectangle_instructions: false,
            show_glyph_instructions: false,
            show_sprite_instructions: false,
            show_sdf_instructions: false,
        }
    }

    pub open spec fn spec_show_buffers(&self) -> bool {
        self.show_picker_buffer || self.show_directional_shadow_map.is_some()
            || self.show_point_shadow_map.is_some() || self.show_light_culling_count_buffer
            || self.show_sdsm_partitions || self.show_font_map
    }

    /// Returns true if any debug buffer visualization is enabled.
    #[verifier::when_used_as_spec(spec_show_buffers)]
    pub fn show_buffers(&self) -> (shown: bool)
        ensures
            shown == self.spec_show_buffers(),
    {
        self.show_picker_buffer || self.show_directional_shadow_map.is_some()
            || self.show_point_shadow_map.is_some() || self.show_light_culling_count_buffer
            || self.show_sdsm_partitions || self.show_font_map
    }
}

impl Default for RenderOptions {
    /// Every option off.
    fn default() -> (options: Self)
        ensures
            options.wf(),
            !options.spec_show_buffers(),
            !options.show_map && !options.frustum_culling,
    {
        RenderOptions {
            show_frames_per_second: false,
            frustum_culling: false,
            show_bounding_boxes: false,
            show_map: false,
            show_objects: false,
            show_entities: false,
            show_entities_paper: false,
            show_entities_debug: false,
            show_water: false,
            show_indicators: false,
            enable_ambient_lighting: false,
            enable_directional_lighting: false,
            enable_point_lights: false,
            enable_particle_lighting: false,
            use_debug_camera: false,
            show_wireframe: false,
            show_object_markers: false,
            show_light_markers: false,
            show_sound_markers: false,
            show_effect_markers: false,
            show_particle_markers: false,
            show_entity_markers: false,
            show_shadow_markers: false,
            show_map_tiles: false,
            show_pathing: false,
            show_picker_buffer: false,
            show_directional_shadow_map: None,
            show_point_shadow_map: None,
            show_light_culling_count_buffer: false,
            show_font_map: false,
            show_sdsm_partitions: false,
            show_rectangle_instructions: false,
            show_glyph_instructions: false,
            show_sprite_instructions: false,
            show_sdf_instructions: false,
        }
    }
}

} // verus!
