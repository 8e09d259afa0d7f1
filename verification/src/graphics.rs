//! What the client decides for the renderer without touching the device:
//! how frames are presented, what a texture's pixels allow, and which font
//! atlases it can use.

use vstd::prelude::*;

verus! {

/// How finished frames reach the screen.
#[derive(Debug, Clone, Copy, PartialEq, Eq, Hash, Structural)]
pub enum PresentMode {
    AutoVsync,
    AutoNoVsync,
    Fifo,
    FifoRelaxed,
    Immediate,
    Mailbox,
}

/// Information about which presentation modes are supported by the surface.
#[derive(Debug, Clone, Copy, PartialEq, Eq, Structural)]
pub struct PresentModeInfo {
    /// Vsync On (Fast)
    pub supports_mailbox: bool,
    /// Vsync Off
    pub supports_immediate: bool,
}

impl PresentModeInfo {
    /// Creates present mode information from the present modes that the
    /// surface is capable of with the adapter.
    pub fn from_adapter(present_modes: &[PresentMode]) -> (present_mode_info: PresentModeInfo)
        ensures
            present_mode_info.supports_mailbox == present_modes@.contains(PresentMode::Mailbox),
            present_mode_info.supports_immediate == present_modes@.contains(PresentMode::Immediate),
    {
        let mut present_mode_info = PresentModeInfo { supports_immediate: false, supports_mailbox: false };

        let mut index: usize = 0;
        while index < present_modes.len()
            invariant
                index <= present_modes.len(),
                present_mode_info.supports_mailbox == present_modes@.take(index as int).contains(
                    PresentMode::Mailbox,
                ),
                present_mode_info.supports_immediate == present_modes@.take(index as int).contains(
                    PresentMode::Immediate,
                ),
            decreases present_modes.len() - index,
        {
            let ghost seen = present_modes@.take(index as int);
            match present_modes[index] {
                PresentMode::Mailbox => {
                    present_mode_info.supports_mailbox = true;
                },
                PresentMode::Immediate => {
                    present_mode_info.supports_immediate = true;
                },
                _ => {},
            }
            proof {
                let next = present_modes@.take(index + 1);
                assert(next =~= seen.push(present_modes@[index as int]));
                assert(next[index as int] == present_modes@[index as int]);
                assert forall|mode: PresentMode| next.contains(mode) <==> seen.contains(mode) || mode
                    == present_modes@[index as int] by {
                    if seen.contains(mode) {
                        let i = choose|i: int| 0 <= i < seen.len() && seen[i] == mode;
                        assert(next[i] == mode);
                    }
                    if next.contains(mode) {
                        let i = choose|i: int| 0 <= i < next.len() && next[i] == mode;
                        if i < index {
                            assert(seen[i] == mode);
                        }
                    }
                }
            }
            index += 1;
        }
        assert(present_modes@.take(index as int) =~= present_modes@);

        present_mode_info
    }

    /// The mode in which frames are presented: with vsync frames wait for
    /// the screen, and without it the fastest mode that is supported is taken.
    pub open spec fn spec_present_mode(&self, vsync: bool) -> PresentMode {
        if !vsync && self.supports_mailbox {
            PresentMode::Mailbox
        } else if !vsync && self.supports_immediate {
            PresentMode::Immediate
        } else {
            PresentMode::Fifo
        }
    }

    /// Returns the mode in which frames are presented.
    #[verifier::when_used_as_spec(spec_present_mode)]
    pub fn present_mode(&self, vsync: bool) -> (mode: PresentMode)
        ensures
            mode == self.spec_present_mode(vsync),
    {
        if !vsync && self.supports_mailbox {
            PresentMode::Mailbox
        } else if !vsync && self.supports_immediate {
            PresentMode::Immediate
        } else {
            PresentMode::Fifo
        }
    }
}

/// The number of frames that may wait to be presented.
pub open spec fn frame_latency(triple_buffering: bool) -> u32 {
    if triple_buffering {
        2
    } else {
        1
    }
}

/// Returns the number of frames that may wait to be presented.
pub fn desired_maximum_frame_latency(triple_buffering: bool) -> (frames: u32)
    ensures
        frames == frame_latency(triple_buffering),
{
    match triple_buffering {
        true => 2,
        false => 1,
    }
}

/// Why the next frame could not be acquired.
#[derive(Debug, Clone, Copy, PartialEq, Eq, Hash, Structural)]
pub enum SurfaceError {
    Timeout,
    Outdated,
    Lost,
    OutOfMemory,
    Other,
}

/// What came of asking the device for the next frame.
#[derive(Debug, Clone, Copy, PartialEq, Eq, Hash, Structural)]
pub enum FrameOutcome {
    /// A frame, which may fit the surface badly.
    Acquired { suboptimal: bool },
    Failed(SurfaceError),
}

/// What to do after the device was asked for the next frame.
#[derive(Debug, Clone, Copy, PartialEq, Eq, Hash, Structural)]
pub enum AcquireAction {
    /// Render into the frame.
    Render,
    /// Ask again.
    Retry,
    /// Configure the surface anew, then ask again.
    ReconfigureAndRetry,
}

/// How a surface is configured, as far as the client decides it.
#[derive(Debug, Clone, Copy, PartialEq, Eq, Structural)]
pub struct SurfaceConfiguration {
    pub width: u32,
    pub height: u32,
    pub present_mode: PresentMode,
    pub desired_maximum_frame_latency: u32,
}

/// The configuration of the rendering surface and whether the device has to
/// be told of it. The device itself is held elsewhere.
#[derive(Debug, Clone, Copy, PartialEq, Eq, Structural)]
pub struct Surface {
    config: SurfaceConfiguration,
    present_mode_info: PresentModeInfo,
    invalid: bool,
}

/// What contracts can say of a surface.
pub struct SurfaceView {
    pub config: SurfaceConfiguration,
    pub present_mode_info: PresentModeInfo,
    pub invalid: bool,
}

/// The side of a window in pixels as the surface takes it: at least one.
pub open spec fn at_least_one(pixels: u32) -> u32 {
    if pixels == 0 {
        1
    } else {
        pixels
    }
}

impl View for Surface {
    type V = SurfaceView;

    closed spec fn view(&self) -> SurfaceView {
        SurfaceView { config: self.config, present_mode_info: self.present_mode_info, invalid: self.invalid }
    }
}

impl Surface {
    /// Creates a new surface with the specified configuration and
    /// presentation settings. The surface is valid: it is configured with
    /// what is returned by [`Surface::configuration`] right away.
    pub fn new(
        present_mode_info: PresentModeInfo,
        window_width: u32,
        window_height: u32,
        triple_buffering: bool,
        vsync: bool,
    ) -> (surface: Self)
        ensures
            surface@ == (SurfaceView {
                config: SurfaceConfiguration {
                    width: at_least_one(window_width),
                    height: at_least_one(window_height),
                    present_mode: present_mode_info.spec_present_mode(vsync),
                    desired_maximum_frame_latency: frame_latency(triple_buffering),
                },
                present_mode_info,
                invalid: false,
            }),
    {
        let window_width = if window_width < 1 {
            1
        } else {
            window_width
        };
        let window_height = if window_height < 1 {
            1
        } else {
            window_height
        };

        Surface {
            config: SurfaceConfiguration {
                width: window_width,
                height: window_height,
                present_mode: present_mode_info.present_mode(vsync),
                desired_maximum_frame_latency: desired_maximum_frame_latency(triple_buffering),
            },
            present_mode_info,
            invalid: false,
        }
    }

    /// What to do after the device was asked for the next frame: a frame is
    /// rendered into, after a timeout the device is asked again, and after any
    /// other failure the surface is configured anew first.
    pub open spec fn action_after(outcome: FrameOutcome) -> AcquireAction {
        match outcome {
            FrameOutcome::Acquired { .. } => AcquireAction::Render,
            FrameOutcome::Failed(SurfaceError::Timeout) => AcquireAction::Retry,
            FrameOutcome::Failed(_) => AcquireAction::ReconfigureAndRetry,
        }
    }

    /// Acquires the next frame's surface texture for rendering, as far as
    /// the client decides: takes in what came of asking the device, and says
    /// what to do. A frame that fits the surface badly marks the surface as
    /// invalid.
    pub fn acquire(&mut self, outcome: FrameOutcome) -> (action: AcquireAction)
        ensures
            action == Surface::action_after(outcome),
            final(self)@ == (SurfaceView {
                invalid: old(self)@.invalid || outcome == (FrameOutcome::Acquired { suboptimal: true }),
                ..old(self)@
            }),
    {
        match outcome {
            FrameOutcome::Acquired { suboptimal } => {
                if suboptimal {
                    self.invalid = true;
                }
                AcquireAction::Render
            },
            // On timeout, we will just try again.
            FrameOutcome::Failed(SurfaceError::Timeout) => AcquireAction::Retry,
            // If the surface is outdated, or was lost, reconfigure it. If OutOfMemory
            // happens, reconfiguring may not help, but we might as well try.
            FrameOutcome::Failed(
                SurfaceError::Lost | SurfaceError::Other | SurfaceError::OutOfMemory | SurfaceError::Outdated,
            ) => AcquireAction::ReconfigureAndRetry,
        }
    }

    /// Marks the surface as invalid, requiring reconfiguration.
    pub fn invalidate(&mut self)
        ensures
            final(self)@ == (SurfaceView { invalid: true, ..old(self)@ }),
    {
        self.invalid = true;
    }

    /// Returns whether the surface is invalid and needs reconfiguration.
    pub fn is_invalid(&self) -> (invalid: bool)
        ensures
            invalid == self@.invalid,
    {
        self.invalid
    }

    /// Clears the invalid flag and returns the configuration that the device
    /// is to be given.
    pub fn reconfigure(&mut self) -> (config: SurfaceConfiguration)
        ensures
            config == old(self)@.config,
            final(self)@ == (SurfaceView { invalid: false, ..old(self)@ }),
    {
        self.invalid = false;
        self.config
    }

    /// Enables or disables vsync and marks the surface for reconfiguration.
    pub fn set_vsync(&mut self, enabled: bool)
        ensures
            final(self)@ == (SurfaceView {
                config: SurfaceConfiguration {
                    present_mode: old(self)@.present_mode_info.spec_present_mode(enabled),
                    ..old(self)@.config
                },
                invalid: true,
                ..old(self)@
            }),
    {
        self.config.present_mode = self.present_mode_info.present_mode(enabled);

        self.invalidate();
    }

    /// Enables or disables triple buffering by adjusting frame latency.
    pub fn set_triple_buffering(&mut self, enabled: bool)
        ensures
            final(self)@ == (SurfaceView {
                config: SurfaceConfiguration {
                    desired_maximum_frame_latency: frame_latency(enabled),
                    ..old(self)@.config
                },
                ..old(self)@
            }),
    {
        self.config.desired_maximum_frame_latency = desired_maximum_frame_latency(enabled);
    }

    /// Updates the window size and marks the surface for reconfiguration.
    pub fn update_window_size(&mut self, width: u32, height: u32)
        ensures
            final(self)@ == (SurfaceView {
                config: SurfaceConfiguration { width, height, ..old(self)@.config },
                invalid: true,
                ..old(self)@
            }),
    {
        self.config.width = width;
        self.config.height = height;
        self.invalidate();
    }

    /// Returns information about supported presentation modes.
    pub fn present_mode_info(&self) -> (present_mode_info: PresentModeInfo)
        ensures
            present_mode_info == self@.present_mode_info,
    {
        self.present_mode_info
    }

    /// Returns the configuration as it was last set.
    pub fn configuration(&self) -> (config: SurfaceConfiguration)
        ensures
            config == self@.config,
    {
        self.config
    }

    /// Returns the window size: its width, then its height, in pixels.
    pub fn window_size(&self) -> (size: (usize, usize))
        ensures
            size.0 == self@.config.width,
            size.1 == self@.config.height,
    {
        (self.config.width as usize, self.config.height as usize)
    }
}

/// Whether one of the pixels, four bytes each with the alpha value last, is
/// neither fully transparent nor fully opaque. Bytes that do not make up a
/// whole pixel at the end are not looked at.
pub open spec fn has_transparent_pixel(srgba_bytes: Seq<u8>) -> bool {
    exists|pixel: int|
        0 <= pixel < srgba_bytes.len() / 4 && #[trigger] srgba_bytes[4 * pixel + 3] != 0 && srgba_bytes[4 * pixel
            + 3] != 255
}

/// Returns `true` if the sRGBA gamma encoded pixel contains a pixel that has an
/// alpha value neither 0 nor 255.
pub fn contains_transparent_pixel(srgba_bytes: &[u8]) -> (found: bool)
    ensures
        found == has_transparent_pixel(srgba_bytes@),
{
    let length = srgba_bytes.len();
    let pixels = length / 4;
    let mut pixel: usize = 0;
    while pixel < pixels
        invariant
            length == srgba_bytes@.len(),
            pixels == length / 4,
            pixel <= pixels,
            forall|earlier: int|
                0 <= earlier < pixel ==> #[trigger] srgba_bytes@[4 * earlier + 3] == 0 || srgba_bytes@[4 * earlier
                    + 3] == 255,
        decreases pixels - pixel,
    {
        let alpha = srgba_bytes[4 * pixel + 3];
        if alpha != 0 && alpha != 255 {
            return true;
        }
        pixel += 1;
    }
    false
}

/// A marker that the debugging views draw, by what it marks.
#[derive(Debug, Clone, Copy, PartialEq, Eq, Structural)]
pub enum MarkerIdentifier {
    Object(u32),
    LightSource(u32),
    SoundSource(u32),
    EffectSource(u32),
    Particle(u16, u16),
    Entity(u32),
    Shadow(u32),
}

#[derive(Debug, Clone, Copy, PartialEq, Eq, PartialOrd, Ord, Structural)]
pub enum AtlasType {
    Msdf,
}

#[derive(Debug, Clone, Copy, PartialEq, Eq, Structural)]
pub enum YOrigin {
    Bottom,
    Top,
}

/// The atlas of a font map, as its description gives it.
#[derive(Debug, Clone, Copy, PartialEq, Eq, Structural)]
pub struct Atlas {
    pub atlas_type: AtlasType,
    pub distance_range: u32,
    pub distance_range_middle: u32,
    pub size: u32,
    pub width: u32,
    pub height: u32,
    pub y_origin: YOrigin,
}

impl Atlas {
    /// The client draws text from a multi-channel distance field with a
    /// range of 8 around 0, and from no other.
    pub open spec fn spec_is_usable(&self) -> bool {
        self.atlas_type == AtlasType::Msdf && self.distance_range == 8 && self.distance_range_middle == 0
    }

    /// Whether the client can draw text from this atlas.
    #[verifier::when_used_as_spec(spec_is_usable)]
    pub fn is_usable(&self) -> (usable: bool)
        ensures
            usable == self.spec_is_usable(),
    {
        match self.atlas_type {
            AtlasType::Msdf => self.distance_range == 8 && self.distance_range_middle == 0,
        }
    }
}

} // verus!
