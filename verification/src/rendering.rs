//! The experimental Direct2D terminal painter: when it may be used, when it
//! logs its timings, and when it is given up.
use vstd::prelude::*;

use crate::text::{parse_number, same_text};
#[allow(unused_imports)]
use crate::text::{decimal, decimal_reads_back, number_digits, parsed_number};

verus! {

/// What kind of device an adapter stands for.
#[derive(Clone, Copy, Debug, PartialEq, Eq, Structural)]
pub enum DeviceType {
    Other,
    IntegratedGpu,
    DiscreteGpu,
    VirtualGpu,
    Cpu,
}

/// The graphics interface that an adapter is reached through.
#[derive(Clone, Copy, Debug, PartialEq, Eq, Structural)]
pub enum Backend {
    Noop,
    Vulkan,
    Metal,
    Dx12,
    Gl,
    BrowserWebGpu,
}

/// The format of the surface that is painted on.
#[derive(Clone, Copy, Debug, PartialEq, Eq, Structural)]
pub enum TextureFormat {
    Bgra8Unorm,
    Rgba8Unorm,
    Bgra8UnormSrgb,
    Rgba8UnormSrgb,
    Rgba16Float,
    Other,
}

/// The painter needs a software adapter of DirectX 12 and an 8-bit surface
/// whose colours are stored as they are shown.
pub open spec fn paintable(device: DeviceType, backend: Backend, format: TextureFormat) -> bool {
    &&& device == DeviceType::Cpu
    &&& backend == Backend::Dx12
    &&& format == TextureFormat::Bgra8Unorm || format == TextureFormat::Rgba8Unorm
}

pub fn eligible(device: DeviceType, backend: Backend, format: TextureFormat) -> (result: bool)
    ensures
        result == paintable(device, backend, format),
{
    matches!(device, DeviceType::Cpu) && matches!(backend, Backend::Dx12) && matches!(
        format,
        TextureFormat::Bgra8Unorm | TextureFormat::Rgba8Unorm
    )
}

/// The setting that asks for the painter.
#[derive(Clone, Copy, Debug)]
pub enum PainterSetting<'a> {
    Unset,
    Value(&'a str),
    NotUnicode,
}

/// What becomes of the painter at start.
#[derive(Clone, Copy, Debug, PartialEq, Eq, Structural)]
pub enum PainterDecision {
    /// It was not asked for.
    NotRequested,
    /// The setting means nothing.
    InvalidSetting,
    /// There is no renderer that it could paint for.
    NoRenderer,
    /// The renderer is not one that it can paint for.
    NotEligible,
    /// It exists on another platform only.
    UnsupportedPlatform,
    Install,
}

/// Decides about the painter at start. `adapter` is the renderer's adapter and
/// surface, where there is a renderer.
pub fn install_from_environment(
    setting: PainterSetting<'_>,
    adapter: Option<(DeviceType, Backend, TextureFormat)>,
    supported_platform: bool,
) -> (decision: PainterDecision)
    ensures
        decision == match setting {
            PainterSetting::Unset => PainterDecision::NotRequested,
            PainterSetting::NotUnicode => PainterDecision::InvalidSetting,
            PainterSetting::Value(value) => if value@ == "0"@ {
                PainterDecision::NotRequested
            } else if value@ != "1"@ {
                PainterDecision::InvalidSetting
            } else {
                match adapter {
                    None => PainterDecision::NoRenderer,
                    Some((device, backend, format)) => if !paintable(device, backend, format) {
                        PainterDecision::NotEligible
                    } else if !supported_platform {
                        PainterDecision::UnsupportedPlatform
                    } else {
                        PainterDecision::Install
                    },
                }
            },
        },
{
    match setting {
        PainterSetting::Unset => return PainterDecision::NotRequested,
        PainterSetting::NotUnicode => return PainterDecision::InvalidSetting,
        PainterSetting::Value(value) => {
            if same_text(value, "0") {
                return PainterDecision::NotRequested;
            }
            if !same_text(value, "1") {
                return PainterDecision::InvalidSetting;
            }
        },
    }
    match adapter {
        None => PainterDecision::NoRenderer,
        Some((device, backend, format)) => if !eligible(device, backend, format) {
            PainterDecision::NotEligible
        } else if !supported_platform {
            PainterDecision::UnsupportedPlatform
        } else {
            PainterDecision::Install
        },
    }
}

/// Which frames have their timings logged.
#[derive(Clone, Copy, Debug, PartialEq, Eq, Structural)]
pub enum TimingConfig {
    Disabled,
    EveryFrame,
    EveryNthFrame(u64),
}

/// A setting of the timings that means nothing.
#[derive(Clone, Copy, Debug, PartialEq, Eq, Structural)]
pub struct InvalidTimings;

impl InvalidTimings {
    pub open spec fn message_text() -> Seq<char> {
        "FESTERM_DIRECT2D_TIMINGS expects 0, 1, or an integer interval >= 2"@
    }

    pub fn message(self) -> (message: &'static str)
        ensures
            message@ == Self::message_text(),
    {
        "FESTERM_DIRECT2D_TIMINGS expects 0, 1, or an integer interval >= 2"
    }
}

impl TimingConfig {
    /// What a setting of the timings means: nothing or zero for none, one for
    /// every frame, and a greater number for every so many frames.
    pub open spec fn meaning(value: Option<Seq<char>>) -> Option<Self> {
        match value {
            None => Some(TimingConfig::Disabled),
            Some(value) => if value == ""@ || value == "0"@ {
                Some(TimingConfig::Disabled)
            } else if value == "1"@ {
                Some(TimingConfig::EveryFrame)
            } else {
                match parsed_number(value, u64::MAX as nat) {
                    Some(interval) => if interval > 1 {
                        Some(TimingConfig::EveryNthFrame(interval as u64))
                    } else {
                        None
                    },
                    None => None,
                }
            },
        }
    }

    pub fn from_environment(value: Option<&str>) -> (config: Result<Self, InvalidTimings>)
        ensures
            match config {
                Ok(config) => Self::meaning(
                    match value {
                        Some(value) => Some(value@),
                        None => None,
                    },
                ) == Some(config),
                Err(_) => Self::meaning(
                    match value {
                        Some(value) => Some(value@),
                        None => None,
                    },
                ) is None,
            },
    {
        let value = match value {
            Some(value) => value,
            None => return Ok(TimingConfig::Disabled),
        };
        if same_text(value, "") || same_text(value, "0") {
            return Ok(TimingConfig::Disabled);
        }
        if same_text(value, "1") {
            return Ok(TimingConfig::EveryFrame);
        }
        match parse_number(value, u64::MAX) {
            Some(interval) => if interval > 1 {
                Ok(TimingConfig::EveryNthFrame(interval))
            } else {
                Err(InvalidTimings)
            },
            None => Err(InvalidTimings),
        }
    }

    pub fn enabled(self) -> (result: bool)
        ensures
            result == (self != TimingConfig::Disabled),
    {
        !matches!(self, TimingConfig::Disabled)
    }

    /// Frame `frame` has its timings logged.
    pub open spec fn logs(self, frame: u64) -> bool {
        match self {
            TimingConfig::Disabled => false,
            TimingConfig::EveryFrame => true,
            TimingConfig::EveryNthFrame(interval) => if interval == 0 {
                frame == 0
            } else {
                frame % interval == 0
            },
        }
    }

    pub fn should_log(self, frame: u64) -> (result: bool)
        ensures
            result == self.logs(frame),
    {
        match self {
            TimingConfig::Disabled => false,
            TimingConfig::EveryFrame => true,
            TimingConfig::EveryNthFrame(interval) => if interval == 0 {
                frame == 0
            } else {
                frame % interval == 0
            },
        }
    }
}

/// Every interval that can be asked for is understood as it is written.
pub proof fn written_intervals_are_understood(interval: u64)
    requires
        interval > 1,
    ensures
        TimingConfig::meaning(Some(decimal(interval as nat))) == Some(
            TimingConfig::EveryNthFrame(interval),
        ),
{
    let text = decimal(interval as nat);
    decimal_reads_back(interval as nat);
    decimal_reads_back(0);
    decimal_reads_back(1);
    reveal_strlit("");
    reveal_strlit("0");
    reveal_strlit("1");
    assert("0"@ =~= decimal(0));
    assert("1"@ =~= decimal(1));
    assert('0' <= text[0] <= '9');
    assert(number_digits(text) == text);
}

/// The four bytes of `x`, the lowest first.
pub open spec fn little_endian(x: u32) -> Seq<u8> {
    seq![
        (x % 256) as u8,
        (x / 256 % 256) as u8,
        (x / 65536 % 256) as u8,
        (x / 16777216) as u8,
    ]
}

fn push_little_endian(bytes: &mut Vec<u8>, x: u32)
    ensures
        final(bytes)@ == old(bytes)@ + little_endian(x),
{
    bytes.push((x % 256) as u8);
    bytes.push((x / 256 % 256) as u8);
    bytes.push((x / 65536 % 256) as u8);
    bytes.push((x / 16777216) as u8);
    assert(bytes@ =~= old(bytes)@ + little_endian(x));
}

/// The four-word uniform that tells the shader where the surface starts: the
/// two coordinates, then zeros.
pub open spec fn origin_bytes(x: u32, y: u32) -> Seq<u8> {
    little_endian(x) + little_endian(y) + little_endian(0) + little_endian(0)
}

pub fn origin_uniform(x: u32, y: u32) -> (bytes: Vec<u8>)
    ensures
        bytes@ == origin_bytes(x, y),
        bytes@.len() == 16,
{
    let mut bytes: Vec<u8> = Vec::new();
    push_little_endian(&mut bytes, x);
    push_little_endian(&mut bytes, y);
    push_little_endian(&mut bytes, 0);
    push_little_endian(&mut bytes, 0);
    assert(bytes@ =~= origin_bytes(x, y));
    bytes
}

/// What the painter has done so far.
#[derive(Debug)]
pub struct PainterStatus {
    pub active: bool,
    pub frames: u64,
    pub first_failure: Option<String>,
}

/// How an attempt to paint a frame went.
pub enum PaintResult {
    /// The painter's state was left unusable by an earlier panic.
    Poisoned,
    /// There is nothing that it can paint in this frame.
    Unsupported,
    Failed(String),
    Painted,
}

/// What follows an attempt to paint.
#[derive(Clone, Copy, Debug, PartialEq, Eq, Structural)]
pub enum PaintOutcome {
    /// The frame is painted without the painter.
    UseDefault,
    /// So are this frame and all that follow.
    RemovePainter,
    /// The painted surface is shown, and its timings logged where `log` says so.
    Show { frame: u64, log: bool },
}

impl PainterStatus {
    pub fn new() -> (status: Self)
        ensures
            status.active,
            status.frames == 0,
            status.first_failure is None,
    {
        PainterStatus { active: true, frames: 0, first_failure: None }
    }

    /// Takes in how painting a frame went. The first failure is kept, and takes
    /// the painter out of use.
    pub fn painted(&mut self, result: PaintResult, timings: TimingConfig) -> (outcome: PaintOutcome)
        requires
            old(self).frames < u64::MAX,
        ensures
            match result {
                PaintResult::Poisoned => {
                    &&& outcome == PaintOutcome::RemovePainter
                    &&& *final(self) == (PainterStatus { active: false, ..*old(self) })
                },
                PaintResult::Unsupported => {
                    &&& outcome == PaintOutcome::UseDefault
                    &&& *final(self) == *old(self)
                },
                PaintResult::Failed(error) => {
                    &&& outcome == PaintOutcome::RemovePainter
                    &&& *final(self) == (PainterStatus {
                        active: false,
                        first_failure: match old(self).first_failure {
                            Some(first) => Some(first),
                            None => Some(error),
                        },
                        ..*old(self)
                    })
                },
                PaintResult::Painted => {
                    let frame = (old(self).frames + 1) as u64;
                    &&& outcome == (PaintOutcome::Show { frame, log: timings.logs(frame) })
                    &&& *final(self) == (PainterStatus { frames: frame, ..*old(self) })
                },
            },
    {
        match result {
            PaintResult::Poisoned => {
                self.active = false;
                PaintOutcome::RemovePainter
            },
            PaintResult::Unsupported => PaintOutcome::UseDefault,
            PaintResult::Failed(error) => {
                if self.first_failure.is_none() {
                    self.first_failure = Some(error);
                }
                self.active = false;
                PaintOutcome::RemovePainter
            },
            PaintResult::Painted => {
                self.frames = self.frames + 1;
                PaintOutcome::Show { frame: self.frames, log: timings.should_log(self.frames) }
            },
        }
    }
}

/// A setting of the timings means none exactly where it is absent, empty or
/// zero, every frame exactly where it is one, and otherwise the number it is
/// written as, which is at least two; anything else means nothing.
pub proof fn timings_mean_what_is_written(value: Seq<char>, config: TimingConfig)
    ensures
        TimingConfig::meaning(None) == Some(TimingConfig::Disabled),
        TimingConfig::meaning(Some(value)) == Some(TimingConfig::Disabled) <==> value == ""@
            || value == "0"@,
        TimingConfig::meaning(Some(value)) == Some(TimingConfig::EveryFrame) <==> value == "1"@,
        TimingConfig::meaning(Some(value)) == Some(config) && config is EveryNthFrame
            ==> config->EveryNthFrame_0 >= 2 && parsed_number(value, u64::MAX as nat) == Some(
            config->EveryNthFrame_0 as nat,
        ),
        TimingConfig::meaning(Some(value)) is None ==> parsed_number(value, u64::MAX as nat) is None
            || parsed_number(value, u64::MAX as nat)->Some_0 < 2,
{
    reveal_strlit("");
    reveal_strlit("0");
    reveal_strlit("1");
    if value == "1"@ {
        assert("1"@[0] == '1' && "0"@[0] == '0');
        assert("1"@.len() == 1 && ""@.len() == 0);
    }
}

/// Of any so many frames that follow each other, exactly one is logged: a logged
/// frame is followed by the next one an interval later and by none in between.
pub proof fn logged_frames_are_an_interval_apart(interval: u64, frame: u64, later: u64)
    requires
        interval >= 1,
        TimingConfig::EveryNthFrame(interval).logs(frame),
        frame < later <= frame + interval,
    ensures
        TimingConfig::EveryNthFrame(interval).logs(later) <==> later == frame + interval,
        TimingConfig::EveryFrame.logs(later),
        !TimingConfig::Disabled.logs(later),
{
    let d = later - frame;
    assert((frame as int + d) % (interval as int) == d % (interval as int)) by (nonlinear_arith)
        requires
            frame as int % interval as int == 0,
            interval >= 1,
            0 < d,
    {
        vstd::arithmetic::div_mod::lemma_mod_adds(frame as int, d, interval as int);
        vstd::arithmetic::div_mod::lemma_add_mod_noop(frame as int, d, interval as int);
    }
    if d < interval {
        vstd::arithmetic::div_mod::lemma_small_mod(d as nat, interval as nat);
    } else {
        vstd::arithmetic::div_mod::lemma_mod_self_0(interval as int);
    }
}

/// The bytes of a number read back as the number, the lowest first.
pub proof fn little_endian_reads_back(x: u32)
    ensures
        little_endian(x).len() == 4,
        little_endian(x)[0] + 256 * little_endian(x)[1] + 65536 * little_endian(x)[2] + 16777216
            * little_endian(x)[3] == x,
{
}

/// The shader gets both coordinates, each in its own place, and nothing else.
pub proof fn origins_keep_their_coordinates(x: u32, y: u32)
    ensures
        origin_bytes(x, y).len() == 16,
        origin_bytes(x, y).take(4) == little_endian(x),
        origin_bytes(x, y).subrange(4, 8) == little_endian(y),
        origin_bytes(x, y).skip(8) == seq![0u8, 0u8, 0u8, 0u8, 0u8, 0u8, 0u8, 0u8],
{
    let bytes = origin_bytes(x, y);
    assert(bytes.take(4) =~= little_endian(x));
    assert(bytes.subrange(4, 8) =~= little_endian(y));
    assert(bytes.skip(8) =~= seq![0u8, 0u8, 0u8, 0u8, 0u8, 0u8, 0u8, 0u8]);
}

/// The painter paints for a software adapter of DirectX 12 on one of two
/// surfaces, and for nothing else.
pub proof fn the_painter_needs_a_software_adapter(
    device: DeviceType,
    backend: Backend,
    format: TextureFormat,
)
    ensures
        paintable(DeviceType::Cpu, Backend::Dx12, TextureFormat::Bgra8Unorm),
        paintable(DeviceType::Cpu, Backend::Dx12, TextureFormat::Rgba8Unorm),
        device != DeviceType::Cpu ==> !paintable(device, backend, format),
        backend != Backend::Dx12 ==> !paintable(device, backend, format),
        format != TextureFormat::Bgra8Unorm && format != TextureFormat::Rgba8Unorm ==> !paintable(
            device,
            backend,
            format,
        ),
{
}

} // verus!
