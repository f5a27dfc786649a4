//! Swap-chain descriptions and the DXGI entry.

use vstd::prelude::*;

use crate::{Format, SampleDesc};

verus! {

/// How a back buffer is stretched to its output.
#[derive(Clone, Copy, Debug, PartialEq, Eq, Structural)]
pub enum Scaling {
    Stretch,
    Identity,
    Aspect,
}

impl Scaling {
    /// The native `DXGI_SCALING` value.
    pub open spec fn spec_to_native(self) -> i32 {
        match self {
            Scaling::Stretch => 0,
            Scaling::Identity => 1,
            Scaling::Aspect => 2,
        }
    }

    #[verifier::when_used_as_spec(spec_to_native)]
    pub fn to_native(self) -> (r: i32)
        ensures
            r == self.spec_to_native(),
    {
        match self {
            Scaling::Stretch => 0,
            Scaling::Identity => 1,
            Scaling::Aspect => 2,
        }
    }
}

/// Distinct scalings have distinct native values.
pub proof fn lemma_scaling_native_injective(a: Scaling, b: Scaling)
    ensures
        a.to_native() == b.to_native() ==> a == b,
{
}

/// What happens to a back buffer once it has been presented.
#[derive(Clone, Copy, Debug, PartialEq, Eq, Structural)]
pub enum SwapEffect {
    Discard,
    Sequential,
    FlipDiscard,
    FlipSequential,
}

impl SwapEffect {
    /// The native `DXGI_SWAP_EFFECT` value.
    pub open spec fn spec_to_native(self) -> i32 {
        match self {
            SwapEffect::Discard => 0,
            SwapEffect::Sequential => 1,
            SwapEffect::FlipDiscard => 4,
            SwapEffect::FlipSequential => 3,
        }
    }

    #[verifier::when_used_as_spec(spec_to_native)]
    pub fn to_native(self) -> (r: i32)
        ensures
            r == self.spec_to_native(),
    {
        match self {
            SwapEffect::Discard => 0,
            SwapEffect::Sequential => 1,
            SwapEffect::FlipDiscard => 4,
            SwapEffect::FlipSequential => 3,
        }
    }
}

/// Distinct swap effects have distinct native values.
pub proof fn lemma_swap_effect_native_injective(a: SwapEffect, b: SwapEffect)
    ensures
        a.to_native() == b.to_native() ==> a == b,
{
}

/// How the alpha channel of a back buffer is read.
#[derive(Clone, Copy, Debug, PartialEq, Eq, Structural)]
pub enum AlphaMode {
    Unspecified,
    Premultiplied,
    Straight,
    Ignore,
    ForceDword,
}

impl AlphaMode {
    /// The native `DXGI_ALPHA_MODE` value.
    pub open spec fn spec_to_native(self) -> u32 {
        match self {
            AlphaMode::Unspecified => 0,
            AlphaMode::Premultiplied => 1,
            AlphaMode::Straight => 2,
            AlphaMode::Ignore => 3,
            AlphaMode::ForceDword => 0xffff_ffff,
        }
    }

    #[verifier::when_used_as_spec(spec_to_native)]
    pub fn to_native(self) -> (r: u32)
        ensures
            r == self.spec_to_native(),
    {
        match self {
            AlphaMode::Unspecified => 0,
            AlphaMode::Premultiplied => 1,
            AlphaMode::Straight => 2,
            AlphaMode::Ignore => 3,
            AlphaMode::ForceDword => 0xffff_ffff,
        }
    }
}

/// Distinct alpha modes have distinct native values.
pub proof fn lemma_alpha_mode_native_injective(a: AlphaMode, b: AlphaMode)
    ensures
        a.to_native() == b.to_native() ==> a == b,
{
}

/// Native `DXGI_USAGE` bits.
pub type Usage = u32;

/// Native `BOOL` value of `b`.
pub open spec fn native_bool(b: bool) -> i32 {
    if b { 1 } else { 0 }
}

/// A swap chain as the caller describes it.
#[derive(Clone, Copy, Debug, PartialEq, Eq, Structural)]
pub struct SwapchainDesc {
    pub width: u32,
    pub height: u32,
    pub format: Format,
    pub stereo: bool,
    pub sample: SampleDesc,
    pub buffer_usage: Usage,
    pub buffer_count: u32,
    pub scaling: Scaling,
    pub swap_effect: SwapEffect,
    pub alpha_mode: AlphaMode,
    pub flags: u32,
}

/// The native `DXGI_SWAP_CHAIN_DESC1` structure, field for field.
#[derive(Clone, Copy, Debug, PartialEq, Eq, Structural)]
pub struct NativeSwapChainDesc1 {
    pub width: u32,
    pub height: u32,
    pub format: Format,
    pub stereo: i32,
    pub sample_count: u32,
    pub sample_quality: u32,
    pub buffer_usage: Usage,
    pub buffer_count: u32,
    pub scaling: i32,
    pub swap_effect: i32,
    pub alpha_mode: u32,
    pub flags: u32,
}

/// Refresh rate written into a windowed swap chain's mode: numerator.
pub const REFRESH_RATE_NUMERATOR: u32 = 1;

/// Refresh rate written into a windowed swap chain's mode: denominator.
pub const REFRESH_RATE_DENOMINATOR: u32 = 60;

/// The native `DXGI_SWAP_CHAIN_DESC` structure, field for field, but for
/// the output window, which the caller supplies.
#[derive(Clone, Copy, Debug, PartialEq, Eq, Structural)]
pub struct NativeSwapChainDesc {
    pub width: u32,
    pub height: u32,
    pub refresh_numerator: u32,
    pub refresh_denominator: u32,
    pub format: Format,
    /// Native `DXGI_MODE_SCANLINE_ORDER`: unspecified.
    pub scanline_ordering: i32,
    /// Native `DXGI_MODE_SCALING`: unspecified.
    pub scaling: i32,
    pub sample_count: u32,
    pub sample_quality: u32,
    pub buffer_usage: Usage,
    pub buffer_count: u32,
    pub windowed: i32,
    pub swap_effect: i32,
    pub flags: u32,
}

impl SwapchainDesc {
    /// The description read by the flip-model creation entry points.
    pub fn to_desc1(&self) -> (r: NativeSwapChainDesc1)
        ensures
            r.width == self.width,
            r.height == self.height,
            r.format == self.format,
            r.stereo == native_bool(self.stereo),
            r.sample_count == self.sample.count,
            r.sample_quality == self.sample.quality,
            r.buffer_usage == self.buffer_usage,
            r.buffer_count == self.buffer_count,
            r.scaling == self.scaling.to_native(),
            r.swap_effect == self.swap_effect.to_native(),
            r.alpha_mode == self.alpha_mode.to_native(),
            r.flags == self.flags,
    {
        NativeSwapChainDesc1 {
            width: self.width,
            height: self.height,
            format: self.format,
            stereo: if self.stereo { 1 } else { 0 },
            sample_count: self.sample.count,
            sample_quality: self.sample.quality,
            buffer_usage: self.buffer_usage,
            buffer_count: self.buffer_count,
            scaling: self.scaling.to_native(),
            swap_effect: self.swap_effect.to_native(),
            alpha_mode: self.alpha_mode.to_native(),
            flags: self.flags,
        }
    }

    /// The description read by the legacy creation entry point: a windowed
    /// swap chain with unspecified scanline order and mode scaling.
    pub fn to_desc(&self) -> (r: NativeSwapChainDesc)
        ensures
            r.width == self.width,
            r.height == self.height,
            r.refresh_numerator == REFRESH_RATE_NUMERATOR,
            r.refresh_denominator == REFRESH_RATE_DENOMINATOR,
            r.format == self.format,
            r.scanline_ordering == 0,
            r.scaling == 0,
            r.sample_count == self.sample.count,
            r.sample_quality == self.sample.quality,
            r.buffer_usage == self.buffer_usage,
            r.buffer_count == self.buffer_count,
            r.windowed == native_bool(true),
            r.swap_effect == self.swap_effect.to_native(),
            r.flags == self.flags,
    {
        NativeSwapChainDesc {
            width: self.width,
            height: self.height,
            refresh_numerator: REFRESH_RATE_NUMERATOR,
            refresh_denominator: REFRESH_RATE_DENOMINATOR,
            format: self.format,
            scanline_ordering: 0,
            scaling: 0,
            sample_count: self.sample.count,
            sample_quality: self.sample.quality,
            buffer_usage: self.buffer_usage,
            buffer_count: self.buffer_count,
            windowed: 1,
            swap_effect: self.swap_effect.to_native(),
            flags: self.flags,
        }
    }
}

/// Entry to the DXGI runtime.
#[derive(Debug)]
pub struct DxgiLib {
    _disable_ctor: (),
}

impl DxgiLib {
    /// Opens the runtime; this always succeeds.
    pub fn new() -> (r: Result<Self, libloading::Error>)
        ensures
            r is Ok,
    {
        Ok(DxgiLib { _disable_ctor: () })
    }
}

} // verus!
