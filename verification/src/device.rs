//! Device-level descriptions: adapters, queues, sampling, and the knobs of
//! device creation.
//!
//! The logical GPU context itself lives outside this library; these types
//! carry what the frame protocol and the embedding program exchange about
//! it as plain values.

use vstd::prelude::*;

use crate::error::Error;

verus! {

/// Kind of adapter behind a device.
#[derive(Clone, Copy, PartialEq, Eq, Structural, Debug)]
pub enum DeviceType {
    /// A dedicated hardware GPU.
    DiscreteGpu,
    /// A software rasterizer, the WARP fallback among them.
    VirtualGpu,
}

/// What an adapter reports about itself.
#[derive(Clone, Debug)]
pub struct AdapterInfo {
    pub name: String,
    pub vendor: u32,
    pub device: u32,
    pub video_memory: usize,
    pub device_type: DeviceType,
}

/// Kind of submission queue a command list may execute on.
#[derive(Clone, Copy, PartialEq, Eq, Structural, Debug)]
pub enum QueueType {
    Graphics,
    Compute,
    Transfer,
}

/// Multisampling of a surface: sample count and quality level.
#[derive(Clone, Copy, PartialEq, Eq, Structural, Debug)]
pub struct SampleDesc {
    pub count: u32,
    pub quality: u32,
}

/// Native encoding of feature level 12.1.
pub const FEATURE_LEVEL_12_1: u32 = 0xc100;

/// Native encoding of feature level 12.0.
pub const FEATURE_LEVEL_12_0: u32 = 0xc000;

/// Native encoding of feature level 11.1.
pub const FEATURE_LEVEL_11_1: u32 = 0xb100;

/// Native encoding of feature level 11.0.
pub const FEATURE_LEVEL_11_0: u32 = 0xb000;

/// Outcome of probing a device for each feature level it is asked about.
#[derive(Clone, Copy, PartialEq, Eq, Structural, Debug)]
pub struct FeatureLevelSupport {
    pub level_12_1: bool,
    pub level_12_0: bool,
    pub level_11_1: bool,
    pub level_11_0: bool,
}

/// The feature level a created device runs at: the highest of 12.1, 12.0,
/// 11.1 and 11.0 that the probe reported supported, defaulting to 11.0 when
/// the probe reported nothing higher (or failed altogether).
pub fn select_feature_level(support: FeatureLevelSupport) -> (level: u32)
    ensures
        level == (if support.level_12_1 {
            FEATURE_LEVEL_12_1
        } else if support.level_12_0 {
            FEATURE_LEVEL_12_0
        } else if support.level_11_1 {
            FEATURE_LEVEL_11_1
        } else {
            FEATURE_LEVEL_11_0
        }),
{
    if support.level_12_1 {
        FEATURE_LEVEL_12_1
    } else if support.level_12_0 {
        FEATURE_LEVEL_12_0
    } else if support.level_11_1 {
        FEATURE_LEVEL_11_1
    } else {
        FEATURE_LEVEL_11_0
    }
}

/// The knobs of device creation, gathered in one place.
#[derive(Clone, Copy, PartialEq, Eq, Structural, Debug)]
pub struct DeviceConfig {
    /// Lowest feature level the device must support, as the native
    /// encoding of the level.
    pub feature_level_min: u32,
    /// Whether the validation layer is turned on before device creation.
    pub enable_debug_layer: bool,
    /// Whether the software adapter is preferred over hardware.
    pub prefer_warp: bool,
    /// Number of ring slots the presentation surface keeps.
    pub buffer_count: u32,
    /// Whether presentation waits for the vertical blank.
    pub vsync: bool,
}

impl DeviceConfig {
    /// The defaults: feature level 11.0, no validation layer, hardware
    /// adapter, three buffers, no vertical sync.
    pub fn new() -> (c: DeviceConfig)
        ensures
            c.feature_level_min == FEATURE_LEVEL_11_0,
            !c.enable_debug_layer,
            !c.prefer_warp,
            c.buffer_count == 3,
            !c.vsync,
    {
        DeviceConfig {
            feature_level_min: FEATURE_LEVEL_11_0,
            enable_debug_layer: false,
            prefer_warp: false,
            buffer_count: 3,
            vsync: false,
        }
    }
}

/// One enumerated adapter, together with whether a probing device creation
/// at the required feature level succeeded on it.
pub struct AdapterCandidate {
    pub info: AdapterInfo,
    pub supports_required_level: bool,
}

/// Whether a candidate may drive rendering: a hardware adapter whose probe
/// succeeded and that reports dedicated video memory.
pub open spec fn adapter_eligible(c: AdapterCandidate) -> bool {
    &&& c.info.device_type is DiscreteGpu
    &&& c.supports_required_level
    &&& c.info.video_memory > 0
}

/// Pick the adapter to create the device on: among the eligible candidates,
/// the one with the most dedicated video memory, the earliest on a tie.
/// With no eligible candidate the caller is told to fall back (to the
/// software adapter, or to fail).
pub fn select_adapter(candidates: &Vec<AdapterCandidate>) -> (r: Result<usize, Error>)
    ensures
        match r {
            Ok(i) => {
                &&& i < candidates.len()
                &&& adapter_eligible(candidates[i as int])
                &&& forall|j: int|
                    0 <= j < candidates.len() && adapter_eligible(candidates[j])
                        ==> candidates[j].info.video_memory
                        <= candidates[i as int].info.video_memory
                &&& forall|j: int|
                    0 <= j < i ==> !(adapter_eligible(candidates[j])
                        && candidates[j].info.video_memory
                        >= candidates[i as int].info.video_memory)
            },
            Err(e) => {
                &&& e == Error::AdapterNotFound
                &&& forall|j: int|
                    0 <= j < candidates.len() ==> !adapter_eligible(candidates[j])
            },
        },
{
    let mut best: Option<usize> = None;
    let mut best_memory: usize = 0;
    let n = candidates.len();
    let mut i: usize = 0;
    while i < n
        invariant
            i <= n,
            n == candidates.len(),
            best is None ==> best_memory == 0 && forall|j: int|
                0 <= j < i ==> !adapter_eligible(candidates[j]),
            best is Some ==> {
                &&& best.unwrap() < i
                &&& adapter_eligible(candidates[best.unwrap() as int])
                &&& best_memory == candidates[best.unwrap() as int].info.video_memory
                &&& forall|j: int|
                    0 <= j < i && adapter_eligible(candidates[j])
                        ==> candidates[j].info.video_memory <= best_memory
                &&& forall|j: int|
                    0 <= j < best.unwrap() ==> !(adapter_eligible(candidates[j])
                        && candidates[j].info.video_memory >= best_memory)
            },
        decreases n - i,
    {
        let candidate = &candidates[i];
        if candidate.info.device_type == DeviceType::DiscreteGpu
            && candidate.supports_required_level && candidate.info.video_memory > best_memory {
            best = Some(i);
            best_memory = candidate.info.video_memory;
        }
        i = i + 1;
    }
    match best {
        Some(index) => Ok(index),
        None => Err(Error::AdapterNotFound),
    }
}

/// Ask for the validation layer before the device is created; the other
/// knobs are untouched.
pub fn enable_debug_layer(config: &mut DeviceConfig)
    ensures
        *final(config) == (DeviceConfig { enable_debug_layer: true, ..*old(config) }),
{
    config.enable_debug_layer = true;
}

} // verus!
