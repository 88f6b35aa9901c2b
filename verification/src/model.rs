//! Model variants and the immutable descriptor of a registered model.

use vstd::prelude::*;
use vstd::string::*;
use crate::text::{contains, has_substring};

verus! {

/// One mebibyte, in bytes.
pub const MIB: u64 = 1_048_576;

/// CPU load, in percent, above which a cheaper variant is suggested.
pub const DOWNGRADE_THRESHOLD: u32 = 80;

/// The model variants the registry knows.
#[derive(Debug, Clone, Copy, PartialEq, Eq, Structural)]
pub enum ModelSize {
    Tiny,
    Small,
    Medium,
}

impl ModelSize {
    /// The variant named by a model's path or name: the first of `tiny`,
    /// `small` that occurs in it decides; anything else is `Medium`.
    pub open spec fn of_name(name: Seq<char>) -> ModelSize {
        if has_substring(name, "tiny"@) {
            ModelSize::Tiny
        } else if has_substring(name, "small"@) {
            ModelSize::Small
        } else {
            ModelSize::Medium
        }
    }

    /// Memory ceiling of the variant, in bytes.
    pub open spec fn limit_bytes(self) -> int {
        match self {
            ModelSize::Tiny => 100 * MIB,
            ModelSize::Small => 400 * MIB,
            ModelSize::Medium => 700 * MIB,
        }
    }

    /// Resident footprint of a loaded model of the variant, in bytes.
    pub open spec fn footprint_bytes(self) -> int {
        match self {
            ModelSize::Tiny => 39 * MIB,
            ModelSize::Small => 244 * MIB,
            ModelSize::Medium => 769 * MIB,
        }
    }

    /// Relative CPU cost of the variant, in tenths.
    pub open spec fn cost_tenths(self) -> int {
        match self {
            ModelSize::Tiny => 10,
            ModelSize::Small => 25,
            ModelSize::Medium => 40,
        }
    }

    /// Reads the variant off a model's path or name.
    pub fn from_name(name: &str) -> (size: ModelSize)
        ensures
            size == Self::of_name(name@),
    {
        if contains(name, "tiny") {
            ModelSize::Tiny
        } else if contains(name, "small") {
            ModelSize::Small
        } else {
            ModelSize::Medium
        }
    }

    /// Memory ceiling of the variant: 100, 400 or 700 MiB.
    pub fn memory_limit(&self) -> (bytes: u64)
        ensures
            bytes == self.limit_bytes(),
    {
        match self {
            ModelSize::Tiny => 100 * MIB,
            ModelSize::Small => 400 * MIB,
            ModelSize::Medium => 700 * MIB,
        }
    }

    /// CPU load, in percent, above which this variant should be given up
    /// for a cheaper one. It is the same for every variant.
    pub fn cpu_threshold(&self) -> (percent: u32)
        ensures
            percent == DOWNGRADE_THRESHOLD,
    {
        DOWNGRADE_THRESHOLD
    }

    /// Resident footprint of a loaded model: 39, 244 or 769 MiB.
    pub fn footprint(&self) -> (bytes: u64)
        ensures
            bytes == self.footprint_bytes(),
    {
        match self {
            ModelSize::Tiny => 39 * MIB,
            ModelSize::Small => 244 * MIB,
            ModelSize::Medium => 769 * MIB,
        }
    }

    /// Relative CPU cost in tenths: 10, 25 or 40 for a factor of 1.0, 2.5
    /// or 4.0.
    pub fn cpu_factor(&self) -> (tenths: u32)
        ensures
            tenths == self.cost_tenths(),
    {
        match self {
            ModelSize::Tiny => 10,
            ModelSize::Small => 25,
            ModelSize::Medium => 40,
        }
    }
}

/// Descriptor of a registered model. It is made once, at registration,
/// and never changed afterwards.
#[derive(Debug, Clone)]
pub struct ModelInfo {
    /// Display name.
    pub name: String,
    /// Variant of the model.
    pub size: ModelSize,
    /// Resident footprint in bytes while the model is loaded.
    pub memory_usage: u64,
    /// Relative CPU cost, in tenths (10 stands for a factor of 1.0).
    pub cpu_factor: u32,
}

impl ModelInfo {
    /// The descriptor that a model at `path` is registered with.
    pub open spec fn describes(self, path: Seq<char>) -> bool {
        &&& self.name@ == path
        &&& self.size == ModelSize::of_name(path)
        &&& self.memory_usage == self.size.footprint_bytes()
        &&& self.cpu_factor == self.size.cost_tenths()
    }

    /// Builds the descriptor of the model at `path`: the path is its name,
    /// the variant is read off the path, and footprint and CPU cost are
    /// those of the variant.
    pub fn for_path(path: &str) -> (info: ModelInfo)
        ensures
            info.describes(path@),
    {
        let size: ModelSize = ModelSize::from_name(path);
        ModelInfo {
            name: String::from_str(path),
            size,
            memory_usage: size.footprint(),
            cpu_factor: size.cpu_factor(),
        }
    }
}

} // verus!
