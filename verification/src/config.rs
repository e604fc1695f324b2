use vstd::prelude::*;

verus! {

/// A noise-value interval that gates a feature, with strict bounds on both
/// sides: a value `n` lies in the band when `low < n < high`. Bounds are in
/// thousandths of a noise unit.
#[derive(Clone, Copy, Debug, PartialEq, Eq)]
pub struct Band {
    pub low: i32,
    pub high: i32,
}

impl Band {
    /// A band is well formed when its bounds are ordered.
    pub open spec fn ordered(self) -> bool {
        self.low <= self.high
    }

    /// Whether `n` lies strictly inside the band.
    pub open spec fn spec_strictly_inside(self, n: i32) -> bool {
        self.low < n && n < self.high
    }

    pub fn strictly_inside(&self, n: i32) -> (r: bool)
        ensures
            r == self.spec_strictly_inside(n),
    {
        self.low < n && n < self.high
    }
}

/// Names the configuration field that failed validation.
#[derive(Clone, Copy, Debug, PartialEq, Eq)]
pub enum ConfigError {
    /// The mountain band has `low > high`.
    MountainRange,
    /// The forest band has `low > high`.
    ForestRange,
    /// The bones band has `low > high`.
    BoneRange,
    /// The spatial noise scale is zero.
    NoiseScale,
}

/// Classification thresholds for the terrain synthesizer. All noise
/// thresholds are in thousandths of a noise unit; `noise_scale` is the
/// spatial divisor for the sampler, also in thousandths.
#[derive(Clone, Copy, Debug, PartialEq, Eq)]
pub struct ThresholdConfig {
    /// A cell with noise strictly above this joins the occupied set.
    pub ground_threshold: i32,
    /// Noise band that emits a mountain feature tile.
    pub mountain: Band,
    /// Noise band in which tree feature tiles may appear.
    pub forest: Band,
    /// Noise band in which bones decorations may appear.
    pub bones: Band,
    /// Noise strictly above this may emit a house tile.
    pub house_threshold: i32,
    /// Spatial scale divisor handed to the noise sampler (thousandths);
    /// larger values produce smoother, larger terrain features.
    pub noise_scale: u32,
}

impl ThresholdConfig {
    /// Well-formedness: every band is ordered and the noise scale is
    /// positive.
    pub open spec fn wf(self) -> bool {
        &&& self.mountain.ordered()
        &&& self.forest.ordered()
        &&& self.bones.ordered()
        &&& self.noise_scale > 0
    }

    /// The first validation failure, in the order `validate` checks them.
    /// Meaningful only when `!self.wf()`.
    pub open spec fn spec_first_error(self) -> ConfigError {
        if !self.mountain.ordered() {
            ConfigError::MountainRange
        } else if !self.forest.ordered() {
            ConfigError::ForestRange
        } else if !self.bones.ordered() {
            ConfigError::BoneRange
        } else {
            ConfigError::NoiseScale
        }
    }

    /// Fail-fast validation: succeeds exactly on well-formed
    /// configurations, and otherwise names the first invalid field.
    pub fn validate(&self) -> (r: Result<(), ConfigError>)
        ensures
            r is Ok <==> self.wf(),
            !self.wf() ==> r == Err::<(), ConfigError>(self.spec_first_error()),
    {
        if self.mountain.low > self.mountain.high {
            Err(ConfigError::MountainRange)
        } else if self.forest.low > self.forest.high {
            Err(ConfigError::ForestRange)
        } else if self.bones.low > self.bones.high {
            Err(ConfigError::BoneRange)
        } else if self.noise_scale == 0 {
            Err(ConfigError::NoiseScale)
        } else {
            Ok(())
        }
    }
}

/// The default thresholds: ground above 0.2, mountains in (0.3, 0.31),
/// forest in (0.35, 0.6), bones in (0.6, 0.7), houses above 0.7, and a
/// spatial scale of 10.5 — all in thousandths.
pub open spec fn spec_default_config() -> ThresholdConfig {
    ThresholdConfig {
        ground_threshold: 200,
        mountain: Band { low: 300, high: 310 },
        forest: Band { low: 350, high: 600 },
        bones: Band { low: 600, high: 700 },
        house_threshold: 700,
        noise_scale: 10500,
    }
}

impl Default for ThresholdConfig {
    /// The default configuration; always well formed.
    fn default() -> (c: Self)
        ensures
            c == spec_default_config(),
            c.wf(),
    {
        ThresholdConfig {
            ground_threshold: 200,
            mountain: Band { low: 300, high: 310 },
            forest: Band { low: 350, high: 600 },
            bones: Band { low: 600, high: 700 },
            house_threshold: 700,
            noise_scale: 10500,
        }
    }
}

} // verus!
