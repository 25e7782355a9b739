//! The film-stock document: one named, versioned bundle of grain, response,
//! color and texture parameters.
//!
//! Every fractional field is a [`BoundedFloat`] with a fixed domain, in
//! thousandths of a unit (`grain.intensity` lives in `[0, 2000]` for the
//! fractional range 0 to 2, and so on); `wf` on each record states those
//! domains. Documents are immutable once loaded except through explicit
//! field replacement.
use vstd::prelude::*;
use crate::validation::BoundedFloat;
use crate::validation::valid_name;

verus! {

/// Naming and provenance of a stock.
#[derive(Debug, Clone, PartialEq)]
pub struct FilmMeta {
    pub name: String,
    pub description: Option<String>,
    pub author: Option<String>,
    pub version: u32,
    pub tags: Vec<String>,
    pub is_real_stock: bool,
}

impl FilmMeta {
    /// The name obeys the document rules: non-empty, at most 64
    /// characters, alphanumerics, space, `-` and `_` only.
    pub open spec fn wf(&self) -> bool {
        valid_name(self.name@)
    }
}

impl Default for FilmMeta {
    /// An unnamed draft: empty name (not yet valid as a document), no
    /// description or author, version 1, no tags, synthetic.
    fn default() -> (r: Self)
        ensures
            r.name@ == Seq::<char>::empty(),
            r.description is None,
            r.author is None,
            r.version == 1,
            r.tags@ == Seq::<String>::empty(),
            !r.is_real_stock,
    {
        FilmMeta {
            name: String::new(),
            description: None,
            author: None,
            version: 1,
            tags: Vec::new(),
            is_real_stock: false,
        }
    }
}

/// How a single grain crystal is shaped.
#[derive(Debug, Clone, Copy, PartialEq, Eq, Structural)]
pub enum CrystalType {
    Cubic,
    Tabular,
    CoreShell,
    Cellular,
    Needle,
    Custom { sides: u32 },
}

/// The grain structure itself.
#[derive(Debug, Clone, PartialEq, Eq, Structural)]
pub struct GrainParameters {
    /// Visual strength, in `[0, 2000]`.
    pub intensity: BoundedFloat,
    /// Average crystal diameter, in `[100, 3000]`.
    pub size: BoundedFloat,
    /// Spread of crystal diameters, in `[0, 2000]`.
    pub size_variation: BoundedFloat,
    pub crystal_type: CrystalType,
    /// Edge definition, in `[0, 1000]`.
    pub sharpness: BoundedFloat,
}

impl GrainParameters {
    pub open spec fn wf(&self) -> bool {
        &&& self.intensity.wf() && self.intensity.min == 0 && self.intensity.max == 2000
        &&& self.size.wf() && self.size.min == 100 && self.size.max == 3000
        &&& self.size_variation.wf() && self.size_variation.min == 0 && self.size_variation.max
            == 2000
        &&& self.sharpness.wf() && self.sharpness.min == 0 && self.sharpness.max == 1000
    }

    /// The stock-independent starting point.
    pub open spec fn default_spec() -> Self {
        GrainParameters {
            intensity: BoundedFloat { value: 500, min: 0, max: 2000 },
            size: BoundedFloat { value: 1000, min: 100, max: 3000 },
            size_variation: BoundedFloat { value: 500, min: 0, max: 2000 },
            crystal_type: CrystalType::Cubic,
            sharpness: BoundedFloat { value: 500, min: 0, max: 1000 },
        }
    }
}

impl Default for GrainParameters {
    fn default() -> (r: Self)
        ensures
            r == Self::default_spec(),
            r.wf(),
    {
        GrainParameters {
            intensity: BoundedFloat::new(500, 0, 2000),
            size: BoundedFloat::new(1000, 100, 3000),
            size_variation: BoundedFloat::new(500, 0, 2000),
            crystal_type: CrystalType::Cubic,
            sharpness: BoundedFloat::new(500, 0, 1000),
        }
    }
}

/// How densitometric response is shaped over the tonal range.
#[derive(Debug, Clone, Copy, PartialEq, Eq, Structural)]
pub enum ResponseMode {
    Negative,
    Print,
    Reversal,
    Custom,
}

/// Grain response per tonal band; each band lives in `[0, 2000]`.
#[derive(Debug, Clone, PartialEq, Eq, Structural)]
pub struct ResponseCurve {
    pub shadows: BoundedFloat,
    pub midtones: BoundedFloat,
    pub highlights: BoundedFloat,
    pub mode: ResponseMode,
}

impl ResponseCurve {
    pub open spec fn wf(&self) -> bool {
        &&& self.shadows.wf() && self.shadows.min == 0 && self.shadows.max == 2000
        &&& self.midtones.wf() && self.midtones.min == 0 && self.midtones.max == 2000
        &&& self.highlights.wf() && self.highlights.min == 0 && self.highlights.max == 2000
    }

    pub open spec fn default_spec() -> Self {
        ResponseCurve {
            shadows: BoundedFloat { value: 500, min: 0, max: 2000 },
            midtones: BoundedFloat { value: 500, min: 0, max: 2000 },
            highlights: BoundedFloat { value: 500, min: 0, max: 2000 },
            mode: ResponseMode::Negative,
        }
    }
}

impl Default for ResponseCurve {
    fn default() -> (r: Self)
        ensures
            r == Self::default_spec(),
            r.wf(),
    {
        ResponseCurve {
            shadows: BoundedFloat::new(500, 0, 2000),
            midtones: BoundedFloat::new(500, 0, 2000),
            highlights: BoundedFloat::new(500, 0, 2000),
            mode: ResponseMode::Negative,
        }
    }
}

/// Per-channel color behaviour of the stock.
#[derive(Debug, Clone, PartialEq)]
pub struct ColorParameters {
    pub is_color: bool,
    /// Per-channel strength, each in `[0, 3000]`.
    pub channel_intensity: [BoundedFloat; 3],
    /// Per-channel crystal size, each in `[500, 2000]`.
    pub channel_size: [BoundedFloat; 3],
    /// Cross-channel correlation, in `[-1000, 1000]`.
    pub correlation: BoundedFloat,
    /// Dye cloud softness, in `[0, 1000]`.
    pub dye_softness: BoundedFloat,
}

impl ColorParameters {
    pub open spec fn wf(&self) -> bool {
        &&& forall|i: int|
            0 <= i < 3 ==> {
                &&& (#[trigger] self.channel_intensity[i]).wf()
                &&& self.channel_intensity[i].min == 0
                &&& self.channel_intensity[i].max == 3000
            }
        &&& forall|i: int|
            0 <= i < 3 ==> {
                &&& (#[trigger] self.channel_size[i]).wf()
                &&& self.channel_size[i].min == 500
                &&& self.channel_size[i].max == 2000
            }
        &&& self.correlation.wf() && self.correlation.min == -1000 && self.correlation.max == 1000
        &&& self.dye_softness.wf() && self.dye_softness.min == 0 && self.dye_softness.max == 1000
    }

    pub open spec fn default_spec() -> Self {
        ColorParameters {
            is_color: true,
            channel_intensity: [
                BoundedFloat { value: 1000, min: 0, max: 3000 },
                BoundedFloat { value: 1000, min: 0, max: 3000 },
                BoundedFloat { value: 1000, min: 0, max: 3000 },
            ],
            channel_size: [
                BoundedFloat { value: 1000, min: 500, max: 2000 },
                BoundedFloat { value: 1000, min: 500, max: 2000 },
                BoundedFloat { value: 1000, min: 500, max: 2000 },
            ],
            correlation: BoundedFloat { value: 0, min: -1000i64, max: 1000 },
            dye_softness: BoundedFloat { value: 0, min: 0, max: 1000 },
        }
    }
}

impl Default for ColorParameters {
    fn default() -> (r: Self)
        ensures
            r == Self::default_spec(),
            r.wf(),
    {
        let r = ColorParameters {
            is_color: true,
            channel_intensity: [
                BoundedFloat::new(1000, 0, 3000),
                BoundedFloat::new(1000, 0, 3000),
                BoundedFloat::new(1000, 0, 3000),
            ],
            channel_size: [
                BoundedFloat::new(1000, 500, 2000),
                BoundedFloat::new(1000, 500, 2000),
                BoundedFloat::new(1000, 500, 2000),
            ],
            correlation: BoundedFloat::new(0, -1000, 1000),
            dye_softness: BoundedFloat::new(0, 0, 1000),
        };
        r
    }
}

/// How crystals cluster spatially.
#[derive(Debug, Clone, Copy, PartialEq, Eq, Structural)]
pub enum ClusteringType {
    /// No clustering at all: crystals are placed independently.
    Unclustered,
    Poisson,
    Fractal,
    Voronoi,
    Hybrid,
}

/// Spatial texture of the grain field.
#[derive(Debug, Clone, PartialEq, Eq, Structural)]
pub struct TextureParameters {
    pub clustering: ClusteringType,
    /// Crystals per cluster, in `[1000, 50000]`.
    pub cluster_size: BoundedFloat,
    /// Organic irregularity, in `[1000, 2000]`.
    pub organic: BoundedFloat,
    /// Octaves of detail, in `[1000, 8000]`.
    pub detail: BoundedFloat,
    /// Swirl distortion, in `[0, 5000]`.
    pub swirl: BoundedFloat,
}

impl TextureParameters {
    pub open spec fn wf(&self) -> bool {
        &&& self.cluster_size.wf() && self.cluster_size.min == 1000 && self.cluster_size.max
            == 50000
        &&& self.organic.wf() && self.organic.min == 1000 && self.organic.max == 2000
        &&& self.detail.wf() && self.detail.min == 1000 && self.detail.max == 8000
        &&& self.swirl.wf() && self.swirl.min == 0 && self.swirl.max == 5000
    }

    pub open spec fn default_spec() -> Self {
        TextureParameters {
            clustering: ClusteringType::Unclustered,
            cluster_size: BoundedFloat { value: 1000, min: 1000, max: 50000 },
            organic: BoundedFloat { value: 1000, min: 1000, max: 2000 },
            detail: BoundedFloat { value: 4000, min: 1000, max: 8000 },
            swirl: BoundedFloat { value: 0, min: 0, max: 5000 },
        }
    }
}

impl Default for TextureParameters {
    fn default() -> (r: Self)
        ensures
            r == Self::default_spec(),
            r.wf(),
    {
        TextureParameters {
            clustering: ClusteringType::Unclustered,
            cluster_size: BoundedFloat::new(1000, 1000, 50000),
            organic: BoundedFloat::new(1000, 1000, 2000),
            detail: BoundedFloat::new(4000, 1000, 8000),
            swirl: BoundedFloat::new(0, 0, 5000),
        }
    }
}

/// A complete film-stock definition.
#[derive(Debug, Clone, PartialEq)]
pub struct FilmStock {
    pub meta: FilmMeta,
    pub grain: GrainParameters,
    pub response: ResponseCurve,
    pub color: ColorParameters,
    pub texture: TextureParameters,
}

impl FilmStock {
    /// Every numeric section sits inside its declared domain.
    pub open spec fn params_wf(&self) -> bool {
        &&& self.grain.wf()
        &&& self.response.wf()
        &&& self.color.wf()
        &&& self.texture.wf()
    }

    /// A loadable document: valid name and well-formed parameters.
    pub open spec fn wf(&self) -> bool {
        &&& self.meta.wf()
        &&& self.params_wf()
    }
}

impl Default for FilmStock {
    /// The draft document: default sections under an empty (not yet valid)
    /// name.
    fn default() -> (r: Self)
        ensures
            r.meta.name@ == Seq::<char>::empty(),
            r.grain == GrainParameters::default_spec(),
            r.response == ResponseCurve::default_spec(),
            r.color == ColorParameters::default_spec(),
            r.texture == TextureParameters::default_spec(),
            r.params_wf(),
    {
        FilmStock {
            meta: FilmMeta::default(),
            grain: GrainParameters::default(),
            response: ResponseCurve::default(),
            color: ColorParameters::default(),
            texture: TextureParameters::default(),
        }
    }
}

} // verus!
