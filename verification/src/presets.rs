//! Built-in presets for common film grain types.
use vstd::prelude::*;
use vstd::string::StringExecFns;
use crate::film_stock::ClusteringType;
use crate::film_stock::ColorParameters;
use crate::film_stock::CrystalType;
use crate::film_stock::FilmMeta;
use crate::film_stock::FilmStock;
use crate::film_stock::GrainParameters;
use crate::film_stock::ResponseCurve;
use crate::film_stock::ResponseMode;
use crate::film_stock::TextureParameters;
use crate::validation::BoundedFloat;

verus! {

/// Everything the fine-grain preset holds, up to String identity: the
/// metadata views and every parameter value.
pub open spec fn is_fine_grain(s: FilmStock) -> bool {
    &&& s.meta.name@ == "Fine Grain"@
    &&& (s.meta.description matches Some(d) && d@ == "Clean, minimal grain for slow, sharp stocks"@)
    &&& (s.meta.author matches Some(a) && a@ == "GrainForge"@)
    &&& s.meta.version == 1
    &&& s.meta.tags@.len() == 3
    &&& s.meta.tags@[0]@ == "fine"@
    &&& s.meta.tags@[1]@ == "clean"@
    &&& s.meta.tags@[2]@ == "low-iso"@
    &&& !s.meta.is_real_stock
    &&& s.grain == (GrainParameters {
        intensity: BoundedFloat { value: 200, min: 0, max: 2000 },
        size: BoundedFloat { value: 500, min: 100, max: 3000 },
        size_variation: BoundedFloat { value: 300, min: 0, max: 2000 },
        crystal_type: CrystalType::Tabular,
        sharpness: BoundedFloat { value: 700, min: 0, max: 1000 },
    })
    &&& s.response == (ResponseCurve {
        shadows: BoundedFloat { value: 400, min: 0, max: 2000 },
        midtones: BoundedFloat { value: 500, min: 0, max: 2000 },
        highlights: BoundedFloat { value: 300, min: 0, max: 2000 },
        mode: ResponseMode::Negative,
    })
    &&& s.color == (ColorParameters {
        is_color: true,
        channel_intensity: [
            BoundedFloat { value: 900, min: 0, max: 3000 },
            BoundedFloat { value: 1000, min: 0, max: 3000 },
            BoundedFloat { value: 1100, min: 0, max: 3000 },
        ],
        channel_size: [
            BoundedFloat { value: 900, min: 500, max: 2000 },
            BoundedFloat { value: 1000, min: 500, max: 2000 },
            BoundedFloat { value: 1100, min: 500, max: 2000 },
        ],
        correlation: BoundedFloat { value: 300, min: -1000i64, max: 1000 },
        dye_softness: BoundedFloat { value: 200, min: 0, max: 1000 },
    })
    &&& s.texture == (TextureParameters {
        clustering: ClusteringType::Unclustered,
        cluster_size: BoundedFloat { value: 1000, min: 1000, max: 50000 },
        organic: BoundedFloat { value: 1000, min: 1000, max: 2000 },
        detail: BoundedFloat { value: 6000, min: 1000, max: 8000 },
        swirl: BoundedFloat { value: 0, min: 0, max: 5000 },
    })
}

/// Everything the medium-grain preset holds, up to String identity.
pub open spec fn is_medium_grain(s: FilmStock) -> bool {
    &&& s.meta.name@ == "Medium Grain"@
    &&& (s.meta.description matches Some(d) && d@ == "Classic all-purpose negative film look"@)
    &&& (s.meta.author matches Some(a) && a@ == "GrainForge"@)
    &&& s.meta.version == 1
    &&& s.meta.tags@.len() == 3
    &&& s.meta.tags@[0]@ == "medium"@
    &&& s.meta.tags@[1]@ == "classic"@
    &&& s.meta.tags@[2]@ == "400-iso"@
    &&& !s.meta.is_real_stock
    &&& s.grain == (GrainParameters {
        intensity: BoundedFloat { value: 500, min: 0, max: 2000 },
        size: BoundedFloat { value: 1000, min: 100, max: 3000 },
        size_variation: BoundedFloat { value: 500, min: 0, max: 2000 },
        crystal_type: CrystalType::Cubic,
        sharpness: BoundedFloat { value: 500, min: 0, max: 1000 },
    })
    &&& s.response == (ResponseCurve {
        shadows: BoundedFloat { value: 600, min: 0, max: 2000 },
        midtones: BoundedFloat { value: 500, min: 0, max: 2000 },
        highlights: BoundedFloat { value: 400, min: 0, max: 2000 },
        mode: ResponseMode::Negative,
    })
    &&& s.color == (ColorParameters {
        is_color: true,
        channel_intensity: [
            BoundedFloat { value: 1000, min: 0, max: 3000 },
            BoundedFloat { value: 1000, min: 0, max: 3000 },
            BoundedFloat { value: 1000, min: 0, max: 3000 },
        ],
        channel_size: [
            BoundedFloat { value: 1000, min: 500, max: 2000 },
            BoundedFloat { value: 1000, min: 500, max: 2000 },
            BoundedFloat { value: 1000, min: 500, max: 2000 },
        ],
        correlation: BoundedFloat { value: 0, min: -1000i64, max: 1000 },
        dye_softness: BoundedFloat { value: 300, min: 0, max: 1000 },
    })
    &&& s.texture == (TextureParameters {
        clustering: ClusteringType::Poisson,
        cluster_size: BoundedFloat { value: 5000, min: 1000, max: 50000 },
        organic: BoundedFloat { value: 1200, min: 1000, max: 2000 },
        detail: BoundedFloat { value: 4000, min: 1000, max: 8000 },
        swirl: BoundedFloat { value: 500, min: 0, max: 5000 },
    })
}

/// Everything the coarse-grain preset holds, up to String identity.
pub open spec fn is_coarse_grain(s: FilmStock) -> bool {
    &&& s.meta.name@ == "Coarse Grain"@
    &&& (s.meta.description matches Some(d) && d@ == "Heavy grain of pushed high-speed stock"@)
    &&& (s.meta.author matches Some(a) && a@ == "GrainForge"@)
    &&& s.meta.version == 1
    &&& s.meta.tags@.len() == 3
    &&& s.meta.tags@[0]@ == "coarse"@
    &&& s.meta.tags@[1]@ == "gritty"@
    &&& s.meta.tags@[2]@ == "high-iso"@
    &&& !s.meta.is_real_stock
    &&& s.grain == (GrainParameters {
        intensity: BoundedFloat { value: 1000, min: 0, max: 2000 },
        size: BoundedFloat { value: 2000, min: 100, max: 3000 },
        size_variation: BoundedFloat { value: 1000, min: 0, max: 2000 },
        crystal_type: CrystalType::Cellular,
        sharpness: BoundedFloat { value: 300, min: 0, max: 1000 },
    })
    &&& s.response == (ResponseCurve {
        shadows: BoundedFloat { value: 800, min: 0, max: 2000 },
        midtones: BoundedFloat { value: 600, min: 0, max: 2000 },
        highlights: BoundedFloat { value: 500, min: 0, max: 2000 },
        mode: ResponseMode::Negative,
    })
    &&& s.color == (ColorParameters {
        is_color: false,
        channel_intensity: [
            BoundedFloat { value: 1000, min: 0, max: 3000 },
            BoundedFloat { value: 1000, min: 0, max: 3000 },
            BoundedFloat { value: 1000, min: 0, max: 3000 },
        ],
        channel_size: [
            BoundedFloat { value: 1000, min: 500, max: 2000 },
            BoundedFloat { value: 1000, min: 500, max: 2000 },
            BoundedFloat { value: 1000, min: 500, max: 2000 },
        ],
        correlation: BoundedFloat { value: 800, min: -1000i64, max: 1000 },
        dye_softness: BoundedFloat { value: 0, min: 0, max: 1000 },
    })
    &&& s.texture == (TextureParameters {
        clustering: ClusteringType::Fractal,
        cluster_size: BoundedFloat { value: 15000, min: 1000, max: 50000 },
        organic: BoundedFloat { value: 1500, min: 1000, max: 2000 },
        detail: BoundedFloat { value: 3000, min: 1000, max: 8000 },
        swirl: BoundedFloat { value: 1500, min: 0, max: 5000 },
    })
}

/// Fine grain: clean, minimal structure, like a slow slide or negative
/// stock.
pub fn fine_grain_preset() -> (r: FilmStock)
    ensures
        r.wf(),
        is_fine_grain(r),
{
    let r = FilmStock {
        meta: FilmMeta {
            name: String::from_str("Fine Grain"),
            description: Some(String::from_str("Clean, minimal grain for slow, sharp stocks")),
            author: Some(String::from_str("GrainForge")),
            version: 1,
            tags: make_tags("fine", "clean", "low-iso"),
            is_real_stock: false,
        },
        grain: GrainParameters {
            intensity: BoundedFloat::new(200, 0, 2000),
            size: BoundedFloat::new(500, 100, 3000),
            size_variation: BoundedFloat::new(300, 0, 2000),
            crystal_type: CrystalType::Tabular,
            sharpness: BoundedFloat::new(700, 0, 1000),
        },
        response: ResponseCurve {
            shadows: BoundedFloat::new(400, 0, 2000),
            midtones: BoundedFloat::new(500, 0, 2000),
            highlights: BoundedFloat::new(300, 0, 2000),
            mode: ResponseMode::Negative,
        },
        color: ColorParameters {
            is_color: true,
            channel_intensity: [
                BoundedFloat::new(900, 0, 3000),
                BoundedFloat::new(1000, 0, 3000),
                BoundedFloat::new(1100, 0, 3000),
            ],
            channel_size: [
                BoundedFloat::new(900, 500, 2000),
                BoundedFloat::new(1000, 500, 2000),
                BoundedFloat::new(1100, 500, 2000),
            ],
            correlation: BoundedFloat::new(300, -1000, 1000),
            dye_softness: BoundedFloat::new(200, 0, 1000),
        },
        texture: TextureParameters {
            clustering: ClusteringType::Unclustered,
            cluster_size: BoundedFloat::new(1000, 1000, 50000),
            organic: BoundedFloat::new(1000, 1000, 2000),
            detail: BoundedFloat::new(6000, 1000, 8000),
            swirl: BoundedFloat::new(0, 0, 5000),
        },
    };
    proof {
        reveal_strlit("Fine Grain");
        assert(crate::validation::valid_name(r.meta.name@));
    }
    r
}

/// Medium grain: the classic all-purpose negative look.
pub fn medium_grain_preset() -> (r: FilmStock)
    ensures
        r.wf(),
        is_medium_grain(r),
{
    let r = FilmStock {
        meta: FilmMeta {
            name: String::from_str("Medium Grain"),
            description: Some(String::from_str("Classic all-purpose negative film look")),
            author: Some(String::from_str("GrainForge")),
            version: 1,
            tags: make_tags("medium", "classic", "400-iso"),
            is_real_stock: false,
        },
        grain: GrainParameters {
            intensity: BoundedFloat::new(500, 0, 2000),
            size: BoundedFloat::new(1000, 100, 3000),
            size_variation: BoundedFloat::new(500, 0, 2000),
            crystal_type: CrystalType::Cubic,
            sharpness: BoundedFloat::new(500, 0, 1000),
        },
        response: ResponseCurve {
            shadows: BoundedFloat::new(600, 0, 2000),
            midtones: BoundedFloat::new(500, 0, 2000),
            highlights: BoundedFloat::new(400, 0, 2000),
            mode: ResponseMode::Negative,
        },
        color: ColorParameters {
            is_color: true,
            channel_intensity: [
                BoundedFloat::new(1000, 0, 3000),
                BoundedFloat::new(1000, 0, 3000),
                BoundedFloat::new(1000, 0, 3000),
            ],
            channel_size: [
                BoundedFloat::new(1000, 500, 2000),
                BoundedFloat::new(1000, 500, 2000),
                BoundedFloat::new(1000, 500, 2000),
            ],
            correlation: BoundedFloat::new(0, -1000, 1000),
            dye_softness: BoundedFloat::new(300, 0, 1000),
        },
        texture: TextureParameters {
            clustering: ClusteringType::Poisson,
            cluster_size: BoundedFloat::new(5000, 1000, 50000),
            organic: BoundedFloat::new(1200, 1000, 2000),
            detail: BoundedFloat::new(4000, 1000, 8000),
            swirl: BoundedFloat::new(500, 0, 5000),
        },
    };
    proof {
        reveal_strlit("Medium Grain");
        assert(crate::validation::valid_name(r.meta.name@));
    }
    r
}

/// Coarse grain: the heavy, gritty structure of pushed high-speed stock.
pub fn coarse_grain_preset() -> (r: FilmStock)
    ensures
        r.wf(),
        is_coarse_grain(r),
{
    let r = FilmStock {
        meta: FilmMeta {
            name: String::from_str("Coarse Grain"),
            description: Some(String::from_str("Heavy grain of pushed high-speed stock")),
            author: Some(String::from_str("GrainForge")),
            version: 1,
            tags: make_tags("coarse", "gritty", "high-iso"),
            is_real_stock: false,
        },
        grain: GrainParameters {
            intensity: BoundedFloat::new(1000, 0, 2000),
            size: BoundedFloat::new(2000, 100, 3000),
            size_variation: BoundedFloat::new(1000, 0, 2000),
            crystal_type: CrystalType::Cellular,
            sharpness: BoundedFloat::new(300, 0, 1000),
        },
        response: ResponseCurve {
            shadows: BoundedFloat::new(800, 0, 2000),
            midtones: BoundedFloat::new(600, 0, 2000),
            highlights: BoundedFloat::new(500, 0, 2000),
            mode: ResponseMode::Negative,
        },
        color: ColorParameters {
            is_color: false,
            channel_intensity: [
                BoundedFloat::new(1000, 0, 3000),
                BoundedFloat::new(1000, 0, 3000),
                BoundedFloat::new(1000, 0, 3000),
            ],
            channel_size: [
                BoundedFloat::new(1000, 500, 2000),
                BoundedFloat::new(1000, 500, 2000),
                BoundedFloat::new(1000, 500, 2000),
            ],
            correlation: BoundedFloat::new(800, -1000, 1000),
            dye_softness: BoundedFloat::new(0, 0, 1000),
        },
        texture: TextureParameters {
            clustering: ClusteringType::Fractal,
            cluster_size: BoundedFloat::new(15000, 1000, 50000),
            organic: BoundedFloat::new(1500, 1000, 2000),
            detail: BoundedFloat::new(3000, 1000, 8000),
            swirl: BoundedFloat::new(1500, 0, 5000),
        },
    };
    proof {
        reveal_strlit("Coarse Grain");
        assert(crate::validation::valid_name(r.meta.name@));
    }
    r
}

/// Three owned tag strings.
fn make_tags(a: &str, b: &str, c: &str) -> (v: Vec<String>)
    ensures
        v@.len() == 3,
        v@[0]@ == a@,
        v@[1]@ == b@,
        v@[2]@ == c@,
{
    let mut v: Vec<String> = Vec::new();
    v.push(String::from_str(a));
    v.push(String::from_str(b));
    v.push(String::from_str(c));
    v
}

/// The built-in presets: fine, medium and coarse grain, in that order,
/// each pinned down to its full document (up to String identity).
pub fn get_builtin_presets() -> (v: Vec<FilmStock>)
    ensures
        v@.len() == 3,
        v@[0].wf() && is_fine_grain(v@[0]),
        v@[1].wf() && is_medium_grain(v@[1]),
        v@[2].wf() && is_coarse_grain(v@[2]),
{
    let mut v: Vec<FilmStock> = Vec::new();
    v.push(fine_grain_preset());
    v.push(medium_grain_preset());
    v.push(coarse_grain_preset());
    v
}

} // verus!
