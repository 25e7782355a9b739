//! The film-stock document text: one `key=value` line per field, in a
//! fixed order.
//!
//! A document holds the five sections in order: `meta`, `grain`,
//! `response`, `color`, `texture`, each field on its own line as
//! `section.field=value`. Fractional values are written in thousandths of
//! a unit, as the crate carries them. Optional strings are written as `-`
//! when absent and `+` followed by the text when present; tags are joined
//! with commas. A line whose key is not the one expected — in particular
//! any unrecognized top-level section — is a validation error, as is a
//! name that breaks the naming rules or a numeric value outside its
//! declared range.
use vstd::prelude::*;
use vstd::string::StrSliceExecFns;
use vstd::string::StringExecFns;
use crate::error::GrainError;
use crate::film_stock::ClusteringType;
use crate::film_stock::ColorParameters;
use crate::film_stock::CrystalType;
use crate::film_stock::FilmMeta;
use crate::film_stock::FilmStock;
use crate::film_stock::GrainParameters;
use crate::film_stock::ResponseCurve;
use crate::film_stock::ResponseMode;
use crate::film_stock::TextureParameters;
use crate::validation::BoundedFloat;
use crate::validation::validate_name;

verus! {

/// The character for one decimal digit.
pub open spec fn digit_char(d: int) -> char {
    ((48 + d) as u8) as char
}

/// The decimal digits of `n`, most significant first.
pub open spec fn spec_u64_chars(n: nat) -> Seq<char>
    decreases n,
{
    if n < 10 {
        seq![digit_char(n as int)]
    } else {
        spec_u64_chars(n / 10).push(digit_char((n % 10) as int))
    }
}

fn digit_str(d: u64) -> (s: &'static str)
    requires
        d < 10,
    ensures
        s@ == seq![digit_char(d as int)],
{
    let s = match d {
        0 => "0",
        1 => "1",
        2 => "2",
        3 => "3",
        4 => "4",
        5 => "5",
        6 => "6",
        7 => "7",
        8 => "8",
        _ => "9",
    };
    proof {
        reveal_strlit("0");
        reveal_strlit("1");
        reveal_strlit("2");
        reveal_strlit("3");
        reveal_strlit("4");
        reveal_strlit("5");
        reveal_strlit("6");
        reveal_strlit("7");
        reveal_strlit("8");
        reveal_strlit("9");
        assert(s@ =~= seq![digit_char(d as int)]);
    }
    s
}

/// Append the decimal digits of `n`.
fn push_u64(s: &mut String, n: u64)
    ensures
        final(s)@ == old(s)@ + spec_u64_chars(n as nat),
    decreases n,
{
    if n >= 10 {
        push_u64(s, n / 10);
        s.append(digit_str(n % 10));
        proof {
            assert(final(s)@ =~= old(s)@ + spec_u64_chars(n as nat));
        }
    } else {
        s.append(digit_str(n));
    }
}

/// The signed decimal text of `v`.
pub open spec fn spec_i64_chars(v: int) -> Seq<char> {
    if v < 0 {
        seq!['-'] + spec_u64_chars((-v) as nat)
    } else {
        spec_u64_chars(v as nat)
    }
}

/// Append the signed decimal text of `v`.
fn push_i64(s: &mut String, v: i64)
    ensures
        final(s)@ == old(s)@ + spec_i64_chars(v as int),
{
    if v < 0 {
        s.append("-");
        let m128: i128 = -(v as i128);
        let m: u64 = m128 as u64;
        push_u64(s, m);
        proof {
            reveal_strlit("-");
            assert(final(s)@ =~= old(s)@ + spec_i64_chars(v as int));
        }
    } else {
        push_u64(s, v as u64);
    }
}

/// Whether the document carries `lit` at `*pos`; advances past it exactly
/// when it does.
fn expect(doc: &str, pos: &mut usize, lit: &str) -> (b: bool)
    requires
        *old(pos) <= doc@.len(),
    ensures
        *old(pos) <= *final(pos) <= doc@.len(),
        !b ==> *final(pos) == *old(pos),
{
    let n = doc.unicode_len();
    let m = lit.unicode_len();
    if n - *pos < m {
        return false;
    }
    let mut i: usize = 0;
    while i < m
        invariant
            0 <= i <= m,
            m == lit@.len(),
            n == doc@.len(),
            *pos + m <= n,
        decreases m - i,
    {
        if doc.get_char(*pos + i) != lit.get_char(i) {
            return false;
        }
        i = i + 1;
    }
    *pos = *pos + m;
    true
}

/// The text up to the next line break, which is consumed; `None` when no
/// line break remains.
fn read_text_line(doc: &str, pos: &mut usize) -> (r: Option<String>)
    requires
        *old(pos) <= doc@.len(),
    ensures
        *old(pos) <= *final(pos) <= doc@.len(),
        r is Some ==> *final(pos) > *old(pos),
{
    let n = doc.unicode_len();
    let start = *pos;
    let mut i = start;
    while i < n
        invariant
            start <= i <= n,
            n == doc@.len(),
            *pos == start,
            start == *old(pos),
        decreases n - i,
    {
        if doc.get_char(i) == '\n' {
            let s = doc.substring_char(start, i);
            *pos = i + 1;
            return Some(String::from_str(s));
        }
        i = i + 1;
    }
    None
}

/// An unsigned decimal number of at most ten digits at `*pos`.
fn parse_u64(doc: &str, pos: &mut usize) -> (r: Option<u64>)
    requires
        *old(pos) <= doc@.len(),
    ensures
        *old(pos) <= *final(pos) <= doc@.len(),
        r matches Some(v) ==> v <= 9999999999,
{
    let n = doc.unicode_len();
    let mut v: u64 = 0;
    let mut any = false;
    while *pos < n
        invariant
            *old(pos) <= *pos <= n,
            n == doc@.len(),
            v <= 9999999999,
        decreases n - *pos,
    {
        let c = doc.get_char(*pos);
        let u = c as u32;
        if 48 <= u && u <= 57 {
            if v > 999999999 {
                return None;
            }
            v = v * 10 + ((u - 48) as u64);
            any = true;
            *pos = *pos + 1;
        } else {
            break ;
        }
    }
    if !any {
        None
    } else {
        Some(v)
    }
}

/// A signed decimal number at `*pos`.
fn parse_i64(doc: &str, pos: &mut usize) -> (r: Option<i64>)
    requires
        *old(pos) <= doc@.len(),
    ensures
        *old(pos) <= *final(pos) <= doc@.len(),
{
    let n = doc.unicode_len();
    let neg = if *pos < n && doc.get_char(*pos) == '-' {
        *pos = *pos + 1;
        true
    } else {
        false
    };
    let mag = match parse_u64(doc, pos) {
        Some(m) => m,
        None => {
            return None;
        },
    };
    if neg {
        Some(-(mag as i64))
    } else {
        Some(mag as i64)
    }
}

fn doc_error() -> (e: GrainError)
    ensures
        e is InvalidParameter,
{
    GrainError::InvalidParameter {
        name: String::from_str("document"),
        reason: String::from_str("Malformed or unrecognized document field"),
    }
}

/// The key line `key` followed by a fractional value inside `[min, max]`
/// (thousandths); rejects a value outside the declared range rather than
/// clamping it.
fn read_bounded(doc: &str, pos: &mut usize, key: &str, min: i64, max: i64) -> (r: Option<
    BoundedFloat,
>)
    requires
        *old(pos) <= doc@.len(),
        min <= max,
    ensures
        *old(pos) <= *final(pos) <= doc@.len(),
        r matches Some(b) ==> b.wf() && b.min == min && b.max == max,
{
    if !expect(doc, pos, key) {
        return None;
    }
    let v = match parse_i64(doc, pos) {
        Some(v) => v,
        None => {
            return None;
        },
    };
    if !expect(doc, pos, "\n") {
        return None;
    }
    if v < min || v > max {
        return None;
    }
    Some(BoundedFloat::new(v, min, max))
}

/// The key line `key` followed by an unsigned number that fits in 32 bits.
fn read_u32_line(doc: &str, pos: &mut usize, key: &str) -> (r: Option<u32>)
    requires
        *old(pos) <= doc@.len(),
    ensures
        *old(pos) <= *final(pos) <= doc@.len(),
{
    if !expect(doc, pos, key) {
        return None;
    }
    let v = match parse_u64(doc, pos) {
        Some(v) => v,
        None => {
            return None;
        },
    };
    if !expect(doc, pos, "\n") {
        return None;
    }
    if v > 0xFFFFFFFF {
        return None;
    }
    Some(v as u32)
}

/// The key line `key` followed by `true` or `false`.
fn read_bool_line(doc: &str, pos: &mut usize, key: &str) -> (r: Option<bool>)
    requires
        *old(pos) <= doc@.len(),
    ensures
        *old(pos) <= *final(pos) <= doc@.len(),
{
    if !expect(doc, pos, key) {
        return None;
    }
    let v = if expect(doc, pos, "true") {
        true
    } else if expect(doc, pos, "false") {
        false
    } else {
        return None;
    };
    if !expect(doc, pos, "\n") {
        return None;
    }
    Some(v)
}

/// The key line `key` followed by free text up to the line break.
fn read_string_line(doc: &str, pos: &mut usize, key: &str) -> (r: Option<String>)
    requires
        *old(pos) <= doc@.len(),
    ensures
        *old(pos) <= *final(pos) <= doc@.len(),
{
    if !expect(doc, pos, key) {
        return None;
    }
    read_text_line(doc, pos)
}

/// The key line `key` followed by `-` (absent) or `+` and the text.
fn read_opt_string_line(doc: &str, pos: &mut usize, key: &str) -> (r: Option<Option<String>>)
    requires
        *old(pos) <= doc@.len(),
    ensures
        *old(pos) <= *final(pos) <= doc@.len(),
{
    let line = match read_string_line(doc, pos, key) {
        Some(l) => l,
        None => {
            return None;
        },
    };
    let n = line.as_str().unicode_len();
    if n == 0 {
        return None;
    }
    let head = line.as_str().get_char(0);
    if head == '-' && n == 1 {
        Some(None)
    } else if head == '+' {
        Some(Some(String::from_str(line.as_str().substring_char(1, n))))
    } else {
        None
    }
}

/// The comma-separated segments of `s`, with `cur` the segment read so
/// far: a comma closes the current segment, the end of the text closes the
/// last one.
pub open spec fn split_acc(s: Seq<char>, cur: Seq<char>) -> Seq<Seq<char>>
    decreases s.len(),
{
    if s.len() == 0 {
        seq![cur]
    } else if s[0] == ',' {
        seq![cur] + split_acc(s.drop_first(), Seq::empty())
    } else {
        split_acc(s.drop_first(), cur.push(s[0]))
    }
}

/// The tags a tags line carries: its comma-separated segments; an empty
/// line carries no tags.
pub open spec fn spec_split_tags(line: Seq<char>) -> Seq<Seq<char>> {
    if line.len() == 0 {
        Seq::empty()
    } else {
        split_acc(line, Seq::empty())
    }
}

/// Split a tags line on commas; an empty line is an empty tag list.
fn split_tags(line: &str) -> (v: Vec<String>)
    ensures
        v@.map_values(|t: String| t@) == spec_split_tags(line@),
{
    let n = line.unicode_len();
    let mut v: Vec<String> = Vec::new();
    if n == 0 {
        proof {
            assert(v@.map_values(|t: String| t@) =~= spec_split_tags(line@));
        }
        return v;
    }
    let mut start: usize = 0;
    let mut i: usize = 0;
    proof {
        assert(line@.skip(0) =~= line@);
        assert(line@.subrange(0, 0) =~= Seq::<char>::empty());
    }
    while i < n
        invariant
            0 <= start <= i <= n,
            n == line@.len(),
            v@.map_values(|t: String| t@) + split_acc(
                line@.skip(i as int),
                line@.subrange(start as int, i as int),
            ) =~= split_acc(line@, Seq::<char>::empty()),
        decreases n - i,
    {
        proof {
            assert(line@.skip(i as int)[0] == line@[i as int]);
            assert(line@.skip(i as int).drop_first() =~= line@.skip(i + 1));
        }
        if line.get_char(i) == ',' {
            let ghost pre = v@;
            let ghost seg = line@.subrange(start as int, i as int);
            let t = String::from_str(line.substring_char(start, i));
            v.push(t);
            start = i + 1;
            proof {
                assert(v@.map_values(|t: String| t@) =~= pre.map_values(|t: String| t@).push(
                    seg,
                ));
                assert(line@.subrange(i + 1, i + 1) =~= Seq::<char>::empty());
                assert(v@.map_values(|t: String| t@) + split_acc(
                    line@.skip(i + 1),
                    line@.subrange(i + 1, i + 1),
                ) =~= split_acc(line@, Seq::<char>::empty()));
            }
        } else {
            proof {
                assert(line@.subrange(start as int, i as int).push(line@[i as int])
                    =~= line@.subrange(start as int, i + 1));
            }
        }
        i = i + 1;
    }
    let ghost pre = v@;
    let ghost seg = line@.subrange(start as int, n as int);
    let t = String::from_str(line.substring_char(start, n));
    v.push(t);
    proof {
        assert(line@.skip(n as int) =~= Seq::<char>::empty());
        assert(v@.map_values(|t: String| t@) =~= pre.map_values(|t: String| t@).push(seg));
        assert(v@.map_values(|t: String| t@) =~= spec_split_tags(line@));
    }
    v
}

/// One field line: the key (with its `=`), the value, a line break.
pub open spec fn spec_line(key: Seq<char>, value: Seq<char>) -> Seq<char> {
    key + value + "\n"@
}

/// `true` or `false`.
pub open spec fn spec_bool_chars(b: bool) -> Seq<char> {
    if b {
        "true"@
    } else {
        "false"@
    }
}

/// `-` for an absent string, `+` and the text for a present one.
pub open spec fn spec_opt_chars(o: Option<String>) -> Seq<char> {
    match o {
        Option::None => "-"@,
        Option::Some(s) => "+"@ + s@,
    }
}

/// The tags joined with commas.
pub open spec fn spec_tags_chars(tags: Seq<String>) -> Seq<char>
    decreases tags.len(),
{
    if tags.len() == 0 {
        Seq::empty()
    } else if tags.len() == 1 {
        tags[0]@
    } else {
        spec_tags_chars(tags.drop_last()) + ","@ + tags.last()@
    }
}

pub open spec fn spec_crystal_chars(c: CrystalType) -> Seq<char> {
    match c {
        CrystalType::Cubic => "cubic"@,
        CrystalType::Tabular => "tabular"@,
        CrystalType::CoreShell => "core_shell"@,
        CrystalType::Cellular => "cellular"@,
        CrystalType::Needle => "needle"@,
        CrystalType::Custom { sides } => "custom:"@ + spec_u64_chars(sides as nat),
    }
}

pub open spec fn spec_mode_chars(m: ResponseMode) -> Seq<char> {
    match m {
        ResponseMode::Negative => "negative"@,
        ResponseMode::Print => "print"@,
        ResponseMode::Reversal => "reversal"@,
        ResponseMode::Custom => "custom"@,
    }
}

pub open spec fn spec_clustering_chars(c: ClusteringType) -> Seq<char> {
    match c {
        ClusteringType::Unclustered => "none"@,
        ClusteringType::Poisson => "poisson"@,
        ClusteringType::Fractal => "fractal"@,
        ClusteringType::Voronoi => "voronoi"@,
        ClusteringType::Hybrid => "hybrid"@,
    }
}

/// The `meta` section of a document.
pub open spec fn spec_meta_chars(m: FilmMeta) -> Seq<char> {
    spec_line("meta.name="@, m.name@) + spec_line(
        "meta.description="@,
        spec_opt_chars(m.description),
    ) + spec_line("meta.author="@, spec_opt_chars(m.author)) + spec_line(
        "meta.version="@,
        spec_u64_chars(m.version as nat),
    ) + spec_line("meta.tags="@, spec_tags_chars(m.tags@)) + spec_line(
        "meta.is_real_stock="@,
        spec_bool_chars(m.is_real_stock),
    )
}

/// The `grain` section of a document.
pub open spec fn spec_grain_chars(g: GrainParameters) -> Seq<char> {
    spec_line("grain.intensity="@, spec_i64_chars(g.intensity.value as int)) + spec_line(
        "grain.size="@,
        spec_i64_chars(g.size.value as int),
    ) + spec_line("grain.size_variation="@, spec_i64_chars(g.size_variation.value as int))
        + spec_line("grain.crystal_type="@, spec_crystal_chars(g.crystal_type)) + spec_line(
        "grain.sharpness="@,
        spec_i64_chars(g.sharpness.value as int),
    )
}

/// The `response` section of a document.
pub open spec fn spec_response_chars(r: ResponseCurve) -> Seq<char> {
    spec_line("response.shadows="@, spec_i64_chars(r.shadows.value as int)) + spec_line(
        "response.midtones="@,
        spec_i64_chars(r.midtones.value as int),
    ) + spec_line("response.highlights="@, spec_i64_chars(r.highlights.value as int)) + spec_line(
        "response.mode="@,
        spec_mode_chars(r.mode),
    )
}

/// The `color` section of a document.
pub open spec fn spec_color_chars(c: ColorParameters) -> Seq<char> {
    spec_line("color.is_color="@, spec_bool_chars(c.is_color)) + spec_line(
        "color.channel_intensity.0="@,
        spec_i64_chars(c.channel_intensity[0].value as int),
    ) + spec_line(
        "color.channel_intensity.1="@,
        spec_i64_chars(c.channel_intensity[1].value as int),
    ) + spec_line(
        "color.channel_intensity.2="@,
        spec_i64_chars(c.channel_intensity[2].value as int),
    ) + spec_line("color.channel_size.0="@, spec_i64_chars(c.channel_size[0].value as int))
        + spec_line("color.channel_size.1="@, spec_i64_chars(c.channel_size[1].value as int))
        + spec_line("color.channel_size.2="@, spec_i64_chars(c.channel_size[2].value as int))
        + spec_line("color.correlation="@, spec_i64_chars(c.correlation.value as int)) + spec_line(
        "color.dye_softness="@,
        spec_i64_chars(c.dye_softness.value as int),
    )
}

/// The `texture` section of a document.
pub open spec fn spec_texture_chars(t: TextureParameters) -> Seq<char> {
    spec_line("texture.clustering="@, spec_clustering_chars(t.clustering)) + spec_line(
        "texture.cluster_size="@,
        spec_i64_chars(t.cluster_size.value as int),
    ) + spec_line("texture.organic="@, spec_i64_chars(t.organic.value as int)) + spec_line(
        "texture.detail="@,
        spec_i64_chars(t.detail.value as int),
    ) + spec_line("texture.swirl="@, spec_i64_chars(t.swirl.value as int))
}

/// The whole document: the five sections in order.
pub open spec fn spec_stock_chars(s: FilmStock) -> Seq<char> {
    spec_meta_chars(s.meta) + spec_grain_chars(s.grain) + spec_response_chars(s.response)
        + spec_color_chars(s.color) + spec_texture_chars(s.texture)
}

fn push_opt(d: &mut String, o: &Option<String>)
    ensures
        final(d)@ == old(d)@ + spec_opt_chars(*o),
{
    match o {
        None => d.append("-"),
        Some(s) => {
            d.append("+");
            d.append(s.as_str());
        },
    }
    proof {
        assert(d@ =~= old(d)@ + spec_opt_chars(*o));
    }
}

fn push_bool(d: &mut String, b: bool)
    ensures
        final(d)@ == old(d)@ + spec_bool_chars(b),
{
    d.append(
        if b {
            "true"
        } else {
            "false"
        },
    );
}

fn push_tags(d: &mut String, tags: &Vec<String>)
    ensures
        final(d)@ == old(d)@ + spec_tags_chars(tags@),
{
    let n = tags.len();
    let mut i: usize = 0;
    proof {
        assert(d@ =~= old(d)@ + spec_tags_chars(tags@.subrange(0, 0)));
    }
    while i < n
        invariant
            n == tags@.len(),
            0 <= i <= n,
            d@ == old(d)@ + spec_tags_chars(tags@.subrange(0, i as int)),
        decreases n - i,
    {
        if i > 0 {
            d.append(",");
        }
        d.append(tags[i].as_str());
        proof {
            let pre = tags@.subrange(0, i as int);
            let post = tags@.subrange(0, i + 1);
            assert(post.drop_last() =~= pre);
            assert(post.last() == tags@[i as int]);
            if i == 0 {
                assert(d@ =~= old(d)@ + spec_tags_chars(post));
            } else {
                assert(spec_tags_chars(post) == spec_tags_chars(pre) + ","@ + tags@[i as int]@);
                assert(d@ =~= old(d)@ + spec_tags_chars(post));
            }
        }
        i = i + 1;
    }
    proof {
        assert(tags@.subrange(0, n as int) =~= tags@);
    }
}

fn push_crystal(d: &mut String, c: &CrystalType)
    ensures
        final(d)@ == old(d)@ + spec_crystal_chars(*c),
{
    match c {
        CrystalType::Cubic => d.append("cubic"),
        CrystalType::Tabular => d.append("tabular"),
        CrystalType::CoreShell => d.append("core_shell"),
        CrystalType::Cellular => d.append("cellular"),
        CrystalType::Needle => d.append("needle"),
        CrystalType::Custom { sides } => {
            d.append("custom:");
            push_u64(d, *sides as u64);
        },
    }
    proof {
        assert(d@ =~= old(d)@ + spec_crystal_chars(*c));
    }
}

#[verifier::rlimit(60)]
fn push_meta(d: &mut String, m: &FilmMeta)
    ensures
        final(d)@ == old(d)@ + spec_meta_chars(*m),
{
    d.append("meta.name=");
    d.append(m.name.as_str());
    d.append("\n");
    d.append("meta.description=");
    push_opt(d, &m.description);
    d.append("\n");
    d.append("meta.author=");
    push_opt(d, &m.author);
    d.append("\n");
    d.append("meta.version=");
    push_u64(d, m.version as u64);
    d.append("\n");
    d.append("meta.tags=");
    push_tags(d, &m.tags);
    d.append("\n");
    d.append("meta.is_real_stock=");
    push_bool(d, m.is_real_stock);
    d.append("\n");
    proof {
        assert(d@ =~= old(d)@ + spec_meta_chars(*m));
    }
}

fn push_i64_line(d: &mut String, key: &str, v: i64)
    ensures
        final(d)@ == old(d)@ + spec_line(key@, spec_i64_chars(v as int)),
{
    d.append(key);
    push_i64(d, v);
    d.append("\n");
    proof {
        assert(d@ =~= old(d)@ + spec_line(key@, spec_i64_chars(v as int)));
    }
}

fn push_grain(d: &mut String, g: &GrainParameters)
    ensures
        final(d)@ == old(d)@ + spec_grain_chars(*g),
{
    push_i64_line(d, "grain.intensity=", g.intensity.get());
    push_i64_line(d, "grain.size=", g.size.get());
    push_i64_line(d, "grain.size_variation=", g.size_variation.get());
    d.append("grain.crystal_type=");
    push_crystal(d, &g.crystal_type);
    d.append("\n");
    push_i64_line(d, "grain.sharpness=", g.sharpness.get());
    proof {
        assert(d@ =~= old(d)@ + spec_grain_chars(*g));
    }
}

fn push_response(d: &mut String, r: &ResponseCurve)
    ensures
        final(d)@ == old(d)@ + spec_response_chars(*r),
{
    push_i64_line(d, "response.shadows=", r.shadows.get());
    push_i64_line(d, "response.midtones=", r.midtones.get());
    push_i64_line(d, "response.highlights=", r.highlights.get());
    d.append("response.mode=");
    match r.mode {
        ResponseMode::Negative => d.append("negative"),
        ResponseMode::Print => d.append("print"),
        ResponseMode::Reversal => d.append("reversal"),
        ResponseMode::Custom => d.append("custom"),
    }
    d.append("\n");
    proof {
        assert(d@ =~= old(d)@ + spec_response_chars(*r));
    }
}

#[verifier::rlimit(60)]
fn push_color(d: &mut String, c: &ColorParameters)
    ensures
        final(d)@ == old(d)@ + spec_color_chars(*c),
{
    d.append("color.is_color=");
    push_bool(d, c.is_color);
    d.append("\n");
    push_i64_line(d, "color.channel_intensity.0=", c.channel_intensity[0].get());
    push_i64_line(d, "color.channel_intensity.1=", c.channel_intensity[1].get());
    push_i64_line(d, "color.channel_intensity.2=", c.channel_intensity[2].get());
    push_i64_line(d, "color.channel_size.0=", c.channel_size[0].get());
    push_i64_line(d, "color.channel_size.1=", c.channel_size[1].get());
    push_i64_line(d, "color.channel_size.2=", c.channel_size[2].get());
    push_i64_line(d, "color.correlation=", c.correlation.get());
    push_i64_line(d, "color.dye_softness=", c.dye_softness.get());
    proof {
        assert(d@ =~= old(d)@ + spec_color_chars(*c));
    }
}

fn push_texture(d: &mut String, t: &TextureParameters)
    ensures
        final(d)@ == old(d)@ + spec_texture_chars(*t),
{
    d.append("texture.clustering=");
    match t.clustering {
        ClusteringType::Unclustered => d.append("none"),
        ClusteringType::Poisson => d.append("poisson"),
        ClusteringType::Fractal => d.append("fractal"),
        ClusteringType::Voronoi => d.append("voronoi"),
        ClusteringType::Hybrid => d.append("hybrid"),
    }
    d.append("\n");
    push_i64_line(d, "texture.cluster_size=", t.cluster_size.get());
    push_i64_line(d, "texture.organic=", t.organic.get());
    push_i64_line(d, "texture.detail=", t.detail.get());
    push_i64_line(d, "texture.swirl=", t.swirl.get());
    proof {
        assert(d@ =~= old(d)@ + spec_texture_chars(*t));
    }
}

/// Serialize a stock into exactly the document text `spec_stock_chars`
/// defines; `decode_stock` reads it back.
pub fn encode_stock(stock: &FilmStock) -> (doc: String)
    ensures
        doc@ == spec_stock_chars(*stock),
{
    let mut d = String::new();
    push_meta(&mut d, &stock.meta);
    push_grain(&mut d, &stock.grain);
    push_response(&mut d, &stock.response);
    push_color(&mut d, &stock.color);
    push_texture(&mut d, &stock.texture);
    proof {
        assert(d@ =~= spec_stock_chars(*stock));
    }
    d
}

/// Read a document back into a stock. Rejects, without panicking, any
/// document whose next line is not the expected field — in particular one
/// with an unrecognized top-level section — as well as a name breaking the
/// naming rules, a numeric value outside its declared range, trailing
/// text, or a non-canonical spelling of a value (a number with leading
/// zeros, and the like). Every accepted document is well-formed, and is
/// exactly the canonical text of the stock returned: the parse result is
/// re-encoded and held against the input before it is accepted.
#[verifier::rlimit(60)]
pub fn decode_stock(doc: &str) -> (r: Result<FilmStock, GrainError>)
    ensures
        r matches Ok(s) ==> s.wf() && doc@ == spec_stock_chars(s),
        r is Err ==> r->Err_0 is InvalidParameter,
{
    let mut pos: usize = 0;

    let name = match read_string_line(doc, &mut pos, "meta.name=") {
        Some(s) => s,
        None => {
            return Err(doc_error());
        },
    };
    match validate_name(name.as_str()) {
        Ok(_) => (),
        Err(e) => {
            return Err(e);
        },
    }
    let description = match read_opt_string_line(doc, &mut pos, "meta.description=") {
        Some(o) => o,
        None => {
            return Err(doc_error());
        },
    };
    let author = match read_opt_string_line(doc, &mut pos, "meta.author=") {
        Some(o) => o,
        None => {
            return Err(doc_error());
        },
    };
    let version = match read_u32_line(doc, &mut pos, "meta.version=") {
        Some(v) => v,
        None => {
            return Err(doc_error());
        },
    };
    let tags_line = match read_string_line(doc, &mut pos, "meta.tags=") {
        Some(s) => s,
        None => {
            return Err(doc_error());
        },
    };
    let tags = split_tags(tags_line.as_str());
    let is_real_stock = match read_bool_line(doc, &mut pos, "meta.is_real_stock=") {
        Some(b) => b,
        None => {
            return Err(doc_error());
        },
    };

    let intensity = match read_bounded(doc, &mut pos, "grain.intensity=", 0, 2000) {
        Some(b) => b,
        None => {
            return Err(doc_error());
        },
    };
    let size = match read_bounded(doc, &mut pos, "grain.size=", 100, 3000) {
        Some(b) => b,
        None => {
            return Err(doc_error());
        },
    };
    let size_variation = match read_bounded(doc, &mut pos, "grain.size_variation=", 0, 2000) {
        Some(b) => b,
        None => {
            return Err(doc_error());
        },
    };
    let crystal_type = match read_crystal_line(doc, &mut pos) {
        Some(c) => c,
        None => {
            return Err(doc_error());
        },
    };
    let sharpness = match read_bounded(doc, &mut pos, "grain.sharpness=", 0, 1000) {
        Some(b) => b,
        None => {
            return Err(doc_error());
        },
    };

    let shadows = match read_bounded(doc, &mut pos, "response.shadows=", 0, 2000) {
        Some(b) => b,
        None => {
            return Err(doc_error());
        },
    };
    let midtones = match read_bounded(doc, &mut pos, "response.midtones=", 0, 2000) {
        Some(b) => b,
        None => {
            return Err(doc_error());
        },
    };
    let highlights = match read_bounded(doc, &mut pos, "response.highlights=", 0, 2000) {
        Some(b) => b,
        None => {
            return Err(doc_error());
        },
    };
    let mode = match read_mode_line(doc, &mut pos) {
        Some(m) => m,
        None => {
            return Err(doc_error());
        },
    };

    let is_color = match read_bool_line(doc, &mut pos, "color.is_color=") {
        Some(b) => b,
        None => {
            return Err(doc_error());
        },
    };
    let ci0 = match read_bounded(doc, &mut pos, "color.channel_intensity.0=", 0, 3000) {
        Some(b) => b,
        None => {
            return Err(doc_error());
        },
    };
    let ci1 = match read_bounded(doc, &mut pos, "color.channel_intensity.1=", 0, 3000) {
        Some(b) => b,
        None => {
            return Err(doc_error());
        },
    };
    let ci2 = match read_bounded(doc, &mut pos, "color.channel_intensity.2=", 0, 3000) {
        Some(b) => b,
        None => {
            return Err(doc_error());
        },
    };
    let cs0 = match read_bounded(doc, &mut pos, "color.channel_size.0=", 500, 2000) {
        Some(b) => b,
        None => {
            return Err(doc_error());
        },
    };
    let cs1 = match read_bounded(doc, &mut pos, "color.channel_size.1=", 500, 2000) {
        Some(b) => b,
        None => {
            return Err(doc_error());
        },
    };
    let cs2 = match read_bounded(doc, &mut pos, "color.channel_size.2=", 500, 2000) {
        Some(b) => b,
        None => {
            return Err(doc_error());
        },
    };
    let correlation = match read_bounded(doc, &mut pos, "color.correlation=", -1000, 1000) {
        Some(b) => b,
        None => {
            return Err(doc_error());
        },
    };
    let dye_softness = match read_bounded(doc, &mut pos, "color.dye_softness=", 0, 1000) {
        Some(b) => b,
        None => {
            return Err(doc_error());
        },
    };

    let clustering = match read_clustering_line(doc, &mut pos) {
        Some(c) => c,
        None => {
            return Err(doc_error());
        },
    };
    let cluster_size = match read_bounded(doc, &mut pos, "texture.cluster_size=", 1000, 50000) {
        Some(b) => b,
        None => {
            return Err(doc_error());
        },
    };
    let organic = match read_bounded(doc, &mut pos, "texture.organic=", 1000, 2000) {
        Some(b) => b,
        None => {
            return Err(doc_error());
        },
    };
    let detail = match read_bounded(doc, &mut pos, "texture.detail=", 1000, 8000) {
        Some(b) => b,
        None => {
            return Err(doc_error());
        },
    };
    let swirl = match read_bounded(doc, &mut pos, "texture.swirl=", 0, 5000) {
        Some(b) => b,
        None => {
            return Err(doc_error());
        },
    };

    if pos != doc.unicode_len() {
        return Err(doc_error());
    }

    let stock = FilmStock {
        meta: FilmMeta { name, description, author, version, tags, is_real_stock },
        grain: GrainParameters { intensity, size, size_variation, crystal_type, sharpness },
        response: ResponseCurve { shadows, midtones, highlights, mode },
        color: ColorParameters {
            is_color,
            channel_intensity: [ci0, ci1, ci2],
            channel_size: [cs0, cs1, cs2],
            correlation,
            dye_softness,
        },
        texture: TextureParameters { clustering, cluster_size, organic, detail, swirl },
    };
    let canonical = encode_stock(&stock);
    let owned = String::from_str(doc);
    if owned == canonical {
        Ok(stock)
    } else {
        Err(doc_error())
    }
}

/// The `grain.crystal_type=` line.
fn read_crystal_line(doc: &str, pos: &mut usize) -> (r: Option<CrystalType>)
    requires
        *old(pos) <= doc@.len(),
    ensures
        *old(pos) <= *final(pos) <= doc@.len(),
{
    if !expect(doc, pos, "grain.crystal_type=") {
        return None;
    }
    let c = if expect(doc, pos, "cubic") {
        CrystalType::Cubic
    } else if expect(doc, pos, "tabular") {
        CrystalType::Tabular
    } else if expect(doc, pos, "core_shell") {
        CrystalType::CoreShell
    } else if expect(doc, pos, "cellular") {
        CrystalType::Cellular
    } else if expect(doc, pos, "needle") {
        CrystalType::Needle
    } else if expect(doc, pos, "custom:") {
        let sides = match parse_u64(doc, pos) {
            Some(v) => v,
            None => {
                return None;
            },
        };
        if sides > 0xFFFFFFFF {
            return None;
        }
        CrystalType::Custom { sides: sides as u32 }
    } else {
        return None;
    };
    if !expect(doc, pos, "\n") {
        return None;
    }
    Some(c)
}

/// The `response.mode=` line.
fn read_mode_line(doc: &str, pos: &mut usize) -> (r: Option<ResponseMode>)
    requires
        *old(pos) <= doc@.len(),
    ensures
        *old(pos) <= *final(pos) <= doc@.len(),
{
    if !expect(doc, pos, "response.mode=") {
        return None;
    }
    let m = if expect(doc, pos, "negative") {
        ResponseMode::Negative
    } else if expect(doc, pos, "print") {
        ResponseMode::Print
    } else if expect(doc, pos, "reversal") {
        ResponseMode::Reversal
    } else if expect(doc, pos, "custom") {
        ResponseMode::Custom
    } else {
        return None;
    };
    if !expect(doc, pos, "\n") {
        return None;
    }
    Some(m)
}

/// The `texture.clustering=` line.
fn read_clustering_line(doc: &str, pos: &mut usize) -> (r: Option<ClusteringType>)
    requires
        *old(pos) <= doc@.len(),
    ensures
        *old(pos) <= *final(pos) <= doc@.len(),
{
    if !expect(doc, pos, "texture.clustering=") {
        return None;
    }
    let c = if expect(doc, pos, "none") {
        ClusteringType::Unclustered
    } else if expect(doc, pos, "poisson") {
        ClusteringType::Poisson
    } else if expect(doc, pos, "fractal") {
        ClusteringType::Fractal
    } else if expect(doc, pos, "voronoi") {
        ClusteringType::Voronoi
    } else if expect(doc, pos, "hybrid") {
        ClusteringType::Hybrid
    } else {
        return None;
    };
    if !expect(doc, pos, "\n") {
        return None;
    }
    Some(c)
}

} // verus!
