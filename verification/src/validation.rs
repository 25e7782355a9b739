//! Range-bounded numeric values and input validation.
//!
//! Parameter magnitudes are carried as signed integers counting thousandths
//! of a unit, so `1500` stands for one and a half. The user interface works
//! in fractional units and converts at the boundary; everything in this
//! crate reasons over the integer representation. That fixes the clamping
//! policy for non-finite input: a NaN or infinity has no thousandths
//! representation, so the boundary conversion must reject it before a value
//! reaches [`BoundedFloat`], whose clamp is total over the integers.
use vstd::prelude::*;
use vstd::string::StrSliceExecFns;
use vstd::string::StringExecFns;
use crate::error::ExportError;
use crate::error::GrainError;

verus! {

/// Clamping of `value` into the closed interval `[min, max]`.
pub open spec fn clamped(value: i64, min: i64, max: i64) -> i64 {
    if value < min {
        min
    } else if value > max {
        max
    } else {
        value
    }
}

/// A numeric value held inside a closed interval, in thousandths of a unit.
/// Every construction and mutation clamps, so `min <= value <= max` holds
/// at all times (`wf`).
#[derive(Debug, Clone, PartialEq, Eq, Structural)]
pub struct BoundedFloat {
    pub value: i64,
    pub min: i64,
    pub max: i64,
}

impl BoundedFloat {
    /// The interval invariant: the bounds are ordered and the value lies
    /// between them.
    pub open spec fn wf(&self) -> bool {
        self.min <= self.value <= self.max
    }

    /// Clamp `value` into `[min, max]` and record the bounds.
    pub fn new(value: i64, min: i64, max: i64) -> (r: Self)
        requires
            min <= max,
        ensures
            r.wf(),
            r.min == min,
            r.max == max,
            r.value == clamped(value, min, max),
            min <= value <= max ==> r.value == value,
            value < min ==> r.value == min,
            value > max ==> r.value == max,
    {
        let v = if value < min {
            min
        } else if value > max {
            max
        } else {
            value
        };
        BoundedFloat { value: v, min, max }
    }

    /// Replace the value, clamping into the stored bounds.
    pub fn set(&mut self, value: i64)
        requires
            old(self).wf(),
        ensures
            final(self).wf(),
            final(self).min == old(self).min,
            final(self).max == old(self).max,
            final(self).value == clamped(value, old(self).min, old(self).max),
    {
        self.value = if value < self.min {
            self.min
        } else if value > self.max {
            self.max
        } else {
            value
        };
    }

    pub fn get(&self) -> (r: i64)
        ensures
            r == self.value,
    {
        self.value
    }
}

impl Default for BoundedFloat {
    /// Zero inside the unit interval `[0, 1]`.
    fn default() -> (r: Self)
        ensures
            r.wf(),
            r.value == 0,
            r.min == 0,
            r.max == 1000,
    {
        BoundedFloat { value: 0, min: 0, max: 1000 }
    }
}

/// Whether `char::is_alphanumeric` holds of the character: membership in
/// the Unicode Letter or Number categories, a function of the character
/// alone.
pub uninterp spec fn unicode_alphanumeric(c: char) -> bool;

/// Relies on `char::is_alphanumeric`: true exactly for characters in the
/// Unicode Letter or Number categories.
#[verifier::external_body]
fn is_alphanumeric_char(c: char) -> (r: bool)
    ensures
        r == unicode_alphanumeric(c),
{
    c.is_alphanumeric()
}

/// Characters a film-stock name may contain: alphanumerics, space, hyphen
/// and underscore. The ASCII letter and digit ranges are spelled out
/// besides `unicode_alphanumeric` (which they are contained in), so that
/// names made of them can be judged without calling into the character
/// tables.
pub open spec fn is_name_char(c: char) -> bool {
    let u = c as u32;
    ||| unicode_alphanumeric(c)
    ||| (48 <= u <= 57)
    ||| (65 <= u <= 90)
    ||| (97 <= u <= 122)
    ||| u == 32
    ||| u == 45
    ||| u == 95
}

/// A film-stock name is non-empty, at most 64 characters, and drawn from
/// `is_name_char`.
pub open spec fn valid_name(s: Seq<char>) -> bool {
    &&& 1 <= s.len() <= 64
    &&& forall|i: int| 0 <= i < s.len() ==> is_name_char(#[trigger] s[i])
}

fn name_char(c: char) -> (b: bool)
    ensures
        b == is_name_char(c),
{
    let u = c as u32;
    is_alphanumeric_char(c) || (48 <= u && u <= 57) || (65 <= u && u <= 90) || (97 <= u && u <= 122)
        || u == 32 || u == 45 || u == 95
}

/// Accept a film-stock name exactly when it is non-empty, at most 64
/// characters, and made of alphanumerics, space, `-` and `_`.
pub fn validate_name(s: &str) -> (r: Result<(), GrainError>)
    ensures
        r is Ok <==> valid_name(s@),
        r is Err ==> r->Err_0 is InvalidParameter,
{
    let n = s.unicode_len();
    if n == 0 {
        return Err(GrainError::InvalidParameter {
            name: String::from_str("meta.name"),
            reason: String::from_str("Name must not be empty"),
        });
    }
    if n > 64 {
        return Err(GrainError::InvalidParameter {
            name: String::from_str("meta.name"),
            reason: String::from_str("Name too long (max 64 chars)"),
        });
    }
    let mut i: usize = 0;
    while i < n
        invariant
            n == s@.len(),
            0 <= i <= n,
            forall|j: int| 0 <= j < i ==> is_name_char(#[trigger] s@[j]),
        decreases n - i,
    {
        if !name_char(s.get_char(i)) {
            return Err(GrainError::InvalidParameter {
                name: String::from_str("meta.name"),
                reason: String::from_str("Invalid characters in name"),
            });
        }
        i = i + 1;
    }
    Ok(())
}

/// ASCII lowercasing of one character; everything else is untouched.
pub open spec fn lower_char(c: char) -> char {
    let u = c as u32;
    if 65 <= u <= 90 {
        ((u + 32) as u8) as char
    } else {
        c
    }
}

/// ASCII lowercasing of a character sequence.
pub open spec fn lower_seq(s: Seq<char>) -> Seq<char> {
    s.map_values(|c: char| lower_char(c))
}

/// The index of the last occurrence of `c` in `s`, or `-1` if absent.
pub open spec fn last_index_of(s: Seq<char>, c: char) -> int
    decreases s.len(),
{
    if s.len() == 0 {
        -1
    } else if s[s.len() - 1] == c {
        s.len() - 1
    } else {
        last_index_of(s.drop_last(), c)
    }
}

proof fn lemma_last_index_at(s: Seq<char>, c: char, k: int)
    requires
        0 <= k < s.len(),
        s[k] == c,
        forall|j: int| k < j < s.len() ==> #[trigger] s[j] != c,
    ensures
        last_index_of(s, c) == k,
    decreases s.len(),
{
    if k < s.len() - 1 {
        lemma_last_index_at(s.drop_last(), c, k);
    }
}

proof fn lemma_last_index_none(s: Seq<char>, c: char)
    requires
        forall|j: int| 0 <= j < s.len() ==> #[trigger] s[j] != c,
    ensures
        last_index_of(s, c) == -1,
    decreases s.len(),
{
    if s.len() > 0 {
        lemma_last_index_none(s.drop_last(), c);
    }
}

/// The last occurrence of `c` in `s`, scanning from the end.
fn rfind_char(s: &str, c: char) -> (r: Option<usize>)
    ensures
        match r {
            Some(i) => i < s@.len() && last_index_of(s@, c) == i as int,
            None => last_index_of(s@, c) == -1,
        },
{
    let n = s.unicode_len();
    let mut i: usize = n;
    while i > 0
        invariant
            n == s@.len(),
            0 <= i <= n,
            forall|j: int| i <= j < n ==> #[trigger] s@[j] != c,
        decreases i,
    {
        i = i - 1;
        if s.get_char(i) == c {
            proof {
                lemma_last_index_at(s@, c, i as int);
            }
            return Some(i);
        }
    }
    proof {
        lemma_last_index_none(s@, c);
    }
    None
}

/// Whether a canonical path carries a non-empty extension: a `.` strictly
/// inside the file name, with at least one character after it.
pub open spec fn has_extension(s: Seq<char>) -> bool {
    let dot = last_index_of(s, '.');
    let slash = last_index_of(s, '/');
    dot > slash + 1 && dot + 1 < s.len()
}

/// The characters after the last `.` of the path.
pub open spec fn extension_of(s: Seq<char>) -> Seq<char> {
    s.subrange(last_index_of(s, '.') + 1, s.len() as int)
}

/// The extensions an export sink accepts, compared case-insensitively.
pub open spec fn allowed_extension(e: Seq<char>) -> bool {
    let l = lower_seq(e);
    ||| l == seq!['p', 'n', 'g']
    ||| l == seq!['t', 'i', 'f']
    ||| l == seq!['t', 'i', 'f', 'f']
    ||| l == seq!['e', 'x', 'r']
}

fn to_lower_char(c: char) -> (r: char)
    ensures
        r == lower_char(c),
{
    let u = c as u32;
    if 65 <= u && u <= 90 {
        ((u + 32) as u8) as char
    } else {
        c
    }
}

/// Collect the ASCII-lowercased characters of `s` from `start` to its end.
fn lowered_tail(s: &str, start: usize) -> (v: Vec<char>)
    requires
        start <= s@.len(),
    ensures
        v@ == lower_seq(s@.subrange(start as int, s@.len() as int)),
{
    let n = s.unicode_len();
    let mut v: Vec<char> = Vec::new();
    let mut i: usize = start;
    while i < n
        invariant
            start <= i <= n,
            n == s@.len(),
            v@.len() == i - start,
            forall|j: int| 0 <= j < v@.len() ==> v@[j] == lower_char(#[trigger] s@[start + j]),
        decreases n - i,
    {
        v.push(to_lower_char(s.get_char(i)));
        i = i + 1;
    }
    proof {
        let sub = s@.subrange(start as int, s@.len() as int);
        assert forall|j: int| 0 <= j < v@.len() implies v@[j] == lower_seq(sub)[j] by {
            assert(sub[j] == s@[start + j]);
        }
        assert(v@ =~= lower_seq(sub));
    }
    v
}

/// The ASCII-lowercased characters of a string.
pub fn lowered_chars(s: &str) -> (v: Vec<char>)
    ensures
        v@ == lower_seq(s@),
{
    let v = lowered_tail(s, 0);
    proof {
        assert(s@.subrange(0, s@.len() as int) =~= s@);
    }
    v
}

/// Whether an already-lowercased extension is one an export sink accepts.
fn is_allowed_lowered(e: &Vec<char>) -> (b: bool)
    ensures
        b == (e@ == seq!['p', 'n', 'g'] || e@ == seq!['t', 'i', 'f'] || e@ == seq![
            't',
            'i',
            'f',
            'f',
        ] || e@ == seq!['e', 'x', 'r']),
{
    if e.len() == 3 {
        let b = (e[0] == 'p' && e[1] == 'n' && e[2] == 'g') || (e[0] == 't' && e[1] == 'i' && e[2]
            == 'f') || (e[0] == 'e' && e[1] == 'x' && e[2] == 'r');
        proof {
            if b {
                if e@[0] == 'p' {
                    assert(e@ =~= seq!['p', 'n', 'g']);
                } else if e@[0] == 't' {
                    assert(e@ =~= seq!['t', 'i', 'f']);
                } else {
                    assert(e@ =~= seq!['e', 'x', 'r']);
                }
            } else {
                assert(e@ != seq!['p', 'n', 'g'] && e@ != seq!['t', 'i', 'f'] && e@ != seq![
                    'e',
                    'x',
                    'r',
                ]);
                assert(e@.len() != 4);
            }
        }
        b
    } else if e.len() == 4 {
        let b = e[0] == 't' && e[1] == 'i' && e[2] == 'f' && e[3] == 'f';
        proof {
            if b {
                assert(e@ =~= seq!['t', 'i', 'f', 'f']);
            } else {
                assert(e@ != seq!['t', 'i', 'f', 'f']);
                assert(e@.len() != 3);
            }
        }
        b
    } else {
        proof {
            assert(e@.len() != 3 && e@.len() != 4);
        }
        false
    }
}

/// Decide whether an export path is acceptable.
///
/// The caller resolves the path first: `canonical` is the canonicalized
/// path when the location exists, and `None` when it does not resolve.
/// A non-resolvable path is rejected as `InvalidPath`; a resolvable one is
/// accepted exactly when it ends in `png`, `tif`, `tiff` or `exr`
/// (case-insensitively), and is otherwise rejected as `InvalidExtension`.
pub fn validate_export_path(canonical: Option<&str>) -> (r: Result<String, ExportError>)
    ensures
        canonical is None ==> r == Err::<String, ExportError>(ExportError::InvalidPath),
        canonical matches Some(p) ==> {
            &&& (r is Ok <==> has_extension(p@) && allowed_extension(extension_of(p@)))
            &&& (r matches Ok(q) ==> q@ == p@)
            &&& (r is Err ==> r == Err::<String, ExportError>(ExportError::InvalidExtension))
        },
{
    match canonical {
        None => Err(ExportError::InvalidPath),
        Some(p) => {
            let n = p.unicode_len();
            let dot = rfind_char(p, '.');
            let slash = rfind_char(p, '/');
            match dot {
                None => Err(ExportError::InvalidExtension),
                Some(d) => {
                    let name_ok = match slash {
                        None => d > 0,
                        Some(sl) => d > sl + 1,
                    };
                    if name_ok && d + 1 < n {
                        let ext = lowered_tail(p, d + 1);
                        proof {
                            assert(extension_of(p@) == p@.subrange(d + 1, p@.len() as int));
                        }
                        if is_allowed_lowered(&ext) {
                            Ok(String::from_str(p))
                        } else {
                            Err(ExportError::InvalidExtension)
                        }
                    } else {
                        Err(ExportError::InvalidExtension)
                    }
                },
            }
        },
    }
}

} // verus!
