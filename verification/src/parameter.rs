//! Typed, range-described parameters: the data the inspector edits and the
//! command history replays.
//!
//! Fractional magnitudes (the `Float` family) are carried in thousandths of
//! a unit, as in [`crate::validation::BoundedFloat`].
use vstd::prelude::*;

verus! {

/// One parameter value: a tagged union over the small, closed set of value
/// families.
#[derive(Debug, PartialEq)]
pub enum ParameterValue {
    /// A fractional magnitude, in thousandths of a unit.
    Float(i64),
    Int(i32),
    Bool(bool),
    Selection(String),
}

impl Clone for ParameterValue {
    fn clone(&self) -> (r: Self)
        ensures
            r == self,
    {
        match self {
            ParameterValue::Float(v) => ParameterValue::Float(*v),
            ParameterValue::Int(v) => ParameterValue::Int(*v),
            ParameterValue::Bool(v) => ParameterValue::Bool(*v),
            ParameterValue::Selection(s) => ParameterValue::Selection(s.clone()),
        }
    }
}

/// Control points of a response curve, in thousandths of a unit per axis.
#[derive(Debug, Clone, PartialEq)]
pub struct ParameterCurve {
    pub points: Vec<(i64, i64)>,
}

/// The domain a parameter value is drawn from.
#[derive(Debug, Clone, PartialEq)]
pub enum ParameterRange {
    /// A closed fractional interval, bounds in thousandths of a unit.
    Float { min: i64, max: i64 },
    Int { min: i32, max: i32 },
    Selection(Vec<String>),
    Curve(ParameterCurve),
}

/// A named, described, range-bounded parameter.
#[derive(Debug, PartialEq)]
pub struct Parameter {
    pub id: String,
    pub display_name: String,
    pub description: String,
    pub value: ParameterValue,
    pub default_value: ParameterValue,
    pub range: ParameterRange,
}

impl Parameter {
    /// A fractional parameter whose value and default both start at `val`,
    /// with the declared interval `[min, max]`; all magnitudes in
    /// thousandths of a unit.
    pub fn new_float(id: &str, name: &str, desc: &str, val: i64, min: i64, max: i64) -> (r: Self)
        ensures
            r.id@ == id@,
            r.display_name@ == name@,
            r.description@ == desc@,
            r.value == ParameterValue::Float(val),
            r.default_value == ParameterValue::Float(val),
            r.range == (ParameterRange::Float { min, max }),
    {
        Parameter {
            id: String::from_str(id),
            display_name: String::from_str(name),
            description: String::from_str(desc),
            value: ParameterValue::Float(val),
            default_value: ParameterValue::Float(val),
            range: ParameterRange::Float { min, max },
        }
    }

    /// Restore the value from the default.
    pub fn reset(&mut self)
        ensures
            final(self).value == old(self).default_value,
            final(self).id == old(self).id,
            final(self).display_name == old(self).display_name,
            final(self).description == old(self).description,
            final(self).default_value == old(self).default_value,
            final(self).range == old(self).range,
    {
        self.value = self.default_value.clone();
    }
}

/// The index of the first parameter whose id is `id`, or `-1` if none
/// matches.
pub open spec fn find_param(ps: Seq<Parameter>, id: Seq<char>) -> int
    decreases ps.len(),
{
    if ps.len() == 0 {
        -1
    } else if ps[0].id@ == id {
        0
    } else {
        let r = find_param(ps.drop_first(), id);
        if r == -1 {
            -1
        } else {
            r + 1
        }
    }
}

proof fn lemma_find_param_at(ps: Seq<Parameter>, id: Seq<char>, k: int)
    requires
        0 <= k < ps.len(),
        ps[k].id@ == id,
        forall|j: int| 0 <= j < k ==> (#[trigger] ps[j]).id@ != id,
    ensures
        find_param(ps, id) == k,
    decreases ps.len(),
{
    if k > 0 {
        lemma_find_param_at(ps.drop_first(), id, k - 1);
    }
}

proof fn lemma_find_param_none(ps: Seq<Parameter>, id: Seq<char>)
    requires
        forall|j: int| 0 <= j < ps.len() ==> (#[trigger] ps[j]).id@ != id,
    ensures
        find_param(ps, id) == -1,
    decreases ps.len(),
{
    if ps.len() > 0 {
        lemma_find_param_none(ps.drop_first(), id);
    }
}

/// `ps` with the value of the first parameter matching `id` replaced by
/// `v`; unchanged when no parameter matches.
pub open spec fn with_value(ps: Seq<Parameter>, id: Seq<char>, v: ParameterValue) -> Seq<
    Parameter,
> {
    let k = find_param(ps, id);
    if k == -1 {
        ps
    } else {
        ps.update(
            k,
            Parameter {
                id: ps[k].id,
                display_name: ps[k].display_name,
                description: ps[k].description,
                value: v,
                default_value: ps[k].default_value,
                range: ps[k].range,
            },
        )
    }
}

/// `ps` with the value of the first parameter matching `id` restored from
/// its default; unchanged when no parameter matches.
pub open spec fn with_reset(ps: Seq<Parameter>, id: Seq<char>) -> Seq<Parameter> {
    let k = find_param(ps, id);
    if k == -1 {
        ps
    } else {
        with_value(ps, id, ps[k].default_value)
    }
}

/// Restore the first parameter whose id is `id` from its default value; a
/// silent no-op when no parameter matches.
pub fn reset_parameter(params: &mut Vec<Parameter>, id: &String)
    ensures
        final(params)@ == with_reset(old(params)@, id@),
{
    let n = params.len();
    let mut i: usize = 0;
    while i < n
        invariant
            n == params@.len(),
            0 <= i <= n,
            *params == *old(params),
            forall|j: int| 0 <= j < i ==> (#[trigger] params@[j]).id@ != id@,
        decreases n - i,
    {
        if params[i].id == *id {
            proof {
                lemma_find_param_at(params@, id@, i as int);
            }
            let d = params[i].default_value.clone();
            params[i].value = d;
            return ;
        }
        i = i + 1;
    }
    proof {
        lemma_find_param_none(params@, id@);
    }
}

proof fn lemma_find_param_update_same_id(ps: Seq<Parameter>, id: Seq<char>, k: int, p2: Parameter)
    requires
        0 <= k < ps.len(),
        p2.id@ == ps[k].id@,
    ensures
        find_param(ps.update(k, p2), id) == find_param(ps, id),
    decreases ps.len(),
{
    let updated = ps.update(k, p2);
    if k == 0 {
        assert(updated.drop_first() =~= ps.drop_first());
    } else {
        assert(updated[0] == ps[0]);
        assert(updated.drop_first() =~= ps.drop_first().update(k - 1, p2));
        lemma_find_param_update_same_id(ps.drop_first(), id, k - 1, p2);
    }
}

/// Writing a parameter twice leaves exactly the second value: replaying a
/// command forwards after replaying it backwards restores the forward
/// state, whatever was written in between on the same parameter.
pub proof fn lemma_with_value_overwrites(
    ps: Seq<Parameter>,
    id: Seq<char>,
    v1: ParameterValue,
    v2: ParameterValue,
)
    ensures
        with_value(with_value(ps, id, v1), id, v2) == with_value(ps, id, v2),
{
    let k = find_param(ps, id);
    if k != -1 {
        lemma_find_param_in_range(ps, id);
        let p1 = Parameter {
            id: ps[k].id,
            display_name: ps[k].display_name,
            description: ps[k].description,
            value: v1,
            default_value: ps[k].default_value,
            range: ps[k].range,
        };
        lemma_find_param_update_same_id(ps, id, k, p1);
        assert(with_value(with_value(ps, id, v1), id, v2) =~= with_value(ps, id, v2));
    }
}

proof fn lemma_find_param_in_range(ps: Seq<Parameter>, id: Seq<char>)
    ensures
        find_param(ps, id) == -1 || (0 <= find_param(ps, id) < ps.len() && ps[find_param(
            ps,
            id,
        )].id@ == id),
    decreases ps.len(),
{
    if ps.len() > 0 && ps[0].id@ != id {
        lemma_find_param_in_range(ps.drop_first(), id);
    }
}

/// Replace the value of the first parameter whose id is `id`; a silent
/// no-op when no parameter matches.
pub fn set_parameter(params: &mut Vec<Parameter>, id: &String, value: ParameterValue)
    ensures
        final(params)@ == with_value(old(params)@, id@, value),
{
    let n = params.len();
    let mut i: usize = 0;
    while i < n
        invariant
            n == params@.len(),
            0 <= i <= n,
            *params == *old(params),
            forall|j: int| 0 <= j < i ==> (#[trigger] params@[j]).id@ != id@,
        decreases n - i,
    {
        if params[i].id == *id {
            proof {
                lemma_find_param_at(params@, id@, i as int);
            }
            params[i].value = value;
            return ;
        }
        i = i + 1;
    }
    proof {
        lemma_find_param_none(params@, id@);
    }
}

} // verus!
