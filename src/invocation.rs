//! The resolved invocation: the active mode and the values given for its arguments.
use crate::mode::{
    has_bind_address, has_destination, lemma_mode_names_distinct, mode_from_name, spec_mode_name,
    spec_perspective, Mode, Perspective,
};
use crate::schema::{
    arg_at, arg_ordinal, arg_spec, in_mode, lemma_ordinal_injective, spec_arg_ordinal,
    spec_is_flag, spec_is_multiple, spec_is_required, spec_mode_args, ArgId, ARG_COUNT,
};
use vstd::prelude::*;

verus! {

/// What the command line gave for one argument.
#[derive(Clone, Debug)]
pub enum ArgValue {
    /// Neither given nor defaulted.
    Absent,
    /// The value of an argument that takes one.
    Single(String),
    /// The values of a repeatable argument, in command-line order.
    Many(Vec<String>),
    /// How often a bare flag was given.
    Count(u64),
}

/// An argument value has the shape that its argument calls for.
pub open spec fn value_fits(id: ArgId, v: ArgValue) -> bool {
    if spec_is_flag(id) {
        v is Count
    } else if spec_is_multiple(id) {
        v is Many || v is Absent
    } else if spec_is_required(id) {
        v is Single
    } else {
        v is Single || v is Absent
    }
}

/// A table of values, one per argument, fits a mode: the mode's own arguments have the
/// shape they call for, and every other argument is absent.
pub open spec fn values_fit(m: Mode, values: Seq<ArgValue>) -> bool {
    &&& values.len() == ARG_COUNT
    &&& forall|id: ArgId|
        #![trigger values[spec_arg_ordinal(id) as int]]
        if spec_mode_args(m).contains(id) {
            value_fits(id, values[spec_arg_ordinal(id) as int])
        } else {
            values[spec_arg_ordinal(id) as int] is Absent
        }
}

/// The mode that a process runs in and what its command line said.
#[derive(Debug)]
pub struct Invocation {
    mode: Mode,
    values: Vec<ArgValue>,
}

impl View for Invocation {
    type V = (Mode, Seq<ArgValue>);

    closed spec fn view(&self) -> (Mode, Seq<ArgValue>) {
        (self.mode, self.values@)
    }
}

/// The value recorded for one argument.
pub open spec fn spec_value(inv: (Mode, Seq<ArgValue>), id: ArgId) -> ArgValue {
    inv.1[spec_arg_ordinal(id) as int]
}

/// The strings held by a value, in order; none for an absent value or a count.
pub open spec fn spec_strings(v: ArgValue) -> Seq<Seq<char>> {
    match v {
        ArgValue::Single(s) => seq![s@],
        ArgValue::Many(vs) => vs@.map_values(|s: String| s@),
        _ => seq![],
    }
}

/// The occurrence count of a flag; zero for anything else.
pub open spec fn spec_count(v: ArgValue) -> u64 {
    match v {
        ArgValue::Count(n) => n,
        _ => 0,
    }
}

/// The address to bind: the positional value where the mode has one, else `0.0.0.0`.
pub open spec fn spec_bind_address(inv: (Mode, Seq<ArgValue>)) -> Seq<char> {
    match spec_value(inv, ArgId::BindAddress) {
        ArgValue::Single(s) => s@,
        _ => "0.0.0.0"@,
    }
}

impl Invocation {
    #[verifier::type_invariant]
    pub open spec fn well_formed(self) -> bool {
        values_fit(self@.0, self@.1)
    }

    /// Builds an invocation from a table that fits its mode.
    pub fn from_values(mode: Mode, values: Vec<ArgValue>) -> (r: Invocation)
        requires
            values_fit(mode, values@),
        ensures
            r@ == (mode, values@),
    {
        Invocation { mode, values }
    }
}

/// The active mode.
pub fn mode(inv: &Invocation) -> (r: Mode)
    ensures
        r == inv@.0,
{
    inv.mode
}

/// The values given for the active mode's arguments, one slot per argument; the slots of
/// arguments that the mode does not have are absent.
pub fn active_arguments(inv: &Invocation) -> (r: &Vec<ArgValue>)
    ensures
        r@ == inv@.1,
        values_fit(inv@.0, r@),
{
    proof { use_type_invariant(inv); }
    &inv.values
}

/// The value recorded for one argument.
pub fn value_of(inv: &Invocation, id: ArgId) -> (r: &ArgValue)
    ensures
        *r == spec_value(inv@, id),
{
    proof { use_type_invariant(inv); }
    &inv.values[arg_ordinal(id)]
}

/// The host to connect to; only the modes that have one may ask for it.
pub fn destination(inv: &Invocation) -> (r: String)
    requires
        has_destination(inv@.0),
    ensures
        spec_value(inv@, ArgId::Destination) matches ArgValue::Single(s) && r@ == s@,
{
    proof {
        use_type_invariant(inv);
        reveal_with_fuel(Seq::contains, 1);
        let args = spec_mode_args(inv.mode);
        assert(args[args.len() - 1] == ArgId::Destination);
    }
    match &inv.values[arg_ordinal(ArgId::Destination)] {
        ArgValue::Single(s) => s.clone(),
        _ => String::new(),
    }
}

/// The address to listen on: the positional value, defaulted by the grammar where the mode
/// has one, and `0.0.0.0` where the mode has no such argument.
pub fn bind_address(inv: &Invocation) -> (r: String)
    ensures
        r@ == spec_bind_address(inv@),
        !has_bind_address(inv@.0) ==> r@ == "0.0.0.0"@,
{
    proof { use_type_invariant(inv); }
    match &inv.values[arg_ordinal(ArgId::BindAddress)] {
        ArgValue::Single(s) => s.clone(),
        _ => "0.0.0.0".to_owned(),
    }
}

/// Every metacommand given, in command-line order, repeats kept; empty when none was given.
pub fn batched_metacommands(inv: &Invocation) -> (r: Vec<String>)
    ensures
        r@.map_values(|s: String| s@) == spec_strings(spec_value(inv@, ArgId::Metacommand)),
        r@.len() == spec_strings(spec_value(inv@, ArgId::Metacommand)).len(),
        forall|i: int|
            0 <= i < r@.len() ==> (#[trigger] r@[i])@ == spec_strings(spec_value(inv@, ArgId::Metacommand))[i],
{
    proof { use_type_invariant(inv); }
    let mut r: Vec<String> = Vec::new();
    match &inv.values[arg_ordinal(ArgId::Metacommand)] {
        ArgValue::Many(vs) => {
            let mut k: usize = 0;
            while k < vs.len()
                invariant
                    k <= vs@.len(),
                    r@.len() == k,
                    forall|j: int| 0 <= j < k ==> (#[trigger] r@[j])@ == vs@[j]@,
                decreases vs@.len() - k,
            {
                r.push(vs[k].clone());
                k = k + 1;
            }
            assert(r@.map_values(|s: String| s@) =~= vs@.map_values(|s: String| s@));
        },
        ArgValue::Single(s) => {
            r.push(s.clone());
            assert(r@.map_values(|s: String| s@) =~= seq![s@]);
        },
        _ => {
            assert(r@.map_values(|s: String| s@) =~= seq![]);
        },
    }
    r
}

/// How often the verbosity flag was given.
pub fn verbosity(inv: &Invocation) -> (r: u64)
    ensures
        r == spec_count(spec_value(inv@, ArgId::Verbose)),
{
    proof { use_type_invariant(inv); }
    match &inv.values[arg_ordinal(ArgId::Verbose)] {
        ArgValue::Count(n) => *n,
        _ => 0,
    }
}

/// The handshake role of the active mode.
pub fn perspective(inv: &Invocation) -> (r: Perspective)
    ensures
        r == spec_perspective(inv@.0),
{
    crate::mode::perspective_of(inv.mode)
}

/// The value an argument holds, from what the parser reported for it: how often it was
/// given, its first value and all of its values.
pub open spec fn spec_value_from_read(
    id: ArgId,
    count: u64,
    one: Option<String>,
    many: Option<Vec<String>>,
) -> ArgValue {
    if spec_is_flag(id) {
        ArgValue::Count(count)
    } else if spec_is_multiple(id) {
        match many {
            Some(vs) => ArgValue::Many(vs),
            None => ArgValue::Absent,
        }
    } else {
        match one {
            Some(v) => ArgValue::Single(v),
            None => ArgValue::Absent,
        }
    }
}

/// The value of one argument from what the parser reported: the count of a flag, the values
/// of a repeatable argument, the value of any other.
pub fn value_from_read(id: ArgId, count: u64, one: Option<String>, many: Option<Vec<String>>) -> (r:
    ArgValue)
    ensures
        r == spec_value_from_read(id, count, one, many),
{
    let spec = arg_spec(id);
    if !spec.takes_value {
        ArgValue::Count(count)
    } else if spec.multiple {
        match many {
            Some(vs) => ArgValue::Many(vs),
            None => ArgValue::Absent,
        }
    } else {
        match one {
            Some(v) => ArgValue::Single(v),
            None => ArgValue::Absent,
        }
    }
}

/// Whether a value has the shape that its argument calls for.
pub fn fits(id: ArgId, v: &ArgValue) -> (r: bool)
    ensures
        r == value_fits(id, *v),
{
    let spec = arg_spec(id);
    match v {
        ArgValue::Absent => spec.takes_value && (spec.multiple || !spec.required),
        ArgValue::Single(_) => spec.takes_value && !spec.multiple,
        ArgValue::Many(_) => spec.takes_value && spec.multiple,
        ArgValue::Count(_) => !spec.takes_value,
    }
}

/// Whether a table of values, one per argument, fits a mode.
pub fn table_fits(m: Mode, values: &Vec<ArgValue>) -> (r: bool)
    requires
        values@.len() == ARG_COUNT,
    ensures
        r == values_fit(m, values@),
{
    let mut j: usize = 0;
    while j < ARG_COUNT
        invariant
            j <= ARG_COUNT,
            values@.len() == ARG_COUNT,
            forall|id: ArgId|
                #![trigger values@[spec_arg_ordinal(id) as int]]
                spec_arg_ordinal(id) < j ==> if spec_mode_args(m).contains(id) {
                    value_fits(id, values@[spec_arg_ordinal(id) as int])
                } else {
                    values@[spec_arg_ordinal(id) as int] is Absent
                },
        decreases ARG_COUNT - j,
    {
        let id = arg_at(j);
        let ok = if in_mode(m, id) {
            fits(id, &values[j])
        } else {
            matches!(values[j], ArgValue::Absent)
        };
        if !ok {
            return false;
        }
        proof {
            assert forall|x: ArgId|
                #![trigger values@[spec_arg_ordinal(x) as int]]
                spec_arg_ordinal(x) < j + 1 implies if spec_mode_args(m).contains(x) {
                    value_fits(x, values@[spec_arg_ordinal(x) as int])
                } else {
                    values@[spec_arg_ordinal(x) as int] is Absent
                } by {
                lemma_ordinal_injective(x, id);
            }
        }
        j = j + 1;
    }
    proof {
        assert forall|x: ArgId| #![trigger values@[spec_arg_ordinal(x) as int]] true by {
            lemma_ordinal_injective(x, x);
        }
    }
    true
}

/// The invocation of the mode named `name` with the values that the parser reported, one slot
/// per argument; `None` where no mode has that name or the values do not fit it (a required
/// argument missing, a value where the mode has no such argument).
pub fn invocation_from_reads(name: &String, reads: Vec<ArgValue>) -> (r: Option<Invocation>)
    requires
        reads@.len() == ARG_COUNT,
    ensures
        r is Some <==> exists|m: Mode| spec_mode_name(m) == name@ && values_fit(m, reads@),
        r matches Some(inv) ==> spec_mode_name(inv@.0) == name@ && inv@.1 == reads@,
{
    match mode_from_name(name) {
        Some(m) => {
            proof {
                assert forall|x: Mode| spec_mode_name(x) == name@ implies x == m by {
                    lemma_mode_names_distinct(x, m);
                }
            }
            if table_fits(m, &reads) {
                Some(Invocation::from_values(m, reads))
            } else {
                None
            }
        },
        None => None,
    }
}

} // verus!
