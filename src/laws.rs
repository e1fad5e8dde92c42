use vstd::prelude::*;
use crate::config::EffectType;
use crate::effects::{band_index, named_from, set_value, Effect, ParameterView};

verus! {

proof fn lemma_named_from_found(d: Seq<ParameterView>, name: Seq<char>, from: int)
    ensures
        named_from(d, name, from) matches Some(i) ==> 0 <= i < d.len() && d[i].0 == name,
    decreases d.len() - from,
{
    if 0 <= from < d.len() && d[from].0 != name {
        lemma_named_from_found(d, name, from + 1);
    }
}

proof fn lemma_named_from_absent(d: Seq<ParameterView>, name: Seq<char>, from: int)
    requires
        forall|i: int| 0 <= i < d.len() ==> d[i].0 != name,
    ensures
        named_from(d, name, from) is None,
    decreases d.len() - from,
{
    if 0 <= from < d.len() {
        lemma_named_from_absent(d, name, from + 1);
    }
}

proof fn lemma_named_from_same_names(
    d1: Seq<ParameterView>,
    d2: Seq<ParameterView>,
    name: Seq<char>,
    from: int,
)
    requires
        d1.len() == d2.len(),
        forall|i: int| 0 <= i < d1.len() ==> d1[i].0 == d2[i].0,
    ensures
        named_from(d1, name, from) == named_from(d2, name, from),
    decreases d1.len() - from,
{
    if 0 <= from < d1.len() {
        lemma_named_from_same_names(d1, d2, name, from + 1);
    }
}

/// Where a name addresses a parameter, it addresses one of the descriptors,
/// and which one depends on the descriptors' names and number alone.
proof fn lemma_parameter_index_shape(e1: Effect, e2: Effect, name: Seq<char>)
    requires
        e2.kind_of() == e1.kind_of(),
        e1@.len() == e2@.len(),
        forall|i: int| 0 <= i < e1@.len() ==> e1@[i].0 == e2@[i].0,
    ensures
        e1.parameter_index(name) == e2.parameter_index(name),
        e1.parameter_index(name) matches Some(i) ==> 0 <= i < e1@.len(),
{
    match e1 {
        Effect::Equalizer(_) => {},
        _ => {
            lemma_named_from_same_names(e1@, e2@, name, 0);
            lemma_named_from_found(e1@, name, 0);
        },
    }
}

/// Does `name` address a parameter of an effect of kind `kind`?
pub open spec fn names_parameter(kind: EffectType, name: Seq<char>) -> bool {
    match kind {
        EffectType::Eq => band_index(name) matches Some(n) && n < 10,
        EffectType::Compressor => name == "threshold"@ || name == "ratio"@ || name == "attack"@
            || name == "release"@ || name == "makeup"@,
        EffectType::Reverb => name == "room_size"@ || name == "damping"@ || name == "wet_level"@
            || name == "dry_level"@,
        EffectType::NoiseGate => name == "threshold"@ || name == "ratio"@ || name == "attack"@
            || name == "release"@,
    }
}

/// Setting a name that addresses none of an effect's parameters changes
/// none of them.
pub proof fn law_unknown_name_changes_nothing(e: Effect, name: Seq<char>, v: u32)
    requires
        e.shaped(),
        !names_parameter(e.kind_of(), name),
    ensures
        e.parameter_index(name) is None,
        set_value(e@, e.parameter_index(name), v) == e@,
{
    let d = e@;
    match e {
        Effect::Equalizer(_) => {},
        _ => {
            assert forall|i: int| 0 <= i < d.len() implies d[i].0 != name by {
                if i == 0 {
                } else if i == 1 {
                } else if i == 2 {
                } else if i == 3 {
                } else {
                }
            }
            lemma_named_from_absent(d, name, 0);
        },
    }
}

/// Setting a parameter to any value and then back to the value it had
/// gives back the effect's original descriptors.
pub proof fn law_setting_back_restores(
    e1: Effect,
    e2: Effect,
    e3: Effect,
    name: Seq<char>,
    v: u32,
    earlier: u32,
)
    requires
        e1.parameter_index(name) matches Some(i) ==> earlier == e1@[i].1,
        e2.kind_of() == e1.kind_of(),
        e2@ == set_value(e1@, e1.parameter_index(name), v),
        e3.kind_of() == e2.kind_of(),
        e3@ == set_value(e2@, e2.parameter_index(name), earlier),
    ensures
        e3@ == e1@,
{
    lemma_parameter_index_shape(e1, e1, name);
    lemma_parameter_index_shape(e1, e2, name);
    if let Some(i) = e1.parameter_index(name) {
        assert(e3@ =~= e1@);
    }
}

} // verus!
