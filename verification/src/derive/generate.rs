//! Generation: from the description of a type to the plan by which its values
//! are measured.

use crate::derive::config::{
    exemptions_in, extract_ignored_generics_list, field_rule, followed_by, lift, parse_field_rule,
    Rule, RuleView,
};
use crate::derive::input::{
    generic_views, name_views, Data, DataView, DeriveInput, DeriveInputView, Fields, FieldsView,
    GenericParam, GenericParamView, Member, MemberView, NamedField, NamedFieldView, Variant,
    VariantView,
};
use crate::derive::plan::{
    arm_views, step_views, Arm, ArmView, Bindings, BindingsView, Body, BodyView, DeriveError,
    Implementation, ImplementationView, Step, StepView,
};
use crate::derive::text::{append_decimal, decimal_text, same_text};
use vstd::prelude::*;
use vstd::string::StringExecFns;

verus! {

/// The name of a generic parameter that an exemption can refer to: that of a
/// type parameter or of a constant parameter.
pub open spec fn exemptible(param: GenericParamView) -> Option<Seq<char>> {
    match param {
        GenericParamView::Type { name, bounds } => Some(name),
        GenericParamView::Const(name) => Some(name),
        GenericParamView::Lifetime(_) => None,
    }
}

/// Whether `name` is the name of a generic parameter.
pub open spec fn resolves(generics: Seq<GenericParamView>, name: Seq<char>) -> bool {
    exists|i: int| 0 <= i < generics.len() && #[trigger] exemptible(generics[i]) == Some(name)
}

/// Whether every name is the name of a generic parameter.
pub open spec fn all_resolve(generics: Seq<GenericParamView>, names: Seq<Seq<char>>) -> bool {
    forall|j: int| 0 <= j < names.len() ==> resolves(generics, #[trigger] names[j])
}

/// The parameter with the bound that the measurement needs: a type parameter
/// that is not exempted must implement the size protocol. The bounds that are
/// written on the parameter stay.
pub open spec fn bound(param: GenericParamView, ignored: Seq<Seq<char>>) -> GenericParamView {
    match param {
        GenericParamView::Type { name, bounds } => if ignored.contains(name) {
            param
        } else {
            GenericParamView::Type { name, bounds: bounds.push("GetSize"@) }
        },
        _ => param,
    }
}

/// The generic parameters with the bounds that the measurement needs.
pub open spec fn bounded(generics: Seq<GenericParamView>, ignored: Seq<Seq<char>>) -> Seq<
    GenericParamView,
> {
    generics.map_values(|param: GenericParamView| bound(param, ignored))
}

/// The name that the positional field at `position` is bound to.
pub open spec fn binding_name(position: nat) -> Seq<char> {
    seq!['v'] + decimal_text(position)
}

/// The names that the fields of a variant are bound to.
pub open spec fn bindings_for(fields: FieldsView) -> BindingsView {
    match fields {
        FieldsView::Unit => BindingsView::Unit,
        FieldsView::Unnamed(fields) => BindingsView::Unnamed(
            Seq::new(fields.len(), |i: int| binding_name(i as nat)),
        ),
        FieldsView::Named(fields) => BindingsView::Named(
            fields.map_values(|f: NamedFieldView| f.name),
        ),
    }
}

/// The arm that measures a variant: it sums the heap sizes of all fields.
pub open spec fn arm_for(variant: VariantView) -> ArmView {
    ArmView { variant: variant.name, bindings: bindings_for(variant.fields) }
}

/// The steps that a field with the rule `rule` adds to the measurement of its
/// record.
pub open spec fn steps_for(rule: RuleView, member: MemberView) -> Seq<StepView> {
    match rule {
        RuleView::Ignore => Seq::empty(),
        RuleView::Fixed(bytes) => seq![StepView::Fixed(bytes)],
        RuleView::Custom(function) => seq![StepView::Custom { function, member }],
        RuleView::Measure => seq![StepView::Measure(member)],
    }
}

/// The steps of the fields from `at` on.
pub open spec fn steps_from(fields: FieldsView, at: int) -> Result<Seq<StepView>, DeriveError>
    decreases fields.len() - at,
{
    if at < 0 || at >= fields.len() {
        Ok(Seq::empty())
    } else {
        match field_rule(fields.attributes(at)) {
            Err(error) => Err(error),
            Ok(rule) => followed_by(
                steps_for(rule, fields.member(at as usize)),
                steps_from(fields, at + 1),
            ),
        }
    }
}

/// In a record without annotations every field is measured, in the order of
/// the fields: the steps from `at` on are one `Measure` step for each field.
pub proof fn lemma_unannotated_fields_are_measured(fields: FieldsView, at: int)
    requires
        0 <= at <= fields.len(),
        forall|i: int| 0 <= i < fields.len() ==> (#[trigger] fields.attributes(i)).len() == 0,
    ensures
        steps_from(fields, at) == Ok::<Seq<StepView>, DeriveError>(
            Seq::new(
                (fields.len() - at) as nat,
                |k: int| StepView::Measure(fields.member((at + k) as usize)),
            ),
        ),
    decreases fields.len() - at,
{
    let rest = |k: int| StepView::Measure(fields.member((at + k) as usize));
    if at < fields.len() {
        lemma_unannotated_fields_are_measured(fields, at + 1);
        assert(fields.attributes(at).len() == 0);
        assert(field_rule(fields.attributes(at)) == Ok::<RuleView, DeriveError>(RuleView::Measure));
        let after = Seq::new(
            (fields.len() - (at + 1)) as nat,
            |k: int| StepView::Measure(fields.member((at + 1 + k) as usize)),
        );
        assert(seq![StepView::Measure(fields.member(at as usize))] + after =~= Seq::new(
            (fields.len() - at) as nat,
            rest,
        ));
    } else {
        assert(Seq::<StepView>::empty() =~= Seq::new((fields.len() - at) as nat, rest));
    }
}

/// The implementation for a type whose values never own anything on the heap.
pub open spec fn trivial(name: Seq<char>) -> ImplementationView {
    ImplementationView { name, generics: Seq::empty(), body: BodyView::Trivial }
}

/// The implementation that is generated for a type.
///
/// The annotations on the type are read first, then the shape is looked at,
/// then the annotations on the fields are read in the order of the fields:
/// the first error that is met is the one that is given.
pub open spec fn derived(input: DeriveInputView) -> Result<ImplementationView, DeriveError> {
    match exemptions_in(input.attributes, 0) {
        Err(error) => Err(error),
        Ok(ignored) => if !all_resolve(input.generics, ignored) {
            Err(DeriveError::UnresolvedExemption)
        } else {
            match input.data {
                DataView::Union => Err(DeriveError::UnsupportedUnion),
                DataView::Enum(variants) => if variants.len() == 0 {
                    Ok(trivial(input.name))
                } else {
                    Ok(
                        ImplementationView {
                            name: input.name,
                            generics: bounded(input.generics, ignored),
                            body: BodyView::Choice(
                                variants.map_values(|v: VariantView| arm_for(v)),
                            ),
                        },
                    )
                },
                DataView::Struct(fields) => if fields.len() == 0 {
                    Ok(trivial(input.name))
                } else {
                    match steps_from(fields, 0) {
                        Err(error) => Err(error),
                        Ok(steps) => Ok(
                            ImplementationView {
                                name: input.name,
                                generics: bounded(input.generics, ignored),
                                body: BodyView::Record(steps),
                            },
                        ),
                    }
                },
            }
        },
    }
}

/// A copy of a list of names.
fn copy_names(names: &Vec<String>) -> (copy: Vec<String>)
    ensures
        name_views(copy@) == name_views(names@),
{
    let mut copy: Vec<String> = Vec::new();
    for at in 0..names.len()
        invariant
            copy@.len() == at,
            forall|i: int| 0 <= i < at ==> copy@[i]@ == names@[i]@,
    {
        copy.push(names[at].clone());
    }
    assert(name_views(copy@) =~= name_views(names@));
    copy
}

/// Whether `name` is one of `names`.
fn is_listed(names: &Vec<String>, name: &str) -> (listed: bool)
    ensures
        listed == name_views(names@).contains(name@),
{
    for at in 0..names.len()
        invariant
            forall|i: int| 0 <= i < at ==> names@[i]@ != name@,
    {
        if same_text(names[at].as_str(), name) {
            assert(name_views(names@)[at as int] == name@);
            return true;
        }
    }
    false
}

/// Add the bound `GetSize` to every type parameter, unless it is ignored.
pub fn add_trait_bounds(generics: &Vec<GenericParam>, ignored: &Vec<String>) -> (bounded_generics:
    Vec<GenericParam>)
    ensures
        generic_views(bounded_generics@) == bounded(generic_views(generics@), name_views(ignored@)),
{
    let mut out: Vec<GenericParam> = Vec::new();
    for at in 0..generics.len()
        invariant
            out@.len() == at,
            forall|i: int|
                0 <= i < at ==> (#[trigger] out@[i])@ == bound(generics@[i]@, name_views(ignored@)),
    {
        let param = match &generics[at] {
            GenericParam::Lifetime(name) => GenericParam::Lifetime(name.clone()),
            GenericParam::Const(name) => GenericParam::Const(name.clone()),
            GenericParam::Type { name, bounds } => {
                let mut bounds = copy_names(bounds);
                if !is_listed(ignored, name.as_str()) {
                    let ghost written = name_views(bounds@);
                    bounds.push(String::from_str("GetSize"));
                    assert(name_views(bounds@) =~= written.push("GetSize"@));
                }
                GenericParam::Type { name: name.clone(), bounds }
            },
        };
        out.push(param);
    }
    assert(generic_views(out@) =~= bounded(generic_views(generics@), name_views(ignored@)));
    out
}

/// Whether `name` is the name of a generic parameter.
fn is_parameter(generics: &Vec<GenericParam>, name: &str) -> (found: bool)
    ensures
        found == resolves(generic_views(generics@), name@),
{
    for at in 0..generics.len()
        invariant
            forall|i: int| 0 <= i < at ==> exemptible(#[trigger] generics@[i]@) != Some(name@),
    {
        let same = match &generics[at] {
            GenericParam::Type { name: declared, bounds } => same_text(declared.as_str(), name),
            GenericParam::Const(declared) => same_text(declared.as_str(), name),
            GenericParam::Lifetime(_) => false,
        };
        if same {
            assert(exemptible(generic_views(generics@)[at as int]) == Some(name@));
            return true;
        }
    }
    assert forall|i: int| 0 <= i < generics@.len() implies #[trigger] exemptible(
        generic_views(generics@)[i],
    ) != Some(name@) by {
        assert(exemptible(generics@[i]@) != Some(name@));
    }
    false
}

/// Whether every exemption names a generic parameter.
fn exemptions_resolve(generics: &Vec<GenericParam>, ignored: &Vec<String>) -> (all: bool)
    ensures
        all == all_resolve(generic_views(generics@), name_views(ignored@)),
{
    for at in 0..ignored.len()
        invariant
            forall|j: int|
                0 <= j < at ==> resolves(generic_views(generics@), #[trigger] name_views(ignored@)[j]),
    {
        if !is_parameter(generics, ignored[at].as_str()) {
            assert(!resolves(generic_views(generics@), name_views(ignored@)[at as int]));
            return false;
        }
    }
    true
}

/// The name that the positional field at `position` is bound to.
pub fn positional_binding(position: usize) -> (name: String)
    ensures
        name@ == binding_name(position as nat),
{
    proof {
        reveal_strlit("v");
    }
    let mut name = String::from_str("v");
    assert(name@ =~= seq!['v']);
    append_decimal(&mut name, position);
    name
}

/// The names that the fields of a variant are bound to.
fn bind_fields(fields: &Fields) -> (bindings: Bindings)
    ensures
        bindings@ == bindings_for(fields@),
{
    match fields {
        Fields::Unit => Bindings::Unit,
        Fields::Unnamed(unnamed) => {
            let mut names: Vec<String> = Vec::new();
            for position in 0..unnamed.len()
                invariant
                    names@.len() == position,
                    forall|i: int| 0 <= i < position ==> (#[trigger] names@[i])@ == binding_name(i as nat),
            {
                names.push(positional_binding(position));
            }
            assert(name_views(names@) =~= Seq::new(
                fields@->Unnamed_0.len(),
                |i: int| binding_name(i as nat),
            ));
            Bindings::Unnamed(names)
        },
        Fields::Named(named) => {
            let mut names: Vec<String> = Vec::new();
            for position in 0..named.len()
                invariant
                    names@.len() == position,
                    forall|i: int| 0 <= i < position ==> (#[trigger] names@[i])@ == named@[i].name@,
            {
                names.push(named[position].name.clone());
            }
            assert(name_views(names@) =~= fields@->Named_0.map_values(|f: NamedFieldView| f.name));
            Bindings::Named(names)
        },
    }
}

/// The arms that measure the variants of a discriminated union.
fn derive_arms(variants: &Vec<Variant>) -> (arms: Vec<Arm>)
    ensures
        arm_views(arms@) == variants@.map_values(|v: Variant| v@).map_values(
            |v: VariantView| arm_for(v),
        ),
{
    let mut arms: Vec<Arm> = Vec::new();
    for at in 0..variants.len()
        invariant
            arms@.len() == at,
            forall|i: int| 0 <= i < at ==> (#[trigger] arms@[i])@ == arm_for(variants@[i]@),
    {
        let variant = &variants[at];
        arms.push(Arm { variant: variant.name.clone(), bindings: bind_fields(&variant.fields) });
    }
    assert(arm_views(arms@) =~= variants@.map_values(|v: Variant| v@).map_values(
        |v: VariantView| arm_for(v),
    ));
    arms
}

/// The steps that measure the fields of a record.
fn derive_steps(fields: &Fields) -> (result: Result<Vec<Step>, DeriveError>)
    ensures
        match result {
            Ok(steps) => steps_from(fields@, 0) == Ok::<Seq<StepView>, DeriveError>(step_views(steps@)),
            Err(error) => steps_from(fields@, 0) == Err::<Seq<StepView>, DeriveError>(error),
        },
{
    let mut cmds: Vec<Step> = Vec::new();
    let count = fields.len();
    proof {
        assert(step_views(cmds@) =~= Seq::empty());
        assert(match steps_from(fields@, 0) {
            Err(error) => true,
            Ok(steps) => Seq::<StepView>::empty() + steps =~= steps,
        });
    }
    for at in 0..count
        invariant
            count == fields@.len(),
            steps_from(fields@, 0) == followed_by(step_views(cmds@), steps_from(fields@, at as int)),
    {
        // Parse all relevant attributes.
        let rule = parse_field_rule(fields.attributes(at))?;
        let ghost sofar = step_views(cmds@);
        let ghost added = steps_for(rule@, fields@.member(at));
        match rule {
            Rule::Ignore => {},
            Rule::Fixed(bytes) => {
                cmds.push(Step::Fixed(bytes));
            },
            Rule::Custom(function) => {
                cmds.push(Step::Custom { function, member: fields.member(at) });
            },
            Rule::Measure => {
                cmds.push(Step::Measure(fields.member(at)));
            },
        }
        proof {
            assert(step_views(cmds@) =~= sofar + added);
            assert forall|more: Seq<StepView>|
                sofar + (added + more) == step_views(cmds@) + more by {
                assert(sofar + (added + more) =~= step_views(cmds@) + more);
            }
        }
    }
    proof {
        assert(step_views(cmds@) + Seq::<StepView>::empty() =~= step_views(cmds@));
    }
    Ok(cmds)
}

/// Generates the implementation of the size protocol for a type.
pub fn derive_get_size(input: &DeriveInput) -> (result: Result<Implementation, DeriveError>)
    ensures
        lift(result) == derived(input@),
{
    // Extract all generics we shall ignore.
    let ignored = extract_ignored_generics_list(&input.attributes)?;
    if !exemptions_resolve(&input.generics, &ignored) {
        return Err(DeriveError::UnresolvedExemption);
    }
    match &input.data {
        Data::Union => Err(DeriveError::UnsupportedUnion),
        Data::Enum(variants) => {
            if variants.len() == 0 {
                // Empty enums are easy to implement.
                let generics: Vec<GenericParam> = Vec::new();
                assert(generic_views(generics@) =~= Seq::empty());
                return Ok(Implementation { name: input.name.clone(), generics, body: Body::Trivial });
            }
            Ok(
                Implementation {
                    name: input.name.clone(),
                    generics: add_trait_bounds(&input.generics, &ignored),
                    body: Body::Choice(derive_arms(variants)),
                },
            )
        },
        Data::Struct(fields) => {
            if fields.len() == 0 {
                // Empty structs are easy to implement.
                let generics: Vec<GenericParam> = Vec::new();
                assert(generic_views(generics@) =~= Seq::empty());
                return Ok(Implementation { name: input.name.clone(), generics, body: Body::Trivial });
            }
            let steps = derive_steps(fields)?;
            Ok(
                Implementation {
                    name: input.name.clone(),
                    generics: add_trait_bounds(&input.generics, &ignored),
                    body: Body::Record(steps),
                },
            )
        },
    }
}

} // verus!
