//! What generation produces: the plan by which a value of the type is
//! measured, and the reasons why no plan can be made.

use crate::derive::input::{
    generic_views, name_views, GenericParam, GenericParamView, Member, MemberView,
};
use vstd::prelude::*;

verus! {

/// Why no implementation is generated.
#[derive(Clone, Copy, Debug, PartialEq, Eq, Structural)]
pub enum DeriveError {
    /// An annotation does not follow the configuration syntax.
    Malformed,
    /// An annotation holds a key that is not part of the configuration.
    UnknownKey,
    /// Two annotations on one field give the same key.
    DuplicateKey,
    /// A field is given more than one of `ignore`, `size` and `size_fn`.
    Conflict,
    /// An exemption names no generic parameter of the type.
    UnresolvedExemption,
    /// The type is a union whose fields share their storage.
    UnsupportedUnion,
}

/// The contribution of one field of a record.
#[derive(Debug)]
pub enum Step {
    /// A constant, whatever the field holds.
    Fixed(usize),
    /// What the named function returns for the field.
    Custom { function: String, member: Member },
    /// The heap size of the field.
    Measure(Member),
}

pub enum StepView {
    Fixed(usize),
    Custom { function: Seq<char>, member: MemberView },
    Measure(MemberView),
}

impl View for Step {
    type V = StepView;

    open spec fn view(&self) -> StepView {
        match self {
            Step::Fixed(bytes) => StepView::Fixed(*bytes),
            Step::Custom { function, member } => StepView::Custom {
                function: function@,
                member: member@,
            },
            Step::Measure(member) => StepView::Measure(member@),
        }
    }
}

/// The views of a list of steps.
pub open spec fn step_views(steps: Seq<Step>) -> Seq<StepView> {
    steps.map_values(|s: Step| s@)
}

/// The names that the fields of a variant are bound to.
#[derive(Debug)]
pub enum Bindings {
    /// The variant has no fields.
    Unit,
    /// One name for each positional field, in order.
    Unnamed(Vec<String>),
    /// The names of the fields, in order.
    Named(Vec<String>),
}

pub enum BindingsView {
    Unit,
    Unnamed(Seq<Seq<char>>),
    Named(Seq<Seq<char>>),
}

impl BindingsView {
    /// The number of fields that are bound.
    pub open spec fn len(self) -> nat {
        match self {
            BindingsView::Unit => 0,
            BindingsView::Unnamed(names) => names.len(),
            BindingsView::Named(names) => names.len(),
        }
    }

    /// How the field at `position` is addressed.
    pub open spec fn member(self, position: usize) -> MemberView {
        match self {
            BindingsView::Named(names) => MemberView::Named(names[position as int]),
            _ => MemberView::Unnamed(position),
        }
    }
}

impl View for Bindings {
    type V = BindingsView;

    open spec fn view(&self) -> BindingsView {
        match self {
            Bindings::Unit => BindingsView::Unit,
            Bindings::Unnamed(names) => BindingsView::Unnamed(name_views(names@)),
            Bindings::Named(names) => BindingsView::Named(name_views(names@)),
        }
    }
}

/// The measurement of one variant: the heap sizes of all its fields.
#[derive(Debug)]
pub struct Arm {
    pub variant: String,
    pub bindings: Bindings,
}

pub struct ArmView {
    pub variant: Seq<char>,
    pub bindings: BindingsView,
}

impl View for Arm {
    type V = ArmView;

    open spec fn view(&self) -> ArmView {
        ArmView { variant: self.variant@, bindings: self.bindings@ }
    }
}

/// The views of a list of arms.
pub open spec fn arm_views(arms: Seq<Arm>) -> Seq<ArmView> {
    arms.map_values(|a: Arm| a@)
}

/// How the heap size of a value is computed.
#[derive(Debug)]
pub enum Body {
    /// The heap size is always 0.
    Trivial,
    /// The sum of the steps, one after the other.
    Record(Vec<Step>),
    /// The arm of the variant that the value is in.
    Choice(Vec<Arm>),
}

pub enum BodyView {
    Trivial,
    Record(Seq<StepView>),
    Choice(Seq<ArmView>),
}

impl View for Body {
    type V = BodyView;

    open spec fn view(&self) -> BodyView {
        match self {
            Body::Trivial => BodyView::Trivial,
            Body::Record(steps) => BodyView::Record(step_views(steps@)),
            Body::Choice(arms) => BodyView::Choice(arm_views(arms@)),
        }
    }
}

/// A generated implementation of the size protocol for one type.
#[derive(Debug)]
pub struct Implementation {
    /// The name of the type.
    pub name: String,
    /// The generic parameters of the implementation, with the bounds that the
    /// measurement needs.
    pub generics: Vec<GenericParam>,
    pub body: Body,
}

pub struct ImplementationView {
    pub name: Seq<char>,
    pub generics: Seq<GenericParamView>,
    pub body: BodyView,
}

impl View for Implementation {
    type V = ImplementationView;

    open spec fn view(&self) -> ImplementationView {
        ImplementationView {
            name: self.name@,
            generics: generic_views(self.generics@),
            body: self.body@,
        }
    }
}

} // verus!
