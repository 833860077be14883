//! Measuring a value by the plan that was generated for its type.

use crate::derive::input::{Member, MemberView};
use crate::derive::plan::{
    arm_views, step_views, Arm, ArmView, Bindings, BindingsView, Body, BodyView, Implementation,
    Step, StepView,
};
use crate::derive::text::same_text;
use crate::size::{chain, lemma_chain_extend, saturate, GetSize};
use crate::tracker::{GetSizeTracker, StandardTracker, Visited};
use vstd::prelude::*;

verus! {

/// A value whose fields can be measured one at a time.
pub trait Inspect {
    /// The name of the variant that the value is in. A record is in no
    /// variant: its name is empty.
    open spec fn variant_name(&self) -> Seq<char> {
        Seq::empty()
    }

    /// The heap sizes that measuring the field `member` can yield. Nothing is
    /// known of a field that is given no rule.
    open spec fn field_outcome(
        &self,
        member: MemberView,
        before: Visited,
        bytes: nat,
        after: Visited,
    ) -> bool {
        true
    }

    /// The sizes that the function `function` can return for the field
    /// `member`.
    open spec fn custom_outcome(&self, function: Seq<char>, member: MemberView, bytes: usize) -> bool {
        true
    }

    /// The name of the variant that the value is in.
    fn variant(&self) -> (name: &'static str)
        ensures
            name@ == self.variant_name(),
    ;

    /// Determines how many bytes the field `member` occupies inside the heap.
    fn field_heap_size<Tr: GetSizeTracker>(&self, member: &Member, tracker: &mut Tr) -> (n: usize)
        ensures
            old(tracker).visited().within(final(tracker).visited()),
            exists|bytes: nat| #[trigger]
                self.field_outcome(
                    member@,
                    old(tracker).visited(),
                    bytes,
                    final(tracker).visited(),
                ) && n == saturate(bytes),
    ;

    /// Calls the function named `function` on the field `member`.
    fn field_custom_size(&self, function: &str, member: &Member) -> (n: usize)
        ensures
            self.custom_outcome(function@, member@, n),
    ;
}

/// What one step of a record's plan can contribute.
pub open spec fn step_outcome<V: Inspect>(
    value: &V,
    step: StepView,
    before: Visited,
    bytes: nat,
    after: Visited,
) -> bool {
    match step {
        StepView::Fixed(size) => bytes == size && after == before,
        StepView::Custom { function, member } => bytes <= usize::MAX && value.custom_outcome(
            function,
            member,
            bytes as usize,
        ) && after == before,
        StepView::Measure(member) => value.field_outcome(member, before, bytes, after)
            && before.within(after),
    }
}

/// The heap size of a record: the sum of its steps, taken in order with one
/// tracker.
pub open spec fn record_outcome<V: Inspect>(
    value: &V,
    steps: Seq<StepView>,
    before: Visited,
    bytes: nat,
    after: Visited,
) -> bool {
    chain(
        steps.len(),
        |i: int, b: Visited, n: nat, a: Visited| step_outcome(value, steps[i], b, n, a),
        before,
        bytes,
        after,
    )
}

/// The heap size of a variant: the sum of the heap sizes of all its fields,
/// taken in order with one tracker.
pub open spec fn arm_outcome<V: Inspect>(
    value: &V,
    bindings: BindingsView,
    before: Visited,
    bytes: nat,
    after: Visited,
) -> bool {
    chain(
        bindings.len(),
        |i: int, b: Visited, n: nat, a: Visited|
            value.field_outcome(bindings.member(i as usize), b, n, a) && b.within(a),
        before,
        bytes,
        after,
    )
}

/// `position` is the first arm for the variant `name`.
pub open spec fn selects(arms: Seq<ArmView>, name: Seq<char>, position: int) -> bool {
    &&& 0 <= position < arms.len()
    &&& arms[position].variant == name
    &&& forall|i: int| 0 <= i < position ==> (#[trigger] arms[i]).variant != name
}

/// The heap size of a value of a discriminated union: that of the first arm
/// for the value's variant. A value that no arm is for owns nothing.
pub open spec fn choice_outcome<V: Inspect>(
    value: &V,
    arms: Seq<ArmView>,
    before: Visited,
    bytes: nat,
    after: Visited,
) -> bool {
    &&& forall|position: int| #[trigger]
        selects(arms, value.variant_name(), position) ==> arm_outcome(
            value,
            arms[position].bindings,
            before,
            bytes,
            after,
        )
    &&& (forall|position: int| !#[trigger] selects(arms, value.variant_name(), position)) ==> bytes
        == 0 && after == before
}

/// The heap size that a plan finds for a value.
pub open spec fn plan_outcome<V: Inspect>(
    value: &V,
    body: BodyView,
    before: Visited,
    bytes: nat,
    after: Visited,
) -> bool {
    match body {
        BodyView::Trivial => bytes == 0 && after == before,
        BodyView::Record(steps) => record_outcome(value, steps, before, bytes, after),
        BodyView::Choice(arms) => choice_outcome(value, arms, before, bytes, after),
    }
}

/// Sums the steps of a record's plan.
fn measure_record<V: Inspect, Tr: GetSizeTracker>(
    steps: &Vec<Step>,
    value: &V,
    tracker: &mut Tr,
) -> (n: usize)
    ensures
        old(tracker).visited().within(final(tracker).visited()),
        exists|bytes: nat| #[trigger]
            record_outcome(
                value,
                step_views(steps@),
                old(tracker).visited(),
                bytes,
                final(tracker).visited(),
            ) && n == saturate(bytes),
{
    let mut total: usize = 0;
    let ghost start = tracker.visited();
    let ghost mut sum: nat = 0;
    let ghost views = step_views(steps@);
    let ghost part = |i: int, b: Visited, n: nat, a: Visited| step_outcome(value, views[i], b, n, a);
    for at in 0..steps.len()
        invariant
            views == step_views(steps@),
            part == |i: int, b: Visited, n: nat, a: Visited| step_outcome(value, views[i], b, n, a),
            start.within(tracker.visited()),
            chain(at as nat, part, start, sum, tracker.visited()),
            total == saturate(sum),
    {
        let ghost mid = tracker.visited();
        let ghost mut found: nat = 0;
        let size = match &steps[at] {
            Step::Fixed(size) => {
                proof {
                    found = *size as nat;
                }
                *size
            },
            Step::Custom { function, member } => {
                let size = value.field_custom_size(function.as_str(), member);
                proof {
                    found = size as nat;
                }
                size
            },
            Step::Measure(member) => {
                let size = value.field_heap_size(member, tracker);
                proof {
                    found = choose|bytes: nat| #[trigger]
                        value.field_outcome(member@, mid, bytes, tracker.visited()) && size
                            == saturate(bytes);
                }
                size
            },
        };
        proof {
            assert(part(at as int, mid, found, tracker.visited()));
            lemma_chain_extend(at as nat, part, start, sum, mid, found, tracker.visited());
            sum = sum + found;
        }
        total = total.saturating_add(size);
    }
    proof {
        assert(record_outcome(value, views, start, sum, tracker.visited()));
    }
    total
}

/// Sums the heap sizes of the fields that an arm binds.
fn measure_arm<V: Inspect, Tr: GetSizeTracker>(
    bindings: &Bindings,
    value: &V,
    tracker: &mut Tr,
) -> (n: usize)
    ensures
        old(tracker).visited().within(final(tracker).visited()),
        exists|bytes: nat| #[trigger]
            arm_outcome(value, bindings@, old(tracker).visited(), bytes, final(tracker).visited())
                && n == saturate(bytes),
{
    let mut total: usize = 0;
    let ghost start = tracker.visited();
    let ghost mut sum: nat = 0;
    let ghost view = bindings@;
    let ghost part = |i: int, b: Visited, n: nat, a: Visited|
        value.field_outcome(view.member(i as usize), b, n, a) && b.within(a);
    let count = match bindings {
        Bindings::Unit => 0,
        Bindings::Unnamed(names) => names.len(),
        Bindings::Named(names) => names.len(),
    };
    for at in 0..count
        invariant
            view == bindings@,
            count == view.len(),
            part == |i: int, b: Visited, n: nat, a: Visited|
                value.field_outcome(view.member(i as usize), b, n, a) && b.within(a),
            start.within(tracker.visited()),
            chain(at as nat, part, start, sum, tracker.visited()),
            total == saturate(sum),
    {
        let ghost mid = tracker.visited();
        let member = match bindings {
            Bindings::Named(names) => Member::Named(names[at].clone()),
            _ => Member::Unnamed(at),
        };
        assert(member@ == view.member(at));
        let size = value.field_heap_size(&member, tracker);
        proof {
            let found = choose|bytes: nat| #[trigger]
                value.field_outcome(member@, mid, bytes, tracker.visited()) && size == saturate(
                    bytes,
                );
            assert(part(at as int, mid, found, tracker.visited()));
            lemma_chain_extend(at as nat, part, start, sum, mid, found, tracker.visited());
            sum = sum + found;
        }
        total = total.saturating_add(size);
    }
    proof {
        assert(arm_outcome(value, view, start, sum, tracker.visited()));
    }
    total
}

/// Measures the value by the first arm for its variant.
fn measure_choice<V: Inspect, Tr: GetSizeTracker>(
    arms: &Vec<Arm>,
    value: &V,
    tracker: &mut Tr,
) -> (n: usize)
    ensures
        old(tracker).visited().within(final(tracker).visited()),
        exists|bytes: nat| #[trigger]
            choice_outcome(
                value,
                arm_views(arms@),
                old(tracker).visited(),
                bytes,
                final(tracker).visited(),
            ) && n == saturate(bytes),
{
    let name = value.variant();
    let ghost views = arm_views(arms@);
    for at in 0..arms.len()
        invariant
            views == arm_views(arms@),
            name@ == value.variant_name(),
            forall|i: int| 0 <= i < at ==> (#[trigger] views[i]).variant != name@,
            tracker.visited() == old(tracker).visited(),
    {
        if same_text(arms[at].variant.as_str(), name) {
            let ghost before = tracker.visited();
            let size = measure_arm(&arms[at].bindings, value, tracker);
            proof {
                let bytes = choose|bytes: nat| #[trigger]
                    arm_outcome(value, arms@[at as int].bindings@, before, bytes, tracker.visited())
                        && size == saturate(bytes);
                assert(selects(views, name@, at as int));
                assert forall|position: int| #[trigger]
                    selects(views, value.variant_name(), position) implies position == at by {
                    if position < at {
                        assert(views[position].variant != name@);
                    } else if position > at {
                        assert(views[at as int].variant == name@);
                    }
                }
                assert(choice_outcome(value, views, before, bytes, tracker.visited()));
            }
            return size;
        }
    }
    proof {
        assert(choice_outcome(value, views, tracker.visited(), 0, tracker.visited()));
    }
    0
}

impl Implementation {
    /// Determines how many bytes `value` occupies inside the heap, as the
    /// plan says. The measurement shares `tracker` with whatever encloses it.
    pub fn get_heap_size<V: Inspect, Tr: GetSizeTracker>(&self, value: &V, tracker: &mut Tr) -> (n:
        usize)
        ensures
            old(tracker).visited().within(final(tracker).visited()),
            exists|bytes: nat| #[trigger]
                plan_outcome(
                    value,
                    self@.body,
                    old(tracker).visited(),
                    bytes,
                    final(tracker).visited(),
                ) && n == saturate(bytes),
    {
        match &self.body {
            Body::Trivial => {
                proof {
                    assert(plan_outcome(value, self@.body, tracker.visited(), 0, tracker.visited()));
                }
                0
            },
            Body::Record(steps) => {
                let ghost before = tracker.visited();
                let size = measure_record(steps, value, tracker);
                proof {
                    let bytes = choose|bytes: nat| #[trigger]
                        record_outcome(value, step_views(steps@), before, bytes, tracker.visited())
                            && size == saturate(bytes);
                    assert(plan_outcome(value, self@.body, before, bytes, tracker.visited()));
                }
                size
            },
            Body::Choice(arms) => {
                let ghost before = tracker.visited();
                let size = measure_choice(arms, value, tracker);
                proof {
                    let bytes = choose|bytes: nat| #[trigger]
                        choice_outcome(value, arm_views(arms@), before, bytes, tracker.visited())
                            && size == saturate(bytes);
                    assert(plan_outcome(value, self@.body, before, bytes, tracker.visited()));
                }
                size
            },
        }
    }

    /// Determines how many bytes `value` occupies inside the heap, in a
    /// measurement of its own: it starts with a tracker that has seen
    /// nothing.
    pub fn heap_size<V: Inspect>(&self, value: &V) -> (n: usize)
        ensures
            exists|bytes: nat, after: Visited| #[trigger]
                plan_outcome(value, self@.body, Visited::fresh(), bytes, after) && n == saturate(
                    bytes,
                ),
    {
        let mut tracker = StandardTracker::new();
        let size = self.get_heap_size(value, &mut tracker);
        proof {
            let bytes = choose|bytes: nat| #[trigger]
                plan_outcome(value, self@.body, Visited::fresh(), bytes, tracker.visited()) && size
                    == saturate(bytes);
            assert(plan_outcome(value, self@.body, Visited::fresh(), bytes, tracker.visited()));
        }
        size
    }
}

/// An optional value is a discriminated union of the variants `None` and
/// `Some`, which holds the value as its only field.
impl<T: GetSize> Inspect for Option<T> {
    open spec fn variant_name(&self) -> Seq<char> {
        match self {
            Some(_) => "Some"@,
            None => "None"@,
        }
    }

    open spec fn field_outcome(
        &self,
        member: MemberView,
        before: Visited,
        bytes: nat,
        after: Visited,
    ) -> bool {
        match (self, member) {
            (Some(value), MemberView::Unnamed(0)) => value.heap_outcome(before, bytes, after),
            _ => bytes == 0 && after == before,
        }
    }

    open spec fn custom_outcome(&self, function: Seq<char>, member: MemberView, bytes: usize) -> bool {
        bytes == 0
    }

    fn variant(&self) -> (name: &'static str) {
        match self {
            Some(_) => "Some",
            None => "None",
        }
    }

    fn field_heap_size<Tr: GetSizeTracker>(&self, member: &Member, tracker: &mut Tr) -> (n: usize) {
        let ghost before = tracker.visited();
        match (self, member) {
            (Some(value), Member::Unnamed(0)) => {
                let size = value.get_heap_size(tracker);
                proof {
                    let bytes = choose|bytes: nat| #[trigger]
                        value.heap_outcome(before, bytes, tracker.visited()) && size == saturate(
                            bytes,
                        );
                    assert(self.field_outcome(member@, before, bytes, tracker.visited()));
                }
                size
            },
            _ => {
                assert(self.field_outcome(member@, before, 0, tracker.visited()));
                0
            },
        }
    }

    fn field_custom_size(&self, function: &str, member: &Member) -> (n: usize) {
        0
    }
}

/// A pair is a record of two positional fields.
impl<A: GetSize, B: GetSize> Inspect for (A, B) {
    open spec fn field_outcome(
        &self,
        member: MemberView,
        before: Visited,
        bytes: nat,
        after: Visited,
    ) -> bool {
        match member {
            MemberView::Unnamed(0) => self.0.heap_outcome(before, bytes, after),
            MemberView::Unnamed(1) => self.1.heap_outcome(before, bytes, after),
            _ => bytes == 0 && after == before,
        }
    }

    open spec fn custom_outcome(&self, function: Seq<char>, member: MemberView, bytes: usize) -> bool {
        bytes == 0
    }

    fn variant(&self) -> (name: &'static str) {
        proof {
            reveal_strlit("");
        }
        let name = "";
        assert(name@ =~= Seq::<char>::empty());
        name
    }

    fn field_heap_size<Tr: GetSizeTracker>(&self, member: &Member, tracker: &mut Tr) -> (n: usize) {
        let ghost before = tracker.visited();
        match member {
            Member::Unnamed(0) => {
                let size = self.0.get_heap_size(tracker);
                proof {
                    let bytes = choose|bytes: nat| #[trigger]
                        self.0.heap_outcome(before, bytes, tracker.visited()) && size == saturate(
                            bytes,
                        );
                    assert(self.field_outcome(member@, before, bytes, tracker.visited()));
                }
                size
            },
            Member::Unnamed(1) => {
                let size = self.1.get_heap_size(tracker);
                proof {
                    let bytes = choose|bytes: nat| #[trigger]
                        self.1.heap_outcome(before, bytes, tracker.visited()) && size == saturate(
                            bytes,
                        );
                    assert(self.field_outcome(member@, before, bytes, tracker.visited()));
                }
                size
            },
            _ => {
                assert(self.field_outcome(member@, before, 0, tracker.visited()));
                0
            },
        }
    }

    fn field_custom_size(&self, function: &str, member: &Member) -> (n: usize) {
        0
    }
}

} // verus!
