use get_size::derive::{
    derive_get_size, Arguments, Attribute, Bindings, Body, Data, Delimiter, DeriveError,
    DeriveInput, Fields, GenericParam, Implementation, Inspect, Member, NamedField, Step, Token,
    UnnamedField, Variant,
};
use get_size::{GetSize, GetSizeNoTracker, GetSizeTracker, StandardTracker};
use std::rc::Rc;

fn ident(name: &str) -> Token {
    Token::Ident(name.to_string())
}

fn get_size_attr(tokens: Vec<Token>) -> Attribute {
    Attribute { path: "get_size".to_string(), arguments: Arguments::List(tokens) }
}

fn ignore_generics(names: &[&str]) -> Attribute {
    let mut inner = Vec::new();
    for (i, name) in names.iter().enumerate() {
        if i > 0 {
            inner.push(Token::Punct(','));
        }
        inner.push(ident(name));
    }
    get_size_attr(vec![ident("ignore"), Token::Group(Delimiter::Parenthesis, inner)])
}

fn named(name: &str, attributes: Vec<Attribute>) -> NamedField {
    NamedField { name: name.to_string(), attributes }
}

fn unnamed(count: usize) -> Fields {
    let mut fields = Vec::new();
    for _ in 0..count {
        fields.push(UnnamedField { attributes: Vec::new() });
    }
    Fields::Unnamed(fields)
}

fn type_param(name: &str) -> GenericParam {
    GenericParam::Type { name: name.to_string(), bounds: Vec::new() }
}

fn input(name: &str, attributes: Vec<Attribute>, generics: Vec<GenericParam>, data: Data) -> DeriveInput {
    DeriveInput { name: name.to_string(), attributes, generics, data }
}

fn bounds_of(implementation: &Implementation, param: &str) -> Vec<String> {
    for generic in implementation.generics.iter() {
        if let GenericParam::Type { name, bounds } = generic {
            if name == param {
                return bounds.clone();
            }
        }
    }
    panic!("no type parameter {}", param);
}

fn field_name(member: &Member) -> &str {
    match member {
        Member::Named(name) => name.as_str(),
        Member::Unnamed(position) => panic!("field {} has no name", position),
    }
}

fn field_position(member: &Member) -> usize {
    match member {
        Member::Unnamed(position) => *position,
        Member::Named(name) => panic!("field {} has no position", name),
    }
}

pub struct TestStruct {
    value1: String,
    value2: u64,
}

fn test_struct_plan() -> Implementation {
    derive_get_size(&input(
        "TestStruct",
        vec![],
        vec![],
        Data::Struct(Fields::Named(vec![named("value1", vec![]), named("value2", vec![])])),
    ))
    .unwrap()
}

impl Inspect for TestStruct {
    fn variant(&self) -> &'static str {
        ""
    }

    fn field_heap_size<Tr: GetSizeTracker>(&self, member: &Member, tracker: &mut Tr) -> usize {
        match field_name(member) {
            "value1" => self.value1.get_heap_size(tracker),
            "value2" => self.value2.get_heap_size(tracker),
            other => panic!("no field {}", other),
        }
    }

    fn field_custom_size(&self, function: &str, _member: &Member) -> usize {
        panic!("no function {}", function)
    }
}

impl GetSize for TestStruct {
    fn get_heap_size<Tr: GetSizeTracker>(&self, tracker: &mut Tr) -> usize {
        test_struct_plan().get_heap_size(self, tracker)
    }
}

#[test]
fn derive_struct() {
    let test = TestStruct { value1: "Hello".into(), value2: 123 };

    assert_eq!(test_struct_plan().heap_size(&test), 5);
}

#[test]
fn mod_derive_struct() {
    let test = TestStruct { value1: "Hello".into(), value2: 123 };

    assert_eq!(test.get_heap_size(&mut StandardTracker::new()), 5);
}

pub struct TestStructGenerics<A, B> {
    value1: A,
    value2: B,
}

impl<A: GetSize, B: GetSize> Inspect for TestStructGenerics<A, B> {
    fn variant(&self) -> &'static str {
        ""
    }

    fn field_heap_size<Tr: GetSizeTracker>(&self, member: &Member, tracker: &mut Tr) -> usize {
        match field_name(member) {
            "value1" => self.value1.get_heap_size(tracker),
            "value2" => self.value2.get_heap_size(tracker),
            other => panic!("no field {}", other),
        }
    }

    fn field_custom_size(&self, function: &str, _member: &Member) -> usize {
        panic!("no function {}", function)
    }
}

#[test]
fn derive_struct_with_generics() {
    let plan = derive_get_size(&input(
        "TestStructGenerics",
        vec![],
        vec![type_param("A"), type_param("B")],
        Data::Struct(Fields::Named(vec![named("value1", vec![]), named("value2", vec![])])),
    ))
    .unwrap();
    assert_eq!(bounds_of(&plan, "A"), vec!["GetSize".to_string()]);
    assert_eq!(bounds_of(&plan, "B"), vec!["GetSize".to_string()]);

    let test: TestStructGenerics<String, u64> =
        TestStructGenerics { value1: "Hello".into(), value2: 123 };

    assert_eq!(plan.heap_size(&test), 5);
}

#[allow(dead_code)]
struct TestStructGenericsIgnore<A, B, C> {
    value1: A,
    value2: B,
    value3: C,
}

#[allow(dead_code)]
struct TestStructNoGetSize {
    value: String,
}

// Only `A` has to be measurable: the other fields must never be looked at.
impl<A: GetSize, B, C> Inspect for TestStructGenericsIgnore<A, B, C> {
    fn variant(&self) -> &'static str {
        ""
    }

    fn field_heap_size<Tr: GetSizeTracker>(&self, member: &Member, tracker: &mut Tr) -> usize {
        match field_name(member) {
            "value1" => self.value1.get_heap_size(tracker),
            other => panic!("field {} must not be measured", other),
        }
    }

    fn field_custom_size(&self, function: &str, _member: &Member) -> usize {
        panic!("no function {}", function)
    }
}

#[test]
fn derive_struct_with_generics_and_ignore() {
    let plan = derive_get_size(&input(
        "TestStructGenericsIgnore",
        vec![
            ignore_generics(&["B", "C"]),
            Attribute { path: "allow".to_string(), arguments: Arguments::List(vec![ident("dead_code")]) },
        ],
        vec![type_param("A"), type_param("B"), type_param("C")],
        Data::Struct(Fields::Named(vec![
            named("value1", vec![]),
            named("value2", vec![get_size_attr(vec![ident("ignore")])]),
            named("value3", vec![get_size_attr(vec![ident("ignore")])]),
        ])),
    ))
    .unwrap();
    assert_eq!(bounds_of(&plan, "A"), vec!["GetSize".to_string()]);
    assert!(bounds_of(&plan, "B").is_empty());
    assert!(bounds_of(&plan, "C").is_empty());

    let no_impl = TestStructNoGetSize { value: "World!".into() };

    let test: TestStructGenericsIgnore<String, u64, TestStructNoGetSize> =
        TestStructGenericsIgnore { value1: "Hello".into(), value2: 123, value3: no_impl };

    assert_eq!(plan.heap_size(&test), 5);
}

#[allow(dead_code)]
struct TestStructHelpers<A, B, C> {
    value1: A,
    value2: B,
    value3: C,
}

fn get_size_helper<C>(_value: &C) -> usize {
    50
}

impl<A: GetSize, B, C> Inspect for TestStructHelpers<A, B, C> {
    fn variant(&self) -> &'static str {
        ""
    }

    fn field_heap_size<Tr: GetSizeTracker>(&self, member: &Member, tracker: &mut Tr) -> usize {
        match field_name(member) {
            "value1" => self.value1.get_heap_size(tracker),
            other => panic!("field {} must not be measured", other),
        }
    }

    fn field_custom_size(&self, function: &str, member: &Member) -> usize {
        match (function, field_name(member)) {
            ("get_size_helper", "value3") => get_size_helper(&self.value3),
            (function, field) => panic!("no function {} for field {}", function, field),
        }
    }
}

#[test]
fn derive_struct_with_generics_and_helpers() {
    let plan = derive_get_size(&input(
        "TestStructHelpers",
        vec![ignore_generics(&["B", "C"])],
        vec![type_param("A"), type_param("B"), type_param("C")],
        Data::Struct(Fields::Named(vec![
            named("value1", vec![]),
            named(
                "value2",
                vec![get_size_attr(vec![ident("size"), Token::Punct('='), Token::Integer(b"100".to_vec())])],
            ),
            named(
                "value3",
                vec![get_size_attr(vec![ident("size_fn"), Token::Punct('='), ident("get_size_helper")])],
            ),
        ])),
    ))
    .unwrap();

    let no_impl = TestStructNoGetSize { value: "World!".into() };

    let test: TestStructHelpers<String, u64, TestStructNoGetSize> =
        TestStructHelpers { value1: "Hello".into(), value2: 123, value3: no_impl };

    assert_eq!(plan.heap_size(&test), 5 + 100 + 50);
}

pub struct TestStructGenericsLifetimes<'a, A, B> {
    value1: A,
    value2: &'a B,
}

impl<'a, A: GetSize, B: GetSize> Inspect for TestStructGenericsLifetimes<'a, A, B> {
    fn variant(&self) -> &'static str {
        ""
    }

    fn field_heap_size<Tr: GetSizeTracker>(&self, member: &Member, tracker: &mut Tr) -> usize {
        match field_name(member) {
            "value1" => self.value1.get_heap_size(tracker),
            "value2" => self.value2.get_heap_size(tracker),
            other => panic!("no field {}", other),
        }
    }

    fn field_custom_size(&self, function: &str, _member: &Member) -> usize {
        panic!("no function {}", function)
    }
}

#[test]
fn derive_struct_with_generics_and_lifetimes() {
    let plan = derive_get_size(&input(
        "TestStructGenericsLifetimes",
        vec![],
        vec![GenericParam::Lifetime("'a".to_string()), type_param("A"), type_param("B")],
        Data::Struct(Fields::Named(vec![named("value1", vec![]), named("value2", vec![])])),
    ))
    .unwrap();

    let value = 123u64;

    let test: TestStructGenericsLifetimes<String, u64> =
        TestStructGenericsLifetimes { value1: "Hello".into(), value2: &value };

    assert_eq!(plan.heap_size(&test), 5);
}

pub enum TestEnum {
    Variant1(u8, u16, u32),
    Variant2(String),
    Variant3(i64, Vec<u16>),
    Variant4(String, i32, Vec<u32>, bool, &'static str),
    Variant5(f64, TestStruct),
    Variant6,
    Variant7 { x: String, y: String },
}

fn test_enum_plan() -> Implementation {
    derive_get_size(&input(
        "TestEnum",
        vec![],
        vec![],
        Data::Enum(vec![
            Variant { name: "Variant1".to_string(), fields: unnamed(3) },
            Variant { name: "Variant2".to_string(), fields: unnamed(1) },
            Variant { name: "Variant3".to_string(), fields: unnamed(2) },
            Variant { name: "Variant4".to_string(), fields: unnamed(5) },
            Variant { name: "Variant5".to_string(), fields: unnamed(2) },
            Variant { name: "Variant6".to_string(), fields: Fields::Unit },
            Variant {
                name: "Variant7".to_string(),
                fields: Fields::Named(vec![named("x", vec![]), named("y", vec![])]),
            },
        ]),
    ))
    .unwrap()
}

impl Inspect for TestEnum {
    fn variant(&self) -> &'static str {
        match self {
            TestEnum::Variant1(..) => "Variant1",
            TestEnum::Variant2(..) => "Variant2",
            TestEnum::Variant3(..) => "Variant3",
            TestEnum::Variant4(..) => "Variant4",
            TestEnum::Variant5(..) => "Variant5",
            TestEnum::Variant6 => "Variant6",
            TestEnum::Variant7 { .. } => "Variant7",
        }
    }

    fn field_heap_size<Tr: GetSizeTracker>(&self, member: &Member, tracker: &mut Tr) -> usize {
        match self {
            TestEnum::Variant1(v0, v1, v2) => match field_position(member) {
                0 => v0.get_heap_size(tracker),
                1 => v1.get_heap_size(tracker),
                2 => v2.get_heap_size(tracker),
                other => panic!("no field {}", other),
            },
            TestEnum::Variant2(v0) => match field_position(member) {
                0 => v0.get_heap_size(tracker),
                other => panic!("no field {}", other),
            },
            TestEnum::Variant3(v0, v1) => match field_position(member) {
                0 => v0.get_heap_size(tracker),
                1 => v1.get_heap_size(tracker),
                other => panic!("no field {}", other),
            },
            TestEnum::Variant4(v0, v1, v2, v3, v4) => match field_position(member) {
                0 => v0.get_heap_size(tracker),
                1 => v1.get_heap_size(tracker),
                2 => v2.get_heap_size(tracker),
                3 => v3.get_heap_size(tracker),
                4 => v4.get_heap_size(tracker),
                other => panic!("no field {}", other),
            },
            TestEnum::Variant5(_v0, v1) => match field_position(member) {
                // A floating-point number owns nothing on the heap.
                0 => 0,
                1 => v1.get_heap_size(tracker),
                other => panic!("no field {}", other),
            },
            TestEnum::Variant6 => panic!("a unit variant has no fields"),
            TestEnum::Variant7 { x, y } => match field_name(member) {
                "x" => x.get_heap_size(tracker),
                "y" => y.get_heap_size(tracker),
                other => panic!("no field {}", other),
            },
        }
    }

    fn field_custom_size(&self, function: &str, _member: &Member) -> usize {
        panic!("no function {}", function)
    }
}

#[test]
fn derive_enum() {
    let plan = test_enum_plan();

    let test = TestEnum::Variant1(1, 2, 3);
    assert_eq!(plan.heap_size(&test), 0);

    let test = TestEnum::Variant2("Hello".into());
    assert_eq!(plan.heap_size(&test), 5);

    let test = TestEnum::Variant3(-12, vec![1, 2, 3]);
    assert_eq!(plan.heap_size(&test), 6);

    let s: String = "Test".into();
    assert_eq!(s.get_heap_size(&mut StandardTracker::new()), 4);
    let v = vec![1, 2, 3, 4];
    assert_eq!(v.get_heap_size(&mut StandardTracker::new()), 16);
    let test = TestEnum::Variant4(s, -123, v, false, "Hello world!");
    assert_eq!(plan.heap_size(&test), 4 + 16);

    let test_struct = TestStruct { value1: "Hello world".into(), value2: 123 };

    let test = TestEnum::Variant5(12.34, test_struct);
    assert_eq!(plan.heap_size(&test), 11);

    let test = TestEnum::Variant6;
    assert_eq!(plan.heap_size(&test), 0);

    let test = TestEnum::Variant7 { x: "Hello".into(), y: "world".into() };
    assert_eq!(plan.heap_size(&test), 5 + 5);
}

pub enum TestEnumGenerics<'a, A, B, C> {
    Variant1(A),
    Variant2(B),
    Variant3(&'a C),
}

impl<'a, A: GetSize, B: GetSize, C: GetSize> Inspect for TestEnumGenerics<'a, A, B, C> {
    fn variant(&self) -> &'static str {
        match self {
            TestEnumGenerics::Variant1(..) => "Variant1",
            TestEnumGenerics::Variant2(..) => "Variant2",
            TestEnumGenerics::Variant3(..) => "Variant3",
        }
    }

    fn field_heap_size<Tr: GetSizeTracker>(&self, member: &Member, tracker: &mut Tr) -> usize {
        assert_eq!(field_position(member), 0);
        match self {
            TestEnumGenerics::Variant1(v0) => v0.get_heap_size(tracker),
            TestEnumGenerics::Variant2(v0) => v0.get_heap_size(tracker),
            TestEnumGenerics::Variant3(v0) => v0.get_heap_size(tracker),
        }
    }

    fn field_custom_size(&self, function: &str, _member: &Member) -> usize {
        panic!("no function {}", function)
    }
}

#[test]
fn derive_enum_generics() {
    let plan = derive_get_size(&input(
        "TestEnumGenerics",
        vec![],
        vec![
            GenericParam::Lifetime("'a".to_string()),
            type_param("A"),
            type_param("B"),
            type_param("C"),
        ],
        Data::Enum(vec![
            Variant { name: "Variant1".to_string(), fields: unnamed(1) },
            Variant { name: "Variant2".to_string(), fields: unnamed(1) },
            Variant { name: "Variant3".to_string(), fields: unnamed(1) },
        ]),
    ))
    .unwrap();

    let test: TestEnumGenerics<u64, String, TestStruct> = TestEnumGenerics::Variant1(123);
    assert_eq!(plan.heap_size(&test), 0);

    let test: TestEnumGenerics<u64, String, TestStruct> = TestEnumGenerics::Variant2("Hello".into());
    assert_eq!(plan.heap_size(&test), 5);

    let test_struct = TestStruct { value1: "Hello world".into(), value2: 123 };

    let test: TestEnumGenerics<u64, String, TestStruct> = TestEnumGenerics::Variant3(&test_struct);
    assert_eq!(plan.heap_size(&test), 0); // It is a pointer.
}

const MINIMAL_NODE_SIZE: usize = 3;

#[derive(Clone)]
enum Node<T>
where
    T: Default,
{
    Block(T),
    Blocks(Box<[T; MINIMAL_NODE_SIZE * MINIMAL_NODE_SIZE * MINIMAL_NODE_SIZE]>),
    Nodes(Box<[Node<T>; 8]>),
}

fn node_plan() -> Implementation {
    derive_get_size(&input(
        "Node",
        vec![],
        vec![GenericParam::Type { name: "T".to_string(), bounds: vec![] }],
        Data::Enum(vec![
            Variant { name: "Block".to_string(), fields: unnamed(1) },
            Variant { name: "Blocks".to_string(), fields: unnamed(1) },
            Variant { name: "Nodes".to_string(), fields: unnamed(1) },
        ]),
    ))
    .unwrap()
}

impl<T: GetSize + Default> Inspect for Node<T> {
    fn variant(&self) -> &'static str {
        match self {
            Node::Block(..) => "Block",
            Node::Blocks(..) => "Blocks",
            Node::Nodes(..) => "Nodes",
        }
    }

    fn field_heap_size<Tr: GetSizeTracker>(&self, member: &Member, tracker: &mut Tr) -> usize {
        assert_eq!(field_position(member), 0);
        match self {
            Node::Block(v0) => v0.get_heap_size(tracker),
            Node::Blocks(v0) => v0.get_heap_size(tracker),
            Node::Nodes(v0) => v0.get_heap_size(tracker),
        }
    }

    fn field_custom_size(&self, function: &str, _member: &Member) -> usize {
        panic!("no function {}", function)
    }
}

impl<T: GetSize + Default> GetSize for Node<T> {
    fn get_heap_size<Tr: GetSizeTracker>(&self, tracker: &mut Tr) -> usize {
        node_plan().get_heap_size(self, tracker)
    }
}

#[test]
fn derive_enum_generics_issue1() {
    let plan = node_plan();

    let test: Node<String> = Node::Block("test".into());
    assert_eq!(plan.heap_size(&test), 4);

    let test: Node<u64> = Node::Blocks(Box::new([123; 27]));
    assert_eq!(plan.heap_size(&test), 8 * 27);

    let t1: Node<u64> = Node::Block(123);
    let t2 = t1.clone();
    let t3 = t1.clone();
    let t4 = t1.clone();
    let t5 = t1.clone();
    let t6 = t1.clone();
    let t7 = t1.clone();
    let t8 = t1.clone();
    let test: Node<u64> = Node::Nodes(Box::new([t1, t2, t3, t4, t5, t6, t7, t8]));
    assert_eq!(plan.heap_size(&test), 8 * std::mem::size_of::<Node<u64>>());
}

pub enum TestEnum2 {
    Zero,
    One,
    Two,
}

impl Inspect for TestEnum2 {
    fn variant(&self) -> &'static str {
        match self {
            TestEnum2::Zero => "Zero",
            TestEnum2::One => "One",
            TestEnum2::Two => "Two",
        }
    }

    fn field_heap_size<Tr: GetSizeTracker>(&self, _member: &Member, _tracker: &mut Tr) -> usize {
        panic!("a unit variant has no fields")
    }

    fn field_custom_size(&self, function: &str, _member: &Member) -> usize {
        panic!("no function {}", function)
    }
}

#[test]
fn derive_enum_c_style() {
    let plan = derive_get_size(&input(
        "TestEnum2",
        vec![],
        vec![],
        Data::Enum(vec![
            Variant { name: "Zero".to_string(), fields: Fields::Unit },
            Variant { name: "One".to_string(), fields: Fields::Unit },
            Variant { name: "Two".to_string(), fields: Fields::Unit },
        ]),
    ))
    .unwrap();

    let test = TestEnum2::Zero;
    assert_eq!(plan.heap_size(&test), 0);

    let test = TestEnum2::One;
    assert_eq!(plan.heap_size(&test), 0);

    let test = TestEnum2::Two;
    assert_eq!(plan.heap_size(&test), 0);
}

pub struct TestNewType(u64);

impl Inspect for TestNewType {
    fn variant(&self) -> &'static str {
        ""
    }

    fn field_heap_size<Tr: GetSizeTracker>(&self, member: &Member, tracker: &mut Tr) -> usize {
        assert_eq!(field_position(member), 0);
        self.0.get_heap_size(tracker)
    }

    fn field_custom_size(&self, function: &str, _member: &Member) -> usize {
        panic!("no function {}", function)
    }
}

impl GetSize for TestNewType {
    fn get_heap_size<Tr: GetSizeTracker>(&self, tracker: &mut Tr) -> usize {
        derive_get_size(&input("TestNewType", vec![], vec![], Data::Struct(unnamed(1))))
            .unwrap()
            .get_heap_size(self, tracker)
    }
}

#[test]
fn derive_newtype() {
    let test = TestNewType(0);
    assert_eq!(u64::get_stack_size(), test.get_size(&mut StandardTracker::new()));
}

#[test]
fn plan_of_a_record_lists_one_step_for_each_counted_field() {
    let plan = derive_get_size(&input(
        "Settings",
        vec![],
        vec![],
        Data::Struct(Fields::Unnamed(vec![
            UnnamedField { attributes: vec![get_size_attr(vec![ident("ignore")])] },
            UnnamedField { attributes: vec![] },
            UnnamedField {
                attributes: vec![get_size_attr(vec![
                    ident("size_fn"),
                    Token::Punct('='),
                    ident("measure"),
                    Token::Punct(','),
                ])],
            },
            UnnamedField {
                attributes: vec![get_size_attr(vec![
                    ident("size"),
                    Token::Punct('='),
                    Token::Integer(b"7".to_vec()),
                ])],
            },
        ])),
    ))
    .unwrap();
    assert_eq!(plan.name, "Settings");
    assert!(plan.generics.is_empty());
    match plan.body {
        Body::Record(steps) => {
            assert_eq!(steps.len(), 3);
            assert!(matches!(&steps[0], Step::Measure(Member::Unnamed(1))));
            assert!(matches!(
                &steps[1],
                Step::Custom { function, member: Member::Unnamed(2) } if function == "measure"
            ));
            assert!(matches!(&steps[2], Step::Fixed(7)));
        }
        other => panic!("not a record: {:?}", other),
    }
}

#[test]
fn plan_of_a_union_binds_positional_fields_by_number() {
    let plan = test_enum_plan();
    match plan.body {
        Body::Choice(arms) => {
            assert_eq!(arms.len(), 7);
            assert_eq!(arms[3].variant, "Variant4");
            match &arms[3].bindings {
                Bindings::Unnamed(names) => assert_eq!(names, &["v0", "v1", "v2", "v3", "v4"]),
                other => panic!("not positional: {:?}", other),
            }
            assert!(matches!(arms[5].bindings, Bindings::Unit));
            match &arms[6].bindings {
                Bindings::Named(names) => assert_eq!(names, &["x", "y"]),
                other => panic!("not named: {:?}", other),
            }
        }
        other => panic!("not a union: {:?}", other),
    }
}

#[test]
fn positional_binding_names_count_in_decimal() {
    assert_eq!(get_size::derive::generate::positional_binding(0), "v0");
    assert_eq!(get_size::derive::generate::positional_binding(9), "v9");
    assert_eq!(get_size::derive::generate::positional_binding(10), "v10");
    assert_eq!(get_size::derive::generate::positional_binding(1205), "v1205");
}

#[test]
fn types_without_fields_or_variants_get_the_trivial_plan() {
    let empty_struct = derive_get_size(&input(
        "Empty",
        vec![],
        vec![type_param("T")],
        Data::Struct(Fields::Unit),
    ))
    .unwrap();
    assert!(matches!(empty_struct.body, Body::Trivial));
    assert!(empty_struct.generics.is_empty());

    let empty_braces =
        derive_get_size(&input("Empty", vec![], vec![], Data::Struct(Fields::Named(vec![])))).unwrap();
    assert!(matches!(empty_braces.body, Body::Trivial));

    let never = derive_get_size(&input("Never", vec![], vec![], Data::Enum(vec![]))).unwrap();
    assert!(matches!(never.body, Body::Trivial));
    assert_eq!(never.heap_size(&TestEnum2::One), 0);
}

#[test]
fn bounds_are_added_to_type_parameters_only_and_keep_what_is_written() {
    let generics = vec![
        GenericParam::Lifetime("'a".to_string()),
        GenericParam::Type { name: "T".to_string(), bounds: vec!["Default".to_string()] },
        GenericParam::Const("N".to_string()),
        type_param("U"),
    ];
    let bounded = get_size::derive::add_trait_bounds(&generics, &vec!["U".to_string()]);
    assert_eq!(bounded.len(), 4);
    assert!(matches!(&bounded[0], GenericParam::Lifetime(name) if name == "'a"));
    assert!(matches!(
        &bounded[1],
        GenericParam::Type { name, bounds } if name == "T" && bounds == &["Default", "GetSize"]
    ));
    assert!(matches!(&bounded[2], GenericParam::Const(name) if name == "N"));
    assert!(matches!(
        &bounded[3],
        GenericParam::Type { name, bounds } if name == "U" && bounds.is_empty()
    ));
}

fn derive_fields(fields: Vec<NamedField>) -> Result<Implementation, DeriveError> {
    derive_get_size(&input("T", vec![], vec![], Data::Struct(Fields::Named(fields))))
}

fn derive_with(attributes: Vec<Attribute>, generics: Vec<GenericParam>) -> Result<Implementation, DeriveError> {
    derive_get_size(&input(
        "T",
        attributes,
        generics,
        Data::Struct(Fields::Named(vec![named("a", vec![])])),
    ))
}

fn error_of(result: Result<Implementation, DeriveError>) -> DeriveError {
    match result {
        Err(error) => error,
        Ok(plan) => panic!("a plan was made: {:?}", plan),
    }
}

#[test]
fn unions_are_refused() {
    assert_eq!(
        error_of(derive_get_size(&input("U", vec![], vec![], Data::Union))),
        DeriveError::UnsupportedUnion
    );
}

#[test]
fn unknown_keys_are_refused() {
    assert_eq!(
        error_of(derive_fields(vec![named("a", vec![get_size_attr(vec![ident("skip")])])])),
        DeriveError::UnknownKey
    );
    assert_eq!(
        error_of(derive_with(vec![get_size_attr(vec![ident("skip")])], vec![])),
        DeriveError::UnknownKey
    );
}

#[test]
fn conflicting_directives_are_refused() {
    let size = || vec![ident("size"), Token::Punct('='), Token::Integer(b"1".to_vec())];
    let size_fn = || vec![ident("size_fn"), Token::Punct('='), ident("f")];
    let ignore = || vec![ident("ignore")];
    for (first, second) in [(size(), size_fn()), (size(), ignore()), (size_fn(), ignore())] {
        let mut together = first.clone_tokens();
        together.push(Token::Punct(','));
        together.extend(second.clone_tokens());
        assert_eq!(
            error_of(derive_fields(vec![named("a", vec![get_size_attr(together)])])),
            DeriveError::Conflict
        );
        assert_eq!(
            error_of(derive_fields(vec![named(
                "a",
                vec![get_size_attr(first), get_size_attr(second)]
            )])),
            DeriveError::Conflict
        );
    }
    // `ignore = false` still is a directive of its own.
    assert_eq!(
        error_of(derive_fields(vec![named(
            "a",
            vec![get_size_attr(vec![
                ident("ignore"),
                Token::Punct('='),
                ident("false"),
                Token::Punct(','),
                ident("size"),
                Token::Punct('='),
                Token::Integer(b"1".to_vec()),
            ])]
        )])),
        DeriveError::Conflict
    );
}

trait CloneTokens {
    fn clone_tokens(&self) -> Vec<Token>;
}

impl CloneTokens for Vec<Token> {
    fn clone_tokens(&self) -> Vec<Token> {
        self.iter()
            .map(|token| match token {
                Token::Ident(name) => Token::Ident(name.clone()),
                Token::Punct(c) => Token::Punct(*c),
                Token::Integer(digits) => Token::Integer(digits.clone()),
                Token::Literal(text) => Token::Literal(text.clone()),
                Token::Group(delimiter, inner) => Token::Group(*delimiter, inner.clone_tokens()),
            })
            .collect()
    }
}

#[test]
fn a_key_given_by_two_annotations_is_refused() {
    let size = |digits: &[u8]| {
        get_size_attr(vec![ident("size"), Token::Punct('='), Token::Integer(digits.to_vec())])
    };
    assert_eq!(
        error_of(derive_fields(vec![named("a", vec![size(b"1"), size(b"2")])])),
        DeriveError::DuplicateKey
    );
}

#[test]
fn within_one_annotation_the_last_entry_of_a_key_counts() {
    let plan = derive_fields(vec![named(
        "a",
        vec![get_size_attr(vec![
            ident("size"),
            Token::Punct('='),
            Token::Integer(b"1".to_vec()),
            Token::Punct(','),
            ident("size"),
            Token::Punct('='),
            Token::Integer(b"2".to_vec()),
        ])],
    )])
    .unwrap();
    match plan.body {
        Body::Record(steps) => assert!(matches!(steps.as_slice(), [Step::Fixed(2)])),
        other => panic!("not a record: {:?}", other),
    }
}

#[test]
fn malformed_annotations_are_refused() {
    let malformed: Vec<Vec<Token>> = vec![
        vec![ident("size")],
        vec![ident("size"), Token::Punct('=')],
        vec![ident("size"), Token::Punct('='), ident("big")],
        vec![ident("size"), Token::Punct('='), Token::Literal("\"100\"".to_string())],
        vec![ident("size"), Token::Punct('='), Token::Integer(b"".to_vec())],
        vec![ident("size"), Token::Punct('='), Token::Integer(b"12a".to_vec())],
        vec![ident("size"), Token::Punct('='), Token::Integer(b"99999999999999999999999999".to_vec())],
        vec![ident("size_fn")],
        vec![ident("size_fn"), Token::Punct('='), Token::Integer(b"1".to_vec())],
        vec![ident("ignore"), Token::Punct('='), ident("maybe")],
        vec![ident("ignore"), Token::Punct('=')],
        vec![ident("ignore"), ident("ignore")],
        vec![Token::Punct(','), ident("ignore")],
        vec![ident("ignore"), Token::Punct(','), Token::Punct(',')],
        vec![Token::Integer(b"1".to_vec())],
        vec![Token::Group(Delimiter::Parenthesis, vec![])],
    ];
    for tokens in malformed {
        let shown = format!("{:?}", tokens);
        assert_eq!(
            error_of(derive_fields(vec![named("a", vec![get_size_attr(tokens)])])),
            DeriveError::Malformed,
            "{}",
            shown
        );
    }
    for arguments in [Arguments::Absent, Arguments::Value] {
        assert_eq!(
            error_of(derive_fields(vec![named(
                "a",
                vec![Attribute { path: "get_size".to_string(), arguments }]
            )])),
            DeriveError::Malformed
        );
    }
    for arguments in [Arguments::Absent, Arguments::Value] {
        assert_eq!(
            error_of(derive_with(
                vec![Attribute { path: "get_size".to_string(), arguments }],
                vec![]
            )),
            DeriveError::Malformed
        );
    }
    let malformed_exemptions: Vec<Vec<Token>> = vec![
        vec![ident("ignore")],
        vec![ident("ignore"), Token::Group(Delimiter::Parenthesis, vec![])],
        vec![ident("ignore"), Token::Group(Delimiter::Bracket, vec![ident("A")])],
        vec![ident("ignore"), Token::Group(Delimiter::Parenthesis, vec![Token::Punct(',')])],
        vec![ident("ignore"), Token::Group(Delimiter::Parenthesis, vec![ident("A"), ident("A")])],
        vec![
            ident("ignore"),
            Token::Group(Delimiter::Parenthesis, vec![ident("A")]),
            ident("ignore"),
        ],
        vec![Token::Punct(',')],
    ];
    for tokens in malformed_exemptions {
        let shown = format!("{:?}", tokens);
        assert_eq!(
            error_of(derive_with(vec![get_size_attr(tokens)], vec![type_param("A")])),
            DeriveError::Malformed,
            "{}",
            shown
        );
    }
}

#[test]
fn trailing_commas_and_other_annotations_are_accepted() {
    let plan = derive_get_size(&input(
        "T",
        vec![
            Attribute { path: "doc".to_string(), arguments: Arguments::Value },
            get_size_attr(vec![]),
            get_size_attr(vec![
                ident("ignore"),
                Token::Group(Delimiter::Parenthesis, vec![ident("A"), Token::Punct(',')]),
                Token::Punct(','),
            ]),
            Attribute { path: "repr".to_string(), arguments: Arguments::List(vec![ident("C")]) },
            ignore_generics(&["N"]),
        ],
        vec![type_param("A"), type_param("B"), GenericParam::Const("N".to_string())],
        Data::Struct(Fields::Named(vec![named(
            "a",
            vec![
                Attribute { path: "serde".to_string(), arguments: Arguments::List(vec![ident("skip")]) },
                get_size_attr(vec![ident("ignore"), Token::Punct('='), ident("true"), Token::Punct(',')]),
            ],
        ), named("b", vec![get_size_attr(vec![ident("ignore"), Token::Punct('='), ident("false")])])])),
    ))
    .unwrap();
    assert!(bounds_of(&plan, "A").is_empty());
    assert_eq!(bounds_of(&plan, "B"), vec!["GetSize".to_string()]);
    match plan.body {
        Body::Record(steps) => {
            assert!(matches!(steps.as_slice(), [Step::Measure(Member::Named(name))] if name == "b"))
        }
        other => panic!("not a record: {:?}", other),
    }
}

#[test]
fn an_exemption_must_name_a_generic_parameter() {
    assert_eq!(
        error_of(derive_with(vec![ignore_generics(&["B"])], vec![type_param("A")])),
        DeriveError::UnresolvedExemption
    );
    assert_eq!(
        error_of(derive_with(
            vec![ignore_generics(&["a"])],
            vec![GenericParam::Lifetime("a".to_string())]
        )),
        DeriveError::UnresolvedExemption
    );
    assert!(derive_with(vec![ignore_generics(&["A"])], vec![type_param("A")]).is_ok());
}

#[test]
fn the_first_error_in_reading_order_is_reported() {
    // The annotations on the type are read before the shape is looked at.
    assert_eq!(
        error_of(derive_get_size(&input(
            "U",
            vec![get_size_attr(vec![ident("skip")])],
            vec![],
            Data::Union
        ))),
        DeriveError::UnknownKey
    );
    assert_eq!(
        error_of(derive_get_size(&input("U", vec![ignore_generics(&["X"])], vec![], Data::Union))),
        DeriveError::UnresolvedExemption
    );
    // The fields are read in order.
    assert_eq!(
        error_of(derive_fields(vec![
            named("a", vec![get_size_attr(vec![ident("size")])]),
            named("b", vec![get_size_attr(vec![ident("skip")])]),
        ])),
        DeriveError::Malformed
    );
    // The annotations on the fields of a variant are not read.
    assert!(derive_get_size(&input(
        "E",
        vec![],
        vec![],
        Data::Enum(vec![Variant {
            name: "V".to_string(),
            fields: Fields::Named(vec![named("a", vec![get_size_attr(vec![ident("skip")])])]),
        }])
    ))
    .is_ok());
}

struct Pair {
    left: Rc<String>,
    right: Rc<String>,
}

impl Inspect for Pair {
    fn variant(&self) -> &'static str {
        ""
    }

    fn field_heap_size<Tr: GetSizeTracker>(&self, member: &Member, tracker: &mut Tr) -> usize {
        match field_name(member) {
            "left" => self.left.get_heap_size(tracker),
            "right" => self.right.get_heap_size(tracker),
            other => panic!("no field {}", other),
        }
    }

    fn field_custom_size(&self, function: &str, _member: &Member) -> usize {
        panic!("no function {}", function)
    }
}

#[test]
fn a_plan_shares_the_tracker_of_the_enclosing_measurement() {
    let plan = derive_fields(vec![named("left", vec![]), named("right", vec![])]).unwrap();
    let shared = Rc::new(String::from("Hello"));
    let pair = Pair { left: shared.clone(), right: shared.clone() };
    let once = std::mem::size_of::<String>() + 5;

    assert_eq!(plan.heap_size(&pair), once);
    // A second measurement of its own counts the allocation again.
    assert_eq!(plan.heap_size(&pair), once);
    // Without tracking, each owner is counted.
    assert_eq!(plan.get_heap_size(&pair, &mut GetSizeNoTracker), 2 * once);
    // A tracker that has seen the allocation counts nothing.
    let mut tracker = StandardTracker::new();
    assert_eq!(shared.get_heap_size(&mut tracker), once);
    assert_eq!(plan.get_heap_size(&pair, &mut tracker), 0);
}
