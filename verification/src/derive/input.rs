//! The description of a type that an implementation of the size protocol is
//! generated for: its name, its generic parameters, its shape, and the
//! annotations on the type and on its fields.

use vstd::prelude::*;

verus! {

/// The brackets around a group of tokens.
#[derive(Clone, Copy, Debug, PartialEq, Eq, Structural)]
pub enum Delimiter {
    Parenthesis,
    Brace,
    Bracket,
    /// No visible brackets.
    Invisible,
}

/// One token of an annotation's arguments.
#[derive(Debug)]
pub enum Token {
    /// An identifier or keyword.
    Ident(String),
    /// A single punctuation character.
    Punct(char),
    /// An integer literal, as its decimal digits in ASCII.
    Integer(Vec<u8>),
    /// Any other literal, as written.
    Literal(String),
    /// A delimited group of tokens.
    Group(Delimiter, Vec<Token>),
}

/// A token inside a group, as far as the configuration grammar looks.
pub enum InnerToken {
    Ident(Seq<char>),
    Punct(char),
    Integer(Seq<u8>),
    Literal(Seq<char>),
    Group(Delimiter),
}

/// A token of an annotation's arguments, with its group's tokens one level
/// deep.
pub enum TokenView {
    Ident(Seq<char>),
    Punct(char),
    Integer(Seq<u8>),
    Literal(Seq<char>),
    Group(Delimiter, Seq<InnerToken>),
}

impl Token {
    /// The token without the contents of a group.
    pub open spec fn inner(&self) -> InnerToken {
        match self {
            Token::Ident(name) => InnerToken::Ident(name@),
            Token::Punct(c) => InnerToken::Punct(*c),
            Token::Integer(digits) => InnerToken::Integer(digits@),
            Token::Literal(text) => InnerToken::Literal(text@),
            Token::Group(delimiter, _) => InnerToken::Group(*delimiter),
        }
    }
}

impl View for Token {
    type V = TokenView;

    open spec fn view(&self) -> TokenView {
        match self {
            Token::Ident(name) => TokenView::Ident(name@),
            Token::Punct(c) => TokenView::Punct(*c),
            Token::Integer(digits) => TokenView::Integer(digits@),
            Token::Literal(text) => TokenView::Literal(text@),
            Token::Group(delimiter, tokens) => TokenView::Group(
                *delimiter,
                tokens@.map_values(|t: Token| t.inner()),
            ),
        }
    }
}

/// The views of a list of tokens.
pub open spec fn token_views(tokens: Seq<Token>) -> Seq<TokenView> {
    tokens.map_values(|t: Token| t@)
}

impl Token {
    /// Whether the token is the punctuation character `c`.
    pub fn is_punct(&self, c: char) -> (is: bool)
        ensures
            is == (self@ == TokenView::Punct(c)),
    {
        match self {
            Token::Punct(p) => *p == c,
            _ => false,
        }
    }
}

/// What follows the path of an annotation.
#[derive(Debug)]
pub enum Arguments {
    /// Nothing: `#[path]`.
    Absent,
    /// A value: `#[path = value]`.
    Value,
    /// A delimited list of tokens: `#[path(tokens)]`.
    List(Vec<Token>),
}

pub enum ArgumentsView {
    Absent,
    Value,
    List(Seq<TokenView>),
}

impl View for Arguments {
    type V = ArgumentsView;

    open spec fn view(&self) -> ArgumentsView {
        match self {
            Arguments::Absent => ArgumentsView::Absent,
            Arguments::Value => ArgumentsView::Value,
            Arguments::List(tokens) => ArgumentsView::List(token_views(tokens@)),
        }
    }
}

/// An annotation on a type or on a field.
#[derive(Debug)]
pub struct Attribute {
    /// The path before the arguments, as written.
    pub path: String,
    pub arguments: Arguments,
}

pub struct AttributeView {
    pub path: Seq<char>,
    pub arguments: ArgumentsView,
}

impl View for Attribute {
    type V = AttributeView;

    open spec fn view(&self) -> AttributeView {
        AttributeView { path: self.path@, arguments: self.arguments@ }
    }
}

/// The views of a list of annotations.
pub open spec fn attribute_views(attributes: Seq<Attribute>) -> Seq<AttributeView> {
    attributes.map_values(|a: Attribute| a@)
}

/// The views of a list of names.
pub open spec fn name_views(names: Seq<String>) -> Seq<Seq<char>> {
    names.map_values(|n: String| n@)
}

/// A generic parameter of a type.
#[derive(Debug)]
pub enum GenericParam {
    Lifetime(String),
    /// A type parameter with the bounds written on it.
    Type { name: String, bounds: Vec<String> },
    Const(String),
}

pub enum GenericParamView {
    Lifetime(Seq<char>),
    Type { name: Seq<char>, bounds: Seq<Seq<char>> },
    Const(Seq<char>),
}

impl View for GenericParam {
    type V = GenericParamView;

    open spec fn view(&self) -> GenericParamView {
        match self {
            GenericParam::Lifetime(name) => GenericParamView::Lifetime(name@),
            GenericParam::Type { name, bounds } => GenericParamView::Type {
                name: name@,
                bounds: name_views(bounds@),
            },
            GenericParam::Const(name) => GenericParamView::Const(name@),
        }
    }
}

/// The views of a list of generic parameters.
pub open spec fn generic_views(generics: Seq<GenericParam>) -> Seq<GenericParamView> {
    generics.map_values(|g: GenericParam| g@)
}

/// A field with a name, and the annotations on it.
#[derive(Debug)]
pub struct NamedField {
    pub name: String,
    pub attributes: Vec<Attribute>,
}

pub struct NamedFieldView {
    pub name: Seq<char>,
    pub attributes: Seq<AttributeView>,
}

impl View for NamedField {
    type V = NamedFieldView;

    open spec fn view(&self) -> NamedFieldView {
        NamedFieldView { name: self.name@, attributes: attribute_views(self.attributes@) }
    }
}

/// A positional field: the annotations on it.
#[derive(Debug)]
pub struct UnnamedField {
    pub attributes: Vec<Attribute>,
}

pub struct UnnamedFieldView {
    pub attributes: Seq<AttributeView>,
}

impl View for UnnamedField {
    type V = UnnamedFieldView;

    open spec fn view(&self) -> UnnamedFieldView {
        UnnamedFieldView { attributes: attribute_views(self.attributes@) }
    }
}

/// How a field is addressed: by its name, or by its position among the
/// fields.
#[derive(Debug)]
pub enum Member {
    Named(String),
    Unnamed(usize),
}

pub enum MemberView {
    Named(Seq<char>),
    Unnamed(usize),
}

impl View for Member {
    type V = MemberView;

    open spec fn view(&self) -> MemberView {
        match self {
            Member::Named(name) => MemberView::Named(name@),
            Member::Unnamed(position) => MemberView::Unnamed(*position),
        }
    }
}

/// The fields of a record or of a variant.
#[derive(Debug)]
pub enum Fields {
    /// `{ a: A, b: B }`
    Named(Vec<NamedField>),
    /// `(A, B)`
    Unnamed(Vec<UnnamedField>),
    /// No fields and no brackets.
    Unit,
}

pub enum FieldsView {
    Named(Seq<NamedFieldView>),
    Unnamed(Seq<UnnamedFieldView>),
    Unit,
}

impl FieldsView {
    /// The number of fields.
    pub open spec fn len(self) -> nat {
        match self {
            FieldsView::Named(fields) => fields.len(),
            FieldsView::Unnamed(fields) => fields.len(),
            FieldsView::Unit => 0,
        }
    }

    /// How the field at `position` is addressed.
    pub open spec fn member(self, position: usize) -> MemberView {
        match self {
            FieldsView::Named(fields) => MemberView::Named(fields[position as int].name),
            _ => MemberView::Unnamed(position),
        }
    }

    /// The annotations on the field at `position`.
    pub open spec fn attributes(self, position: int) -> Seq<AttributeView> {
        match self {
            FieldsView::Named(fields) => fields[position].attributes,
            FieldsView::Unnamed(fields) => fields[position].attributes,
            FieldsView::Unit => Seq::empty(),
        }
    }
}

impl View for Fields {
    type V = FieldsView;

    open spec fn view(&self) -> FieldsView {
        match self {
            Fields::Named(fields) => FieldsView::Named(fields@.map_values(|f: NamedField| f@)),
            Fields::Unnamed(fields) => FieldsView::Unnamed(
                fields@.map_values(|f: UnnamedField| f@),
            ),
            Fields::Unit => FieldsView::Unit,
        }
    }
}

impl Fields {
    /// The number of fields.
    pub(crate) fn len(&self) -> (n: usize)
        ensures
            n == self@.len(),
    {
        match self {
            Fields::Named(fields) => fields.len(),
            Fields::Unnamed(fields) => fields.len(),
            Fields::Unit => 0,
        }
    }

    /// How the field at `position` is addressed.
    pub(crate) fn member(&self, position: usize) -> (member: Member)
        requires
            position < self@.len(),
        ensures
            member@ == self@.member(position),
    {
        match self {
            Fields::Named(fields) => Member::Named(fields[position].name.clone()),
            _ => Member::Unnamed(position),
        }
    }

    /// The annotations on the field at `position`.
    pub(crate) fn attributes(&self, position: usize) -> (attributes: &Vec<Attribute>)
        requires
            position < self@.len(),
        ensures
            attribute_views(attributes@) == self@.attributes(position as int),
    {
        match self {
            Fields::Named(fields) => &fields[position].attributes,
            Fields::Unnamed(fields) => &fields[position].attributes,
            Fields::Unit => vstd::pervasive::unreached(),
        }
    }
}

/// A variant of a discriminated union.
#[derive(Debug)]
pub struct Variant {
    pub name: String,
    pub fields: Fields,
}

pub struct VariantView {
    pub name: Seq<char>,
    pub fields: FieldsView,
}

impl View for Variant {
    type V = VariantView;

    open spec fn view(&self) -> VariantView {
        VariantView { name: self.name@, fields: self.fields@ }
    }
}

/// The shape of a type.
#[derive(Debug)]
pub enum Data {
    /// A record: all fields are present in every value.
    Struct(Fields),
    /// A discriminated union: every value is one of the variants.
    Enum(Vec<Variant>),
    /// A union whose fields share their storage.
    Union,
}

pub enum DataView {
    Struct(FieldsView),
    Enum(Seq<VariantView>),
    Union,
}

impl View for Data {
    type V = DataView;

    open spec fn view(&self) -> DataView {
        match self {
            Data::Struct(fields) => DataView::Struct(fields@),
            Data::Enum(variants) => DataView::Enum(variants@.map_values(|v: Variant| v@)),
            Data::Union => DataView::Union,
        }
    }
}

/// A type definition, as far as generating its size implementation reads it.
#[derive(Debug)]
pub struct DeriveInput {
    pub name: String,
    pub attributes: Vec<Attribute>,
    pub generics: Vec<GenericParam>,
    pub data: Data,
}

pub struct DeriveInputView {
    pub name: Seq<char>,
    pub attributes: Seq<AttributeView>,
    pub generics: Seq<GenericParamView>,
    pub data: DataView,
}

impl View for DeriveInput {
    type V = DeriveInputView;

    open spec fn view(&self) -> DeriveInputView {
        DeriveInputView {
            name: self.name@,
            attributes: attribute_views(self.attributes@),
            generics: generic_views(self.generics@),
            data: self.data@,
        }
    }
}

} // verus!
