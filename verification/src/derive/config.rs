//! The configuration that annotations give: the directives on a field, and
//! the generic parameters that a type exempts from the size protocol.

use crate::derive::input::{
    attribute_views, name_views, token_views, Arguments, ArgumentsView, Attribute, AttributeView, Delimiter,
    InnerToken, Token, TokenView,
};
use crate::derive::plan::DeriveError;
use crate::derive::text::{decimal_value, is_decimal, parse_decimal, same_text};
use vstd::prelude::*;

verus! {

/// A result with its value seen through its view.
pub open spec fn lift<T: View>(result: Result<T, DeriveError>) -> Result<T::V, DeriveError> {
    match result {
        Ok(value) => Ok(value@),
        Err(error) => Err(error),
    }
}

/// The directives that the annotations on a field give: each key with its
/// value, if the key is given.
#[derive(Debug)]
pub struct Directives {
    /// `size = <integer>`
    pub size: Option<usize>,
    /// `size_fn = <function>`
    pub size_fn: Option<String>,
    /// `ignore`, `ignore = true` or `ignore = false`
    pub ignore: Option<bool>,
}

pub struct DirectivesView {
    pub size: Option<usize>,
    pub size_fn: Option<Seq<char>>,
    pub ignore: Option<bool>,
}

impl View for Directives {
    type V = DirectivesView;

    open spec fn view(&self) -> DirectivesView {
        DirectivesView {
            size: self.size,
            size_fn: match self.size_fn {
                Some(name) => Some(name@),
                None => None,
            },
            ignore: self.ignore,
        }
    }
}

impl DirectivesView {
    /// No key is given.
    pub open spec fn unset() -> DirectivesView {
        DirectivesView { size: None, size_fn: None, ignore: None }
    }

    /// The directives of two annotations together. A key that both give is an
    /// error.
    pub open spec fn merge(self, other: DirectivesView) -> Result<DirectivesView, DeriveError> {
        if (self.size is Some && other.size is Some) || (self.size_fn is Some && other.size_fn
            is Some) || (self.ignore is Some && other.ignore is Some) {
            Err(DeriveError::DuplicateKey)
        } else {
            Ok(
                DirectivesView {
                    size: if self.size is Some {
                        self.size
                    } else {
                        other.size
                    },
                    size_fn: if self.size_fn is Some {
                        self.size_fn
                    } else {
                        other.size_fn
                    },
                    ignore: if self.ignore is Some {
                        self.ignore
                    } else {
                        other.ignore
                    },
                },
            )
        }
    }
}

/// Whether the token at `at` is followed by `=`.
pub open spec fn assigned(tokens: Seq<TokenView>, at: int) -> bool {
    at + 1 < tokens.len() && tokens[at + 1] == TokenView::Punct('=')
}

/// Reads the entry that starts at `at`: a key, alone or followed by `=` and
/// one token. Gives the directives with the entry's key set, and the position
/// after the entry.
pub open spec fn entry_at(tokens: Seq<TokenView>, at: int, found: DirectivesView) -> Result<
    (DirectivesView, int),
    DeriveError,
> {
    match tokens[at] {
        TokenView::Ident(key) => if key == "size"@ {
            if assigned(tokens, at) && at + 2 < tokens.len() {
                match tokens[at + 2] {
                    TokenView::Integer(digits) => if is_decimal(digits) && decimal_value(digits)
                        <= usize::MAX {
                        Ok(
                            (
                                DirectivesView {
                                    size: Some(decimal_value(digits) as usize),
                                    ..found
                                },
                                at + 3,
                            ),
                        )
                    } else {
                        Err(DeriveError::Malformed)
                    },
                    _ => Err(DeriveError::Malformed),
                }
            } else {
                Err(DeriveError::Malformed)
            }
        } else if key == "size_fn"@ {
            if assigned(tokens, at) && at + 2 < tokens.len() {
                match tokens[at + 2] {
                    TokenView::Ident(name) => Ok(
                        (DirectivesView { size_fn: Some(name), ..found }, at + 3),
                    ),
                    _ => Err(DeriveError::Malformed),
                }
            } else {
                Err(DeriveError::Malformed)
            }
        } else if key == "ignore"@ {
            if !assigned(tokens, at) {
                Ok((DirectivesView { ignore: Some(true), ..found }, at + 1))
            } else if at + 2 < tokens.len() {
                match tokens[at + 2] {
                    TokenView::Ident(value) => if value == "true"@ {
                        Ok((DirectivesView { ignore: Some(true), ..found }, at + 3))
                    } else if value == "false"@ {
                        Ok((DirectivesView { ignore: Some(false), ..found }, at + 3))
                    } else {
                        Err(DeriveError::Malformed)
                    },
                    _ => Err(DeriveError::Malformed),
                }
            } else {
                Err(DeriveError::Malformed)
            }
        } else {
            Err(DeriveError::UnknownKey)
        },
        _ => Err(DeriveError::Malformed),
    }
}

/// Reads the entries from `at` on: entries separated by commas, with or
/// without a comma after the last. Within one list a later entry replaces an
/// earlier one with the same key.
pub open spec fn directives_from(tokens: Seq<TokenView>, at: int, found: DirectivesView) -> Result<
    DirectivesView,
    DeriveError,
>
    decreases tokens.len() - at,
{
    if at < 0 || at >= tokens.len() {
        Ok(found)
    } else {
        match entry_at(tokens, at, found) {
            Err(error) => Err(error),
            Ok((found, next)) => if next >= tokens.len() {
                Ok(found)
            } else if tokens[next] == TokenView::Punct(',') {
                directives_from(tokens, next + 1, found)
            } else {
                Err(DeriveError::Malformed)
            },
        }
    }
}

/// Reads the directives of one list of arguments.
pub fn parse_directives(tokens: &Vec<Token>) -> (result: Result<Directives, DeriveError>)
    ensures
        lift(result) == directives_from(token_views(tokens@), 0, DirectivesView::unset()),
{
    let mut found = Directives { size: None, size_fn: None, ignore: None };
    let mut at: usize = 0;
    let ghost views = token_views(tokens@);
    while at < tokens.len()
        invariant
            at <= tokens.len(),
            views == token_views(tokens@),
            directives_from(views, 0, DirectivesView::unset()) == directives_from(
                views,
                at as int,
                found@,
            ),
        decreases tokens.len() - at,
    {
        let is_assigned = at + 1 < tokens.len() && tokens[at + 1].is_punct('=');
        assert(is_assigned == assigned(views, at as int));
        match &tokens[at] {
            Token::Ident(key) => {
                if same_text(key.as_str(), "size") {
                    if is_assigned && at + 2 < tokens.len() {
                        match &tokens[at + 2] {
                            Token::Integer(digits) => match parse_decimal(digits.as_slice()) {
                                Some(value) => {
                                    found.size = Some(value);
                                },
                                None => {
                                    return Err(DeriveError::Malformed);
                                },
                            },
                            _ => {
                                return Err(DeriveError::Malformed);
                            },
                        }
                        at = at + 3;
                    } else {
                        return Err(DeriveError::Malformed);
                    }
                } else if same_text(key.as_str(), "size_fn") {
                    if is_assigned && at + 2 < tokens.len() {
                        match &tokens[at + 2] {
                            Token::Ident(name) => {
                                found.size_fn = Some(name.clone());
                            },
                            _ => {
                                return Err(DeriveError::Malformed);
                            },
                        }
                        at = at + 3;
                    } else {
                        return Err(DeriveError::Malformed);
                    }
                } else if same_text(key.as_str(), "ignore") {
                    if !is_assigned {
                        found.ignore = Some(true);
                        at = at + 1;
                    } else if at + 2 < tokens.len() {
                        match &tokens[at + 2] {
                            Token::Ident(value) => {
                                if same_text(value.as_str(), "true") {
                                    found.ignore = Some(true);
                                } else if same_text(value.as_str(), "false") {
                                    found.ignore = Some(false);
                                } else {
                                    return Err(DeriveError::Malformed);
                                }
                            },
                            _ => {
                                return Err(DeriveError::Malformed);
                            },
                        }
                        at = at + 3;
                    } else {
                        return Err(DeriveError::Malformed);
                    }
                } else {
                    return Err(DeriveError::UnknownKey);
                }
            },
            _ => {
                return Err(DeriveError::Malformed);
            },
        }
        if at < tokens.len() {
            if tokens[at].is_punct(',') {
                at = at + 1;
            } else {
                return Err(DeriveError::Malformed);
            }
        }
    }
    Ok(found)
}

/// The directives of the annotations from `at` on, added to `found`. Only
/// annotations with the path `get_size` count. Each must hold a list of
/// arguments.
pub open spec fn field_directives(
    attributes: Seq<AttributeView>,
    at: int,
    found: DirectivesView,
) -> Result<DirectivesView, DeriveError>
    decreases attributes.len() - at,
{
    if at < 0 || at >= attributes.len() {
        Ok(found)
    } else if attributes[at].path != "get_size"@ {
        field_directives(attributes, at + 1, found)
    } else {
        match attributes[at].arguments {
            ArgumentsView::List(tokens) => match directives_from(
                tokens,
                0,
                DirectivesView::unset(),
            ) {
                Err(error) => Err(error),
                Ok(given) => match found.merge(given) {
                    Err(error) => Err(error),
                    Ok(found) => field_directives(attributes, at + 1, found),
                },
            },
            _ => Err(DeriveError::Malformed),
        }
    }
}

/// What a field contributes to the heap size of its record.
#[derive(Debug)]
pub enum Rule {
    /// The heap size of the field's value.
    Measure,
    /// Nothing; the field is not looked at.
    Ignore,
    /// A constant.
    Fixed(usize),
    /// What the named function returns for the field's value.
    Custom(String),
}

pub enum RuleView {
    Measure,
    Ignore,
    Fixed(usize),
    Custom(Seq<char>),
}

impl View for Rule {
    type V = RuleView;

    open spec fn view(&self) -> RuleView {
        match self {
            Rule::Measure => RuleView::Measure,
            Rule::Ignore => RuleView::Ignore,
            Rule::Fixed(bytes) => RuleView::Fixed(*bytes),
            Rule::Custom(function) => RuleView::Custom(function@),
        }
    }
}

impl DirectivesView {
    /// How many of the three keys are given.
    pub open spec fn given(self) -> nat {
        (if self.size is Some {
            1nat
        } else {
            0nat
        }) + (if self.size_fn is Some {
            1nat
        } else {
            0nat
        }) + (if self.ignore is Some {
            1nat
        } else {
            0nat
        })
    }

    /// The rule that the directives stand for. The three keys exclude each
    /// other, also where `ignore` is given as `false`.
    pub open spec fn rule(self) -> Result<RuleView, DeriveError> {
        if self.given() > 1 {
            Err(DeriveError::Conflict)
        } else if self.size is Some {
            Ok(RuleView::Fixed(self.size->Some_0))
        } else if self.size_fn is Some {
            Ok(RuleView::Custom(self.size_fn->Some_0))
        } else if self.ignore == Some(true) {
            Ok(RuleView::Ignore)
        } else {
            Ok(RuleView::Measure)
        }
    }
}

/// The rule that the annotations on a field give.
pub open spec fn field_rule(attributes: Seq<AttributeView>) -> Result<RuleView, DeriveError> {
    match field_directives(attributes, 0, DirectivesView::unset()) {
        Err(error) => Err(error),
        Ok(found) => found.rule(),
    }
}

impl Directives {
    /// The directives of two annotations together.
    pub fn merge(self, other: Directives) -> (result: Result<Directives, DeriveError>)
        ensures
            lift(result) == self@.merge(other@),
    {
        let Directives { size, size_fn, ignore } = self;
        let Directives { size: other_size, size_fn: other_size_fn, ignore: other_ignore } = other;
        if (size.is_some() && other_size.is_some()) || (size_fn.is_some()
            && other_size_fn.is_some()) || (ignore.is_some() && other_ignore.is_some()) {
            return Err(DeriveError::DuplicateKey);
        }
        Ok(
            Directives {
                size: if size.is_some() {
                    size
                } else {
                    other_size
                },
                size_fn: if size_fn.is_some() {
                    size_fn
                } else {
                    other_size_fn
                },
                ignore: if ignore.is_some() {
                    ignore
                } else {
                    other_ignore
                },
            },
        )
    }

    /// Reads the directives that the annotations on a field give.
    pub fn from_attributes(attributes: &Vec<Attribute>) -> (result: Result<Directives, DeriveError>)
        ensures
            lift(result) == field_directives(attribute_views(attributes@), 0, DirectivesView::unset()),
    {
        let mut found = Directives { size: None, size_fn: None, ignore: None };
        let ghost views = attribute_views(attributes@);
        for at in 0..attributes.len()
            invariant
                views == attribute_views(attributes@),
                field_directives(views, 0, DirectivesView::unset()) == field_directives(
                    views,
                    at as int,
                    found@,
                ),
        {
            let attribute = &attributes[at];
            if same_text(attribute.path.as_str(), "get_size") {
                match &attribute.arguments {
                    Arguments::List(tokens) => {
                        let given = parse_directives(tokens)?;
                        found = found.merge(given)?;
                    },
                    _ => {
                        return Err(DeriveError::Malformed);
                    },
                }
            }
        }
        Ok(found)
    }

    /// The rule that the directives stand for.
    pub fn rule(self) -> (result: Result<Rule, DeriveError>)
        ensures
            lift(result) == self@.rule(),
    {
        let Directives { size, size_fn, ignore } = self;
        let mut given: u8 = 0;
        if size.is_some() {
            given = given + 1;
        }
        if size_fn.is_some() {
            given = given + 1;
        }
        if ignore.is_some() {
            given = given + 1;
        }
        if given > 1 {
            return Err(DeriveError::Conflict);
        }
        match size {
            Some(bytes) => Ok(Rule::Fixed(bytes)),
            None => match size_fn {
                Some(function) => Ok(Rule::Custom(function)),
                None => match ignore {
                    Some(true) => Ok(Rule::Ignore),
                    _ => Ok(Rule::Measure),
                },
            },
        }
    }
}

/// Reads the rule that the annotations on a field give.
pub fn parse_field_rule(attributes: &Vec<Attribute>) -> (result: Result<Rule, DeriveError>)
    ensures
        lift(result) == field_rule(attribute_views(attributes@)),
{
    Directives::from_attributes(attributes)?.rule()
}

/// `items` followed by the items of `rest`, if `rest` has any.
pub open spec fn followed_by<T>(items: Seq<T>, rest: Result<Seq<T>, DeriveError>) -> Result<
    Seq<T>,
    DeriveError,
> {
    match rest {
        Err(error) => Err(error),
        Ok(more) => Ok(items + more),
    }
}

/// Reads the names from `at` on: one name or more, separated by commas, with
/// or without a comma after the last.
pub open spec fn names_from(tokens: Seq<InnerToken>, at: int) -> Result<Seq<Seq<char>>, DeriveError>
    decreases tokens.len() - at,
{
    if at < 0 || at >= tokens.len() {
        Err(DeriveError::Malformed)
    } else {
        match tokens[at] {
            InnerToken::Ident(name) => if at + 1 >= tokens.len() {
                Ok(seq![name])
            } else if tokens[at + 1] != InnerToken::Punct(',') {
                Err(DeriveError::Malformed)
            } else if at + 2 >= tokens.len() {
                Ok(seq![name])
            } else {
                followed_by(seq![name], names_from(tokens, at + 2))
            },
            _ => Err(DeriveError::Malformed),
        }
    }
}

/// Reads the exemptions from `at` on: entries of the form `ignore(names)`,
/// separated by commas, with or without a comma after the last.
pub open spec fn exemptions_from(tokens: Seq<TokenView>, at: int) -> Result<
    Seq<Seq<char>>,
    DeriveError,
>
    decreases tokens.len() - at,
{
    if at < 0 || at >= tokens.len() {
        Ok(Seq::empty())
    } else {
        match tokens[at] {
            TokenView::Ident(key) => if key != "ignore"@ {
                Err(DeriveError::UnknownKey)
            } else if at + 1 >= tokens.len() {
                Err(DeriveError::Malformed)
            } else {
                match tokens[at + 1] {
                    TokenView::Group(Delimiter::Parenthesis, inner) => match names_from(inner, 0) {
                        Err(error) => Err(error),
                        Ok(names) => if at + 2 >= tokens.len() {
                            Ok(names)
                        } else if tokens[at + 2] != TokenView::Punct(',') {
                            Err(DeriveError::Malformed)
                        } else {
                            followed_by(names, exemptions_from(tokens, at + 3))
                        },
                    },
                    _ => Err(DeriveError::Malformed),
                }
            },
            _ => Err(DeriveError::Malformed),
        }
    }
}

/// The generic parameters that one annotation exempts. An annotation with
/// another path than `get_size` exempts none; one with that path must hold a
/// list of arguments.
pub open spec fn exemptions_of(attribute: AttributeView) -> Result<Seq<Seq<char>>, DeriveError> {
    if attribute.path != "get_size"@ {
        Ok(Seq::empty())
    } else {
        match attribute.arguments {
            ArgumentsView::List(tokens) => exemptions_from(tokens, 0),
            _ => Err(DeriveError::Malformed),
        }
    }
}

/// The generic parameters that the annotations from `at` on exempt, in the
/// order in which they are written.
pub open spec fn exemptions_in(attributes: Seq<AttributeView>, at: int) -> Result<
    Seq<Seq<char>>,
    DeriveError,
>
    decreases attributes.len() - at,
{
    if at < 0 || at >= attributes.len() {
        Ok(Seq::empty())
    } else {
        match exemptions_of(attributes[at]) {
            Err(error) => Err(error),
            Ok(names) => followed_by(names, exemptions_in(attributes, at + 1)),
        }
    }
}

/// The views of the names in a result.
pub open spec fn lift_names(result: Result<Vec<String>, DeriveError>) -> Result<
    Seq<Seq<char>>,
    DeriveError,
> {
    match result {
        Ok(names) => Ok(name_views(names@)),
        Err(error) => Err(error),
    }
}

/// Reads the names inside `ignore(..)`.
fn parse_names(tokens: &Vec<Token>) -> (result: Result<Vec<String>, DeriveError>)
    ensures
        lift_names(result) == names_from(tokens@.map_values(|t: Token| t.inner()), 0),
{
    let ghost views = tokens@.map_values(|t: Token| t.inner());
    let mut names: Vec<String> = Vec::new();
    let mut at: usize = 0;
    loop
        invariant
            at <= tokens.len(),
            views == tokens@.map_values(|t: Token| t.inner()),
            names_from(views, 0) == followed_by(name_views(names@), names_from(views, at as int)),
        decreases tokens.len() - at,
    {
        if at >= tokens.len() {
            return Err(DeriveError::Malformed);
        }
        let ghost sofar = name_views(names@);
        match &tokens[at] {
            Token::Ident(name) => {
                names.push(name.clone());
                proof {
                    assert(name_views(names@) =~= sofar + seq![name@]);
                    assert forall|more: Seq<Seq<char>>|
                        sofar + (seq![name@] + more) == name_views(names@) + more by {
                        assert(sofar + (seq![name@] + more) =~= name_views(names@) + more);
                    }
                }
                if at + 1 >= tokens.len() {
                    return Ok(names);
                }
                if !tokens[at + 1].is_punct(',') {
                    return Err(DeriveError::Malformed);
                }
                if at + 2 >= tokens.len() {
                    return Ok(names);
                }
                at = at + 2;
            },
            _ => {
                return Err(DeriveError::Malformed);
            },
        }
    }
}

/// Reads the generic parameters that one annotation exempts from the size
/// protocol: `#[get_size(ignore(A, B))]` gives `A` and `B`.
pub fn extract_ignored_generics(attr: &Attribute) -> (result: Result<Vec<String>, DeriveError>)
    ensures
        lift_names(result) == exemptions_of(attr@),
{
    let mut collection: Vec<String> = Vec::new();
    // Skip all annotations which do not belong to us.
    if !same_text(attr.path.as_str(), "get_size") {
        assert(name_views(collection@) =~= Seq::empty());
        return Ok(collection);
    }
    // Make sure it is a list.
    let tokens = match &attr.arguments {
        Arguments::List(tokens) => tokens,
        _ => {
            return Err(DeriveError::Malformed);
        },
    };
    let ghost views = token_views(tokens@);
    let mut at: usize = 0;
    proof {
        assert(attr@.arguments == ArgumentsView::List(views));
        assert(name_views(collection@) =~= Seq::empty());
        assert(match exemptions_from(views, 0) {
            Err(error) => true,
            Ok(names) => Seq::<Seq<char>>::empty() + names =~= names,
        });
    }
    while at < tokens.len()
        invariant
            at <= tokens.len(),
            views == token_views(tokens@),
            exemptions_of(attr@) == exemptions_from(views, 0),
            exemptions_from(views, 0) == followed_by(
                name_views(collection@),
                exemptions_from(views, at as int),
            ),
        decreases tokens.len() - at,
    {
        match &tokens[at] {
            Token::Ident(key) => {
                if !same_text(key.as_str(), "ignore") {
                    return Err(DeriveError::UnknownKey);
                }
                if at + 1 >= tokens.len() {
                    return Err(DeriveError::Malformed);
                }
                match &tokens[at + 1] {
                    Token::Group(delimiter, inner) => {
                        if *delimiter != Delimiter::Parenthesis {
                            return Err(DeriveError::Malformed);
                        }
                        let mut names = parse_names(inner)?;
                        let ghost sofar = name_views(collection@);
                        let ghost added = name_views(names@);
                        collection.append(&mut names);
                        proof {
                            assert(name_views(collection@) =~= sofar + added);
                            assert forall|more: Seq<Seq<char>>|
                                sofar + (added + more) == name_views(collection@) + more by {
                                assert(sofar + (added + more) =~= name_views(collection@) + more);
                            }
                        }
                        if at + 2 >= tokens.len() {
                            return Ok(collection);
                        }
                        if !tokens[at + 2].is_punct(',') {
                            return Err(DeriveError::Malformed);
                        }
                        at = at + 3;
                    },
                    _ => {
                        return Err(DeriveError::Malformed);
                    },
                }
            },
            _ => {
                return Err(DeriveError::Malformed);
            },
        }
    }
    proof {
        assert(name_views(collection@) + Seq::<Seq<char>>::empty() =~= name_views(collection@));
    }
    Ok(collection)
}

/// Reads the generic parameters that the annotations on a type exempt, in
/// the order in which they are written.
pub fn extract_ignored_generics_list(list: &Vec<Attribute>) -> (result: Result<
    Vec<String>,
    DeriveError,
>)
    ensures
        lift_names(result) == exemptions_in(attribute_views(list@), 0),
{
    let mut collection: Vec<String> = Vec::new();
    let ghost views = attribute_views(list@);
    proof {
        assert(name_views(collection@) =~= Seq::empty());
        assert(match exemptions_in(views, 0) {
            Err(error) => true,
            Ok(names) => Seq::<Seq<char>>::empty() + names =~= names,
        });
    }
    for at in 0..list.len()
        invariant
            views == attribute_views(list@),
            exemptions_in(views, 0) == followed_by(
                name_views(collection@),
                exemptions_in(views, at as int),
            ),
    {
        let mut names = extract_ignored_generics(&list[at])?;
        let ghost sofar = name_views(collection@);
        let ghost added = name_views(names@);
        collection.append(&mut names);
        proof {
            assert(name_views(collection@) =~= sofar + added);
            assert forall|more: Seq<Seq<char>>|
                sofar + (added + more) == name_views(collection@) + more by {
                assert(sofar + (added + more) =~= name_views(collection@) + more);
            }
        }
    }
    proof {
        assert(name_views(collection@) + Seq::<Seq<char>>::empty() =~= name_views(collection@));
    }
    Ok(collection)
}

} // verus!
