//! The attributes written on an annotated function, reduced to what reading
//! them needs: names and literal values.

use vstd::prelude::*;
use vstd::string::StringExecFns;

verus! {

/// A literal value.
#[derive(Debug, PartialEq)]
pub enum Lit {
    /// A string literal, with its content.
    Str(String),
    /// A boolean literal.
    Bool(bool),
    /// A literal of another kind.
    Other,
}

/// Values an [attr](Attr) can have.
#[derive(Debug, PartialEq)]
pub enum Value {
    /// An identifier.
    Ident(String),
    /// A literal value.
    Lit(Lit),
}

/// A simplified version of an attribute.
#[derive(Debug, PartialEq)]
pub struct Attr {
    /// The path of this attribute.
    ///
    /// e.g.: In `#[name = "some"]`, the part of `name` is the path of the attribute.
    pub path: String,
    /// The values the attribute was given.
    pub values: Vec<Value>,
}

/// An item inside the parentheses of an attribute.
#[derive(Debug, PartialEq)]
pub enum NestedMeta {
    /// A literal, as in `#[names("some")]`.
    Lit(Lit),
    /// A single identifier, as in `#[checks(some)]`.
    Ident(String),
    /// A nested list or a name with a value, as in `#[a(b(c))]` or `#[a(b = 1)]`.
    Other,
}

/// The content of an attribute as it is written.
#[derive(Debug, PartialEq)]
pub enum Meta {
    /// A bare path, as in `#[some]`.
    Path(String),
    /// A path with a list, as in `#[some(a, "b")]`.
    List(String, Vec<NestedMeta>),
    /// A path with a value, as in `#[some = "a"]`.
    NameValue(String, Lit),
}

/// Why an attribute could not be read.
#[derive(Clone, Copy, Debug, PartialEq, Eq, Structural)]
pub enum AttrError {
    /// The attribute has no value where one is needed.
    Empty,
    /// The attribute has more than one value where one is needed.
    TooMany,
    /// The value at this position is a literal that is not a string.
    NotSupported(usize),
    /// The value at this position is a literal where only identifiers may stand.
    LiteralsForbidden(usize),
    /// The value is not an identifier.
    NotIdentifier,
    /// The value is not a string literal.
    NotString,
    /// The value is not a boolean literal.
    NotBoolean,
    /// The item at this position is a nested list or a name with a value.
    NestedUnsupported(usize),
}

impl AttrError {
    /// The text that describes this error.
    pub open spec fn text(self) -> Seq<char> {
        match self {
            AttrError::Empty => "Attribute input must not be empty"@,
            AttrError::TooMany => "Attribute input must not exceed more than one argument"@,
            AttrError::NotSupported(_) => "Not supported"@,
            AttrError::LiteralsForbidden(_) => "Literals are forbidden"@,
            AttrError::NotIdentifier => "Argument must be an identifier"@,
            AttrError::NotString => "Argument must be a string"@,
            AttrError::NotBoolean => "Argument must be a boolean"@,
            AttrError::NestedUnsupported(_) => "Nested lists or name values are not supported"@,
        }
    }

    /// Describes this error.
    pub fn message(&self) -> (r: String)
        ensures
            r@ == self.text(),
    {
        match self {
            AttrError::Empty => String::from_str("Attribute input must not be empty"),
            AttrError::TooMany => String::from_str(
                "Attribute input must not exceed more than one argument",
            ),
            AttrError::NotSupported(_) => String::from_str("Not supported"),
            AttrError::LiteralsForbidden(_) => String::from_str("Literals are forbidden"),
            AttrError::NotIdentifier => String::from_str("Argument must be an identifier"),
            AttrError::NotString => String::from_str("Argument must be a string"),
            AttrError::NotBoolean => String::from_str("Argument must be a boolean"),
            AttrError::NestedUnsupported(_) => String::from_str(
                "Nested lists or name values are not supported",
            ),
        }
    }
}

/// The name a value stands for: an identifier stands for itself and a string
/// literal for its content. Other literals stand for no name.
pub open spec fn name_of(value: Value) -> Option<String> {
    match value {
        Value::Ident(ident) => Some(ident),
        Value::Lit(Lit::Str(content)) => Some(content),
        Value::Lit(_) => None,
    }
}

/// The identifier a value is, if it is one.
pub open spec fn ident_of(value: Value) -> Option<String> {
    match value {
        Value::Ident(ident) => Some(ident),
        Value::Lit(_) => None,
    }
}

/// The value an item inside the parentheses of an attribute gives.
pub open spec fn value_of(item: NestedMeta) -> Option<Value> {
    match item {
        NestedMeta::Lit(lit) => Some(Value::Lit(lit)),
        NestedMeta::Ident(ident) => Some(Value::Ident(ident)),
        NestedMeta::Other => None,
    }
}

/// Whether `found` holds what `read` gives for each of `items`, in order.
pub open spec fn all_read<A, B>(items: Seq<A>, read: spec_fn(A) -> Option<B>, found: Seq<B>) -> bool {
    &&& found.len() == items.len()
    &&& forall|i: int| 0 <= i < items.len() ==> read(#[trigger] items[i]) == Some(found[i])
}

/// Whether `i` is the position of the first of `items` for which `read` gives
/// nothing.
pub open spec fn first_unread<A, B>(items: Seq<A>, read: spec_fn(A) -> Option<B>, i: int) -> bool {
    &&& 0 <= i < items.len()
    &&& read(items[i]) is None
    &&& forall|j: int| 0 <= j < i ==> read(#[trigger] items[j]) is Some
}

impl Attr {
    /// Creates a new [attr](Attr).
    pub fn new(path: String, values: Vec<Value>) -> (r: Self)
        ensures
            r == (Attr { path, values }),
    {
        Self { path, values }
    }

    /// Executes the given function on the single value of the [attr](Attr).
    /// An attribute without a value, or with more than one, is an error.
    pub fn parse_value<T, F: FnOnce(&Value) -> Result<T, AttrError>>(&self, f: F) -> (r: Result<
        T,
        AttrError,
    >)
        requires
            self.values@.len() == 1 ==> call_requires(f, (&self.values@[0],)),
        ensures
            self.values@.len() == 0 ==> r == Err::<T, AttrError>(AttrError::Empty),
            self.values@.len() > 1 ==> r == Err::<T, AttrError>(AttrError::TooMany),
            self.values@.len() == 1 ==> call_ensures(f, (&self.values@[0],), r),
    {
        if self.values.len() == 0 {
            return Err(AttrError::Empty);
        }
        if self.values.len() > 1 {
            return Err(AttrError::TooMany);
        }
        f(&self.values[0])
    }

    /// The single value of the attribute.
    fn single(&self) -> (r: Result<&Value, AttrError>)
        ensures
            self.values@.len() == 0 ==> r == Err::<&Value, AttrError>(AttrError::Empty),
            self.values@.len() > 1 ==> r == Err::<&Value, AttrError>(AttrError::TooMany),
            self.values@.len() == 1 ==> r == Ok::<&Value, AttrError>(&self.values@[0]),
    {
        if self.values.len() == 0 {
            return Err(AttrError::Empty);
        }
        if self.values.len() > 1 {
            return Err(AttrError::TooMany);
        }
        Ok(&self.values[0])
    }

    /// Gets the names this attribute lists, as identifiers or as string
    /// literals, returning an error at the first literal that is no string.
    pub fn parse_all(&self) -> (r: Result<Vec<String>, AttrError>)
        ensures
            match r {
                Ok(names) => all_read(self.values@, |v: Value| name_of(v), names@),
                Err(error) => error matches AttrError::NotSupported(i) && first_unread(
                    self.values@,
                    |v: Value| name_of(v),
                    i as int,
                ),
            },
    {
        let mut names: Vec<String> = Vec::new();
        let mut i: usize = 0;
        while i < self.values.len()
            invariant
                i <= self.values@.len(),
                names@.len() == i,
                forall|j: int| 0 <= j < i ==> name_of(#[trigger] self.values@[j]) == Some(names@[j]),
            decreases self.values@.len() - i,
        {
            match &self.values[i] {
                Value::Ident(ident) => names.push(ident.clone()),
                Value::Lit(Lit::Str(content)) => names.push(content.clone()),
                Value::Lit(_) => {
                    return Err(AttrError::NotSupported(i));
                },
            }
            i += 1;
        }
        Ok(names)
    }

    /// Gets all the identifiers this attribute has, returning an error if this
    /// attribute has literal values instead of identifiers.
    pub fn parse_identifiers(&self) -> (r: Result<Vec<String>, AttrError>)
        ensures
            match r {
                Ok(names) => all_read(self.values@, |v: Value| ident_of(v), names@),
                Err(error) => error matches AttrError::LiteralsForbidden(i) && first_unread(
                    self.values@,
                    |v: Value| ident_of(v),
                    i as int,
                ),
            },
    {
        let mut names: Vec<String> = Vec::new();
        let mut i: usize = 0;
        while i < self.values.len()
            invariant
                i <= self.values@.len(),
                names@.len() == i,
                forall|j: int| 0 <= j < i ==> ident_of(#[trigger] self.values@[j]) == Some(names@[j]),
            decreases self.values@.len() - i,
        {
            match &self.values[i] {
                Value::Ident(ident) => names.push(ident.clone()),
                Value::Lit(_) => {
                    return Err(AttrError::LiteralsForbidden(i));
                },
            }
            i += 1;
        }
        Ok(names)
    }

    /// What [`parse_identifier`](Attr::parse_identifier) gives.
    pub open spec fn identifier(self) -> Result<String, AttrError> {
        if self.values@.len() == 0 {
            Err(AttrError::Empty)
        } else if self.values@.len() > 1 {
            Err(AttrError::TooMany)
        } else {
            match self.values@[0] {
                Value::Ident(ident) => Ok(ident),
                _ => Err(AttrError::NotIdentifier),
            }
        }
    }

    /// Parses the single identifier this attribute has, returning an error if
    /// this attribute has none, has more than one value, or has a literal
    /// instead of an identifier.
    pub fn parse_identifier(&self) -> (r: Result<String, AttrError>)
        ensures
            r == self.identifier(),
    {
        match self.single() {
            Ok(Value::Ident(ident)) => Ok(ident.clone()),
            Ok(_) => Err(AttrError::NotIdentifier),
            Err(error) => Err(error),
        }
    }

    /// What [`parse_string`](Attr::parse_string) gives.
    pub open spec fn string(self) -> Result<String, AttrError> {
        if self.values@.len() == 0 {
            Err(AttrError::Empty)
        } else if self.values@.len() > 1 {
            Err(AttrError::TooMany)
        } else {
            match self.values@[0] {
                Value::Lit(Lit::Str(content)) => Ok(content),
                _ => Err(AttrError::NotString),
            }
        }
    }

    /// Parses the single literal into a string, returning an error if this
    /// attribute has no value, has more than one, or has something else than a
    /// string literal.
    pub fn parse_string(&self) -> (r: Result<String, AttrError>)
        ensures
            r == self.string(),
    {
        match self.single() {
            Ok(Value::Lit(Lit::Str(content))) => Ok(content.clone()),
            Ok(_) => Err(AttrError::NotString),
            Err(error) => Err(error),
        }
    }

    /// What [`parse_bool`](Attr::parse_bool) gives.
    pub open spec fn boolean(self) -> Result<bool, AttrError> {
        if self.values@.len() == 0 {
            Err(AttrError::Empty)
        } else if self.values@.len() > 1 {
            Err(AttrError::TooMany)
        } else {
            match self.values@[0] {
                Value::Lit(Lit::Bool(b)) => Ok(b),
                _ => Err(AttrError::NotBoolean),
            }
        }
    }

    /// Parses the single literal into a bool, returning an error if this
    /// attribute has no value, has more than one, or has something else than a
    /// boolean literal.
    pub fn parse_bool(&self) -> (r: Result<bool, AttrError>)
        ensures
            r == self.boolean(),
    {
        match self.single() {
            Ok(Value::Lit(Lit::Bool(b))) => Ok(*b),
            Ok(_) => Err(AttrError::NotBoolean),
            Err(error) => Err(error),
        }
    }
}

impl Lit {
    /// A copy of this literal.
    pub fn copy(&self) -> (r: Lit)
        ensures
            r == *self,
    {
        match self {
            Lit::Str(content) => Lit::Str(content.clone()),
            Lit::Bool(b) => Lit::Bool(*b),
            Lit::Other => Lit::Other,
        }
    }
}

/// Parses the content of an attribute into an attr.
///
/// A bare path has no values; a path with a value has that literal as its one
/// value; a path with a list has one value for each item, and fails at the
/// first item that is a nested list or a name with a value.
pub fn parse_attribute(meta: &Meta) -> (r: Result<Attr, AttrError>)
    ensures
        match *meta {
            Meta::Path(path) => r matches Ok(attr) && attr.path == path && attr.values@.len() == 0,
            Meta::NameValue(path, lit) => r matches Ok(attr) && attr.path == path && attr.values@
                == seq![Value::Lit(lit)],
            Meta::List(path, nested) => match r {
                Ok(attr) => attr.path == path && all_read(
                    nested@,
                    |item: NestedMeta| value_of(item),
                    attr.values@,
                ),
                Err(error) => error matches AttrError::NestedUnsupported(i) && first_unread(
                    nested@,
                    |item: NestedMeta| value_of(item),
                    i as int,
                ),
            },
        },
{
    match meta {
        Meta::Path(path) => Ok(Attr::new(path.clone(), Vec::new())),
        Meta::NameValue(path, lit) => {
            let mut values: Vec<Value> = Vec::new();
            values.push(Value::Lit(lit.copy()));
            Ok(Attr::new(path.clone(), values))
        },
        Meta::List(path, nested) => {
            let mut values: Vec<Value> = Vec::new();
            let mut i: usize = 0;
            while i < nested.len()
                invariant
                    i <= nested@.len(),
                    *meta is List,
                    (*meta)->List_1 == *nested,
                    values@.len() == i,
                    forall|j: int|
                        0 <= j < i ==> value_of(#[trigger] nested@[j]) == Some(values@[j]),
                decreases nested@.len() - i,
            {
                match &nested[i] {
                    NestedMeta::Lit(lit) => values.push(Value::Lit(lit.copy())),
                    NestedMeta::Ident(ident) => values.push(Value::Ident(ident.clone())),
                    NestedMeta::Other => {
                        return Err(AttrError::NestedUnsupported(i));
                    },
                }
                i += 1;
            }
            Ok(Attr::new(path.clone(), values))
        },
    }
}

} // verus!
