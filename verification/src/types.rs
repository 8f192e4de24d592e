//! The typed project representation the parser produces, together with the
//! mathematical view of each type.
//!
//! Every executable type `X` here has a `SpecX` counterpart whose text fields
//! are character sequences and whose maps are `Map`s; the parser's contracts
//! are stated over those views.

use vstd::prelude::*;
use crate::dict::Dict;

verus! {

/// A field or argument type of the DSL: three primitives, each also in a
/// nullable form (spelled with a `?` suffix in source).
#[derive(Debug, Clone, Copy, PartialEq, Eq, Structural)]
pub enum Type {
    Integer,
    String,
    Boolean,
    NullableInteger,
    NullableString,
    NullableBoolean,
}

impl View for Type {
    type V = Type;

    open spec fn view(&self) -> Type {
        *self
    }
}

impl DeepView for Type {
    type V = Type;

    open spec fn deep_view(&self) -> Type {
        *self
    }
}

/// The HTTP verb of a method's request.
#[derive(Debug, Clone, Copy, PartialEq, Eq, Structural)]
pub enum RequestType {
    GET,
    POST,
    PATCH,
    DELETE,
}

impl View for RequestType {
    type V = RequestType;

    open spec fn view(&self) -> RequestType {
        *self
    }
}

impl DeepView for RequestType {
    type V = RequestType;

    open spec fn deep_view(&self) -> RequestType {
        *self
    }
}

/// Where a request parameter's value is sourced from: the project's Global
/// shape, the enclosing object's shape, or the method's own argument list.
#[derive(Debug, PartialEq)]
pub enum Value {
    Global(String),
    Parent(String),
    Argument(String),
}

/// The view of a [`Value`].
pub enum SpecValue {
    Global(Seq<char>),
    Parent(Seq<char>),
    Argument(Seq<char>),
}

impl View for Value {
    type V = SpecValue;

    open spec fn view(&self) -> SpecValue {
        match self {
            Value::Global(s) => SpecValue::Global(s@),
            Value::Parent(s) => SpecValue::Parent(s@),
            Value::Argument(s) => SpecValue::Argument(s@),
        }
    }
}

impl DeepView for Value {
    type V = SpecValue;

    open spec fn deep_view(&self) -> SpecValue {
        self.view()
    }
}

impl Clone for Value {
    fn clone(&self) -> (res: Self)
        ensures
            res == *self,
    {
        match self {
            Value::Global(s) => Value::Global(s.clone()),
            Value::Parent(s) => Value::Parent(s.clone()),
            Value::Argument(s) => Value::Argument(s.clone()),
        }
    }
}

/// Mapping from field name to type, for Global and Object shapes.
pub type ObjectShape = Dict<Type>;

/// Mapping from argument name to type.
pub type MethodArguments = Dict<Type>;

/// Mapping from request-parameter name to the source of its value.
pub type RequestShape = Dict<Value>;

/// Mapping from returned field name to an optional alias.
pub type ReturnShape = Dict<Option<String>>;

/// The project's single top-level declaration: a head route plus a shared
/// shape and the list of method names it exposes.
#[derive(Debug)]
pub struct Global {
    pub name: String,
    pub head_route: String,
    pub shape: ObjectShape,
    pub methods: Vec<String>,
}

/// The view of a [`Global`].
pub struct SpecGlobal {
    pub name: Seq<char>,
    pub head_route: Seq<char>,
    pub shape: Map<Seq<char>, Type>,
    pub methods: Seq<Seq<char>>,
}

impl View for Global {
    type V = SpecGlobal;

    open spec fn view(&self) -> SpecGlobal {
        SpecGlobal {
            name: self.name@,
            head_route: self.head_route@,
            shape: self.shape@,
            methods: self.methods.deep_view(),
        }
    }
}

impl DeepView for Global {
    type V = SpecGlobal;

    open spec fn deep_view(&self) -> SpecGlobal {
        self.view()
    }
}

/// A named data shape bound to a set of exposed method names.
#[derive(Debug)]
pub struct Object {
    pub name: String,
    pub shape: ObjectShape,
    pub methods: Vec<String>,
}

/// The view of an [`Object`].
pub struct SpecObject {
    pub name: Seq<char>,
    pub shape: Map<Seq<char>, Type>,
    pub methods: Seq<Seq<char>>,
}

impl View for Object {
    type V = SpecObject;

    open spec fn view(&self) -> SpecObject {
        SpecObject { name: self.name@, shape: self.shape@, methods: self.methods.deep_view() }
    }
}

impl DeepView for Object {
    type V = SpecObject;

    open spec fn deep_view(&self) -> SpecObject {
        self.view()
    }
}

/// A named endpoint: arguments, route, HTTP verb, request field sourcing,
/// return field selection and aliasing.
#[derive(Debug)]
pub struct Method {
    pub name: String,
    pub arguments: MethodArguments,
    pub route: String,
    pub request_shape: RequestShape,
    pub request_type: RequestType,
    pub return_shape: ReturnShape,
    pub return_object: String,
}

/// The view of a [`Method`].
pub struct SpecMethod {
    pub name: Seq<char>,
    pub arguments: Map<Seq<char>, Type>,
    pub route: Seq<char>,
    pub request_shape: Map<Seq<char>, SpecValue>,
    pub request_type: RequestType,
    pub return_shape: Map<Seq<char>, Option<Seq<char>>>,
    pub return_object: Seq<char>,
}

impl View for Method {
    type V = SpecMethod;

    open spec fn view(&self) -> SpecMethod {
        SpecMethod {
            name: self.name@,
            arguments: self.arguments@,
            route: self.route@,
            request_shape: self.request_shape@,
            request_type: self.request_type,
            return_shape: self.return_shape@,
            return_object: self.return_object@,
        }
    }
}

impl DeepView for Method {
    type V = SpecMethod;

    open spec fn deep_view(&self) -> SpecMethod {
        self.view()
    }
}

/// The whole parsed project: exactly one Global, and the Objects and Methods
/// keyed by their declared names.
#[derive(Debug)]
pub struct Project {
    pub global: Global,
    pub objects: Dict<Object>,
    pub methods: Dict<Method>,
}

/// The view of a [`Project`].
pub struct SpecProject {
    pub global: SpecGlobal,
    pub objects: Map<Seq<char>, SpecObject>,
    pub methods: Map<Seq<char>, SpecMethod>,
}

impl View for Project {
    type V = SpecProject;

    open spec fn view(&self) -> SpecProject {
        SpecProject { global: self.global@, objects: self.objects@, methods: self.methods@ }
    }
}

impl DeepView for Project {
    type V = SpecProject;

    open spec fn deep_view(&self) -> SpecProject {
        self.view()
    }
}

/// The view of a `Result` whose two sides both have views.
pub open spec fn rview<T: DeepView, E: DeepView>(r: &Result<T, E>) -> Result<T::V, E::V> {
    match r {
        Ok(t) => Ok(t.deep_view()),
        Err(e) => Err(e.deep_view()),
    }
}

} // verus!
