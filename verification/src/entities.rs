//! The entity model the rule sets read: classes, their properties and
//! methods, and the methods' parameters, together with the source positions
//! attached to them. Values of these types are built by the caller and are
//! only read here.
//!
//! Each exec type has a view type (`PosV`, `ClassV`, ...) whose fields are
//! mathematical values; every contract in this crate speaks of those views.
use vstd::prelude::*;

verus! {

/// Where an entity was declared: a filename and a line, both opaque strings.
pub struct SourcePosition {
    pub filename: String,
    pub line: String,
}

/// View of a source position.
pub struct PosV {
    pub filename: Seq<char>,
    pub line: Seq<char>,
}

impl View for SourcePosition {
    type V = PosV;

    open spec fn view(&self) -> PosV {
        PosV { filename: self.filename@, line: self.line@ }
    }
}

/// The view of an optional borrowed position, as stored or reported.
pub open spec fn opt_pos_view(pos: Option<&SourcePosition>) -> Option<PosV> {
    match pos {
        Some(p) => Some(p@),
        None => None,
    }
}

/// The view of an optional owned position.
pub open spec fn opt_pos_owned_view(pos: Option<SourcePosition>) -> Option<PosV> {
    match pos {
        Some(p) => Some(p@),
        None => None,
    }
}

/// The view of an optional documentation string.
pub open spec fn opt_doc_view(doc: Option<String>) -> Option<Seq<char>> {
    match doc {
        Some(d) => Some(d@),
        None => None,
    }
}

/// The view of an optional name (getter, setter, finish function, ...).
pub open spec fn opt_name_view(name: Option<String>) -> Option<Seq<char>> {
    match name {
        Some(n) => Some(n@),
        None => None,
    }
}

/// How a callback-typed parameter's lifetime is classified.
#[derive(Clone, Copy, PartialEq, Eq, Structural)]
pub enum FunctionScope {
    /// Valid only for the duration of the call.
    Call,
    /// Valid until the asynchronous call completes.
    Async,
    /// Valid until an explicit destroy notification.
    Notified,
    /// Valid for the rest of the process's lifetime.
    Forever,
}

/// One parameter of a method.
pub struct Parameter {
    pub name: String,
    pub doc: Option<String>,
    pub position: Option<SourcePosition>,
    pub scope: Option<FunctionScope>,
    pub closure: Option<usize>,
    pub destroy: Option<usize>,
}

/// View of a parameter.
pub struct ParameterV {
    pub name: Seq<char>,
    pub doc: Option<Seq<char>>,
    pub position: Option<PosV>,
    pub scope: Option<FunctionScope>,
    pub closure: Option<usize>,
    pub destroy: Option<usize>,
}

impl View for Parameter {
    type V = ParameterV;

    open spec fn view(&self) -> ParameterV {
        ParameterV {
            name: self.name@,
            doc: opt_doc_view(self.doc),
            position: opt_pos_owned_view(self.position),
            scope: self.scope,
            closure: self.closure,
            destroy: self.destroy,
        }
    }
}

/// One method of a class.
pub struct Method {
    pub name: String,
    pub c_identifier: Option<String>,
    pub doc: Option<String>,
    pub position: Option<SourcePosition>,
    pub deprecated: bool,
    pub finish_func: Option<String>,
    pub parameters: Vec<Parameter>,
    pub get_property: Option<String>,
    pub set_property: Option<String>,
}

/// View of a method.
pub struct MethodV {
    pub name: Seq<char>,
    pub c_identifier: Option<Seq<char>>,
    pub doc: Option<Seq<char>>,
    pub position: Option<PosV>,
    pub deprecated: bool,
    pub finish_func: Option<Seq<char>>,
    pub parameters: Seq<ParameterV>,
    pub get_property: Option<Seq<char>>,
    pub set_property: Option<Seq<char>>,
}

impl View for Method {
    type V = MethodV;

    open spec fn view(&self) -> MethodV {
        MethodV {
            name: self.name@,
            c_identifier: opt_name_view(self.c_identifier),
            doc: opt_doc_view(self.doc),
            position: opt_pos_owned_view(self.position),
            deprecated: self.deprecated,
            finish_func: opt_name_view(self.finish_func),
            parameters: self.parameters@.map_values(|p: Parameter| p@),
            get_property: opt_name_view(self.get_property),
            set_property: opt_name_view(self.set_property),
        }
    }
}

/// One property of a class.
pub struct Property {
    pub name: String,
    pub doc: Option<String>,
    pub position: Option<SourcePosition>,
    pub deprecated: bool,
    pub readable: bool,
    pub writable: bool,
    pub construct_only: bool,
    pub getter: Option<String>,
    pub setter: Option<String>,
}

/// View of a property.
pub struct PropertyV {
    pub name: Seq<char>,
    pub doc: Option<Seq<char>>,
    pub position: Option<PosV>,
    pub deprecated: bool,
    pub readable: bool,
    pub writable: bool,
    pub construct_only: bool,
    pub getter: Option<Seq<char>>,
    pub setter: Option<Seq<char>>,
}

impl View for Property {
    type V = PropertyV;

    open spec fn view(&self) -> PropertyV {
        PropertyV {
            name: self.name@,
            doc: opt_doc_view(self.doc),
            position: opt_pos_owned_view(self.position),
            deprecated: self.deprecated,
            readable: self.readable,
            writable: self.writable,
            construct_only: self.construct_only,
            getter: opt_name_view(self.getter),
            setter: opt_name_view(self.setter),
        }
    }
}

/// One class: the root entity the rule sets walk.
pub struct Class {
    pub name: String,
    pub doc: Option<String>,
    pub position: Option<SourcePosition>,
    pub deprecated: bool,
    pub properties: Vec<Property>,
    pub methods: Vec<Method>,
}

/// View of a class.
pub struct ClassV {
    pub name: Seq<char>,
    pub doc: Option<Seq<char>>,
    pub position: Option<PosV>,
    pub deprecated: bool,
    pub properties: Seq<PropertyV>,
    pub methods: Seq<MethodV>,
}

impl View for Class {
    type V = ClassV;

    open spec fn view(&self) -> ClassV {
        ClassV {
            name: self.name@,
            doc: opt_doc_view(self.doc),
            position: opt_pos_owned_view(self.position),
            deprecated: self.deprecated,
            properties: self.properties@.map_values(|p: Property| p@),
            methods: self.methods@.map_values(|m: Method| m@),
        }
    }
}

} // verus!
