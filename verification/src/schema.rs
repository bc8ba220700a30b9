//! The raw schema handed in by a definition extractor: an ordered list
//! of variants, each an identifier with zero or more raw attribute
//! declarations, together with the errors that reject a bad schema.

use vstd::prelude::*;

verus! {

/// The value carried by a key-value attribute declaration: a string
/// literal, or a literal of any other kind.
pub enum RawValue {
    Str(String),
    Other,
}

/// Mathematical model of a [`RawValue`].
pub enum RawValueModel {
    Str(Seq<char>),
    Other,
}

impl View for RawValue {
    type V = RawValueModel;

    open spec fn view(&self) -> RawValueModel {
        match self {
            RawValue::Str(s) => RawValueModel::Str(s@),
            RawValue::Other => RawValueModel::Other,
        }
    }
}

/// The shape of one raw attribute declaration: `key = literal`,
/// `key(name, name, ...)`, or anything else.
pub enum RawDecl {
    KeyValue { key: String, value: RawValue },
    KeyList { key: String, names: Vec<String> },
    Other,
}

/// Mathematical model of a [`RawDecl`].
pub enum RawDeclModel {
    KeyValue { key: Seq<char>, value: RawValueModel },
    KeyList { key: Seq<char>, names: Seq<Seq<char>> },
    Other,
}

impl View for RawDecl {
    type V = RawDeclModel;

    open spec fn view(&self) -> RawDeclModel {
        match self {
            RawDecl::KeyValue { key, value } => RawDeclModel::KeyValue {
                key: key@,
                value: value@,
            },
            RawDecl::KeyList { key, names } => RawDeclModel::KeyList {
                key: key@,
                names: names@.map_values(|n: String| n@),
            },
            RawDecl::Other => RawDeclModel::Other,
        }
    }
}

/// One raw attribute declaration, together with how it is attached to
/// its variant: `inner` marks the structurally invalid inner position.
pub struct RawAttr {
    pub inner: bool,
    pub decl: RawDecl,
}

/// Mathematical model of a [`RawAttr`].
pub struct RawAttrModel {
    pub inner: bool,
    pub decl: RawDeclModel,
}

impl View for RawAttr {
    type V = RawAttrModel;

    open spec fn view(&self) -> RawAttrModel {
        RawAttrModel { inner: self.inner, decl: self.decl@ }
    }
}

/// One variant of the raw schema: its identifier and its raw attribute
/// declarations, in declaration order.
pub struct RawVariant {
    pub identifier: String,
    pub attrs: Vec<RawAttr>,
}

/// Mathematical model of a [`RawVariant`].
pub struct RawVariantModel {
    pub identifier: Seq<char>,
    pub attrs: Seq<RawAttrModel>,
}

impl View for RawVariant {
    type V = RawVariantModel;

    open spec fn view(&self) -> RawVariantModel {
        RawVariantModel {
            identifier: self.identifier@,
            attrs: self.attrs@.map_values(|a: RawAttr| a@),
        }
    }
}

/// Why a schema failed to compile. Each error names the offending
/// variant; an unknown style name is reported together with the name.
#[derive(Debug)]
pub enum CompileError {
    UnknownStyleName { variant: String, name: String },
    MalformedAttribute { variant: String },
    MisplacedAttribute { variant: String },
    DuplicateIdentifier { identifier: String },
}

/// Mathematical model of a [`CompileError`].
pub enum ErrorModel {
    UnknownStyleName { variant: Seq<char>, name: Seq<char> },
    MalformedAttribute { variant: Seq<char> },
    MisplacedAttribute { variant: Seq<char> },
    DuplicateIdentifier { identifier: Seq<char> },
}

impl View for CompileError {
    type V = ErrorModel;

    open spec fn view(&self) -> ErrorModel {
        match self {
            CompileError::UnknownStyleName { variant, name } => ErrorModel::UnknownStyleName {
                variant: variant@,
                name: name@,
            },
            CompileError::MalformedAttribute { variant } => ErrorModel::MalformedAttribute {
                variant: variant@,
            },
            CompileError::MisplacedAttribute { variant } => ErrorModel::MisplacedAttribute {
                variant: variant@,
            },
            CompileError::DuplicateIdentifier { identifier } => ErrorModel::DuplicateIdentifier {
                identifier: identifier@,
            },
        }
    }
}

} // verus!
