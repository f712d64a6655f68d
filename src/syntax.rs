//! A plain description of the struct that a companion is generated for.
//!
//! Each text field holds Rust source text as the parser gave it back:
//! identifiers, visibilities and types are well formed.
use vstd::prelude::*;

verus! {

/// The declared type of a field, as far as code generation reads it.
#[derive(Clone, Debug, PartialEq)]
pub struct FieldType {
    /// The type as Rust source text.
    pub text: String,
    /// For a path type (`u32`, `std::string::String`, `Vec<T>`), the
    /// identifier of its last segment; `None` for every other type.
    pub last_segment: Option<String>,
}

/// One field of the struct.
#[derive(Clone, Debug, PartialEq)]
pub struct FieldDef {
    /// The field's name; `None` for a field of a tuple struct.
    pub ident: Option<String>,
    /// The field's visibility as source text, empty where none is written.
    pub vis: String,
    pub ty: FieldType,
}

/// What an attribute reads as once its arguments are parsed.
#[derive(Clone, Debug, PartialEq)]
pub enum AttrMeta {
    /// `#[path = "text"]`; holds the string's value.
    NameValueStr(String),
    /// `#[path = literal]` with a literal that is no string.
    NameValueOther,
    /// `#[path]` or `#[path(...)]`.
    OtherForm,
    /// Arguments that do not parse as any of the above.
    Malformed,
}

/// One attribute written on the struct.
#[derive(Clone, Debug, PartialEq)]
pub struct AttrDef {
    /// `true` for `#[...]`, `false` for an inner `#![...]`.
    pub outer: bool,
    /// The attribute's path as source text, segments joined by `::`.
    pub path: String,
    pub meta: AttrMeta,
}

/// The struct that a companion is generated for.
#[derive(Clone, Debug, PartialEq)]
pub struct StructDef {
    /// The struct's visibility as source text, empty where none is written.
    pub vis: String,
    pub ident: String,
    pub attrs: Vec<AttrDef>,
    pub fields: Vec<FieldDef>,
}

/// Why no companion can be generated.
#[derive(Clone, Copy, Debug, PartialEq, Eq, Structural)]
pub enum DeriveError {
    /// A field has no name: tuple structs are not supported.
    UnnamedField,
    /// The name attribute gives a literal that is no string.
    NameNotString,
    /// The name attribute is not of the form `#[MutableStructName = "..."]`.
    NameNotNameValue,
    /// The name attribute's arguments do not parse.
    MalformedName,
    /// The name attribute's string does not read as an identifier.
    InvalidName,
}

impl DeriveError {
    /// The diagnostic for each error.
    pub open spec fn message_text(self) -> Seq<char> {
        match self {
            DeriveError::UnnamedField => "AsMutableStruct needs a struct with named fields"@,
            DeriveError::NameNotString => "Found a MutableStructName that is not a string."@,
            DeriveError::NameNotNameValue => "Format MutableStructName as #[MutableStructName = \"MyMutableName\"]"@,
            DeriveError::MalformedName => "Found a malformed MutableStructName. Format MutableStructName as #[MutableStructName = \"Name\"]"@,
            DeriveError::InvalidName => "The value of MutableStructName is not an identifier."@,
        }
    }

    /// The diagnostic to report for this error.
    pub fn message(&self) -> (r: String)
        ensures
            r@ == self.message_text(),
    {
        match self {
            DeriveError::UnnamedField => String::from_str("AsMutableStruct needs a struct with named fields"),
            DeriveError::NameNotString => String::from_str("Found a MutableStructName that is not a string."),
            DeriveError::NameNotNameValue => String::from_str("Format MutableStructName as #[MutableStructName = \"MyMutableName\"]"),
            DeriveError::MalformedName => String::from_str("Found a malformed MutableStructName. Format MutableStructName as #[MutableStructName = \"Name\"]"),
            DeriveError::InvalidName => String::from_str("The value of MutableStructName is not an identifier."),
        }
    }
}

} // verus!
