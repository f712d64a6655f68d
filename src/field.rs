//! How each field of a struct is mirrored in its companion.
//!
//! A field whose type is a path ending in an identifier that starts with an
//! ASCII lowercase letter (`u32`, `bool`, `std::primitive::f64`) is held in a
//! `Mutable` cell. Every other field is held as its own type's companion: a
//! nested struct that derives the same, or a `Vec`, which becomes a
//! `MutableVec`.
use crate::syntax::{FieldDef, FieldType};
use vstd::prelude::*;

verus! {

/// The shape a field takes in the companion.
#[derive(Clone, Copy, Debug, PartialEq, Eq, Structural)]
pub enum FieldKind {
    /// A `futures_signals::signal::Mutable` cell holding the value.
    Basic,
    /// The companion of the field's own type.
    MutableStruct,
}

/// `c` is one of `a` to `z`.
pub open spec fn is_ascii_lower(c: char) -> bool {
    'a' <= c && c <= 'z'
}

/// The shape that a field of type `ty` takes.
pub open spec fn kind_of(ty: FieldType) -> FieldKind {
    match ty.last_segment {
        Some(seg) => if seg@.len() > 0 && is_ascii_lower(seg@[0]) {
            FieldKind::Basic
        } else {
            FieldKind::MutableStruct
        },
        None => FieldKind::MutableStruct,
    }
}

/// A field's shape together with the source text that code generation uses.
pub ghost struct FieldModel {
    pub kind: FieldKind,
    pub name: Seq<char>,
    pub vis: Seq<char>,
    pub ty: Seq<char>,
}

impl FieldModel {
    /// The field's declaration in the companion struct.
    pub open spec fn definition(self) -> Seq<char> {
        match self.kind {
            FieldKind::Basic => self.vis + " "@ + self.name + ": futures_signals::signal::Mutable<"@
                + self.ty + ">"@,
            FieldKind::MutableStruct => self.vis + " "@ + self.name + ": <"@ + self.ty
                + " as futures_signals_structs::AsMutableStruct>::MutableStructType"@,
        }
    }

    /// The expression that builds the field's cell from the plain value
    /// `snapshot_name`.
    pub open spec fn constructor(self, snapshot_name: Seq<char>) -> Seq<char> {
        match self.kind {
            FieldKind::Basic => "futures_signals::signal::Mutable::new("@ + snapshot_name + "."@
                + self.name + ")"@,
            FieldKind::MutableStruct => snapshot_name + "."@ + self.name + ".as_mutable_struct()"@,
        }
    }

    /// The expression that reads the field's plain value from `self`.
    pub open spec fn snapshot_generator(self) -> Seq<char> {
        match self.kind {
            FieldKind::Basic => "self."@ + self.name + ".get_cloned()"@,
            FieldKind::MutableStruct => "self."@ + self.name + ".snapshot()"@,
        }
    }

    /// The expression that sets the field of `self` from the plain value
    /// `snapshot_name`.
    pub open spec fn update_setter(self, snapshot_name: Seq<char>) -> Seq<char> {
        match self.kind {
            FieldKind::Basic => "self."@ + self.name + ".set("@ + snapshot_name + "."@ + self.name
                + ")"@,
            FieldKind::MutableStruct => "self."@ + self.name + ".update("@ + snapshot_name + "."@
                + self.name + ")"@,
        }
    }
}

/// The model of a named field.
pub open spec fn model_of(def: FieldDef) -> FieldModel {
    FieldModel {
        kind: kind_of(def.ty),
        name: match def.ident {
            Some(name) => name@,
            None => Seq::empty(),
        },
        vis: def.vis@,
        ty: def.ty.text@,
    }
}

/// A field that is to be converted to an observable form and back.
#[derive(Clone, Debug, PartialEq)]
pub struct MutableStructField {
    pub kind: FieldKind,
    pub name: String,
    pub vis: String,
    pub ty: String,
}

impl View for MutableStructField {
    type V = FieldModel;

    open spec fn view(&self) -> FieldModel {
        FieldModel { kind: self.kind, name: self.name@, vis: self.vis@, ty: self.ty@ }
    }
}

impl MutableStructField {
    /// Classifies a named field and keeps the text that code generation needs.
    pub fn from_field(field: &FieldDef) -> (r: MutableStructField)
        requires
            field.ident is Some,
        ensures
            r@ == model_of(*field),
    {
        let kind = if MutableStructField::field_is_primitive(field) {
            FieldKind::Basic
        } else {
            FieldKind::MutableStruct
        };
        let name = match &field.ident {
            Some(name) => name.clone(),
            None => String::new(),
        };
        MutableStructField { kind, name, vis: field.vis.clone(), ty: field.ty.text.clone() }
    }

    /// Returns the declaration of this field in the companion struct.
    pub fn get_mutable_field_definition(&self) -> (r: String)
        ensures
            r@ == self@.definition(),
    {
        let mut s = self.vis.clone();
        s.append(" ");
        s.append(self.name.as_str());
        match self.kind {
            FieldKind::Basic => {
                s.append(": futures_signals::signal::Mutable<");
                s.append(self.ty.as_str());
                s.append(">");
            },
            FieldKind::MutableStruct => {
                s.append(": <");
                s.append(self.ty.as_str());
                s.append(" as futures_signals_structs::AsMutableStruct>::MutableStructType");
            },
        }
        s
    }

    /// Returns the expression that builds this field's cell from the plain
    /// struct named `snapshot_name`.
    pub fn get_constructor(&self, snapshot_name: &str) -> (r: String)
        ensures
            r@ == self@.constructor(snapshot_name@),
    {
        match self.kind {
            FieldKind::Basic => {
                let mut s = String::from_str("futures_signals::signal::Mutable::new(");
                s.append(snapshot_name);
                s.append(".");
                s.append(self.name.as_str());
                s.append(")");
                s
            },
            FieldKind::MutableStruct => {
                let mut s = String::from_str(snapshot_name);
                s.append(".");
                s.append(self.name.as_str());
                s.append(".as_mutable_struct()");
                s
            },
        }
    }

    /// Returns the expression that reads this field's plain value.
    pub fn get_snapshot_generator(&self) -> (r: String)
        ensures
            r@ == self@.snapshot_generator(),
    {
        let mut s = String::from_str("self.");
        s.append(self.name.as_str());
        match self.kind {
            FieldKind::Basic => s.append(".get_cloned()"),
            FieldKind::MutableStruct => s.append(".snapshot()"),
        }
        s
    }

    /// Returns the expression that sets this field from the plain struct
    /// named `snapshot_name`.
    pub fn get_update_setter(&self, snapshot_name: &str) -> (r: String)
        ensures
            r@ == self@.update_setter(snapshot_name@),
    {
        let mut s = String::from_str("self.");
        s.append(self.name.as_str());
        match self.kind {
            FieldKind::Basic => s.append(".set("),
            FieldKind::MutableStruct => s.append(".update("),
        }
        s.append(snapshot_name);
        s.append(".");
        s.append(self.name.as_str());
        s.append(")");
        s
    }

    /// Returns the name of this field.
    pub fn get_name(&self) -> (r: &str)
        ensures
            r@ == self@.name,
    {
        self.name.as_str()
    }

    /// Whether the field is held in a plain `Mutable` cell: its type is a
    /// path whose last identifier starts with an ASCII lowercase letter.
    pub fn field_is_primitive(input: &FieldDef) -> (r: bool)
        ensures
            r == (kind_of(input.ty) == FieldKind::Basic),
    {
        match &input.ty.last_segment {
            Some(seg) => {
                let s = seg.as_str();
                if s.unicode_len() == 0 {
                    false
                } else {
                    let c = s.get_char(0);
                    'a' <= c && c <= 'z'
                }
            },
            None => false,
        }
    }
}

} // verus!
