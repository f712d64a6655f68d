//! The companion of a whole struct: its name, its definition, and the two
//! trait impls that connect it to the plain struct.
use crate::field::{model_of, FieldModel, MutableStructField};
use crate::syntax::{AttrDef, AttrMeta, DeriveError, FieldDef, StructDef};
use vstd::prelude::*;

verus! {

/// Whether `s` reads as one Rust identifier that is not a keyword.
pub uninterp spec fn reads_as_ident(s: Seq<char>) -> bool;

/// Relies on `syn::parse_str::<syn::Ident>`, which succeeds exactly where
/// the text lexes to a single identifier token that is not a keyword.
#[verifier::external_body]
fn parses_as_ident(s: &str) -> (r: bool)
    ensures
        r == reads_as_ident(s@),
{
    syn::parse_str::<syn::Ident>(s).is_ok()
}

/// The attribute that names the companion.
pub open spec fn is_name_attr(a: AttrDef) -> bool {
    a.outer && a.path@ == "MutableStructName"@
}

/// What a name attribute asks for.
pub open spec fn name_attr_outcome(meta: AttrMeta) -> Result<Option<Seq<char>>, DeriveError> {
    match meta {
        AttrMeta::NameValueStr(s) => Ok(Some(s@)),
        AttrMeta::NameValueOther => Err(DeriveError::NameNotString),
        AttrMeta::OtherForm => Err(DeriveError::NameNotNameValue),
        AttrMeta::Malformed => Err(DeriveError::MalformedName),
    }
}

/// The first name attribute decides; without one, no name is asked for.
pub open spec fn requested_name(attrs: Seq<AttrDef>) -> Result<Option<Seq<char>>, DeriveError>
    decreases attrs.len(),
{
    if attrs.len() == 0 {
        Ok(None)
    } else if is_name_attr(attrs[0]) {
        name_attr_outcome(attrs[0].meta)
    } else {
        requested_name(attrs.drop_first())
    }
}

/// The text of a requested name, as `requested_name` gives it.
pub open spec fn requested_view(r: Result<Option<String>, DeriveError>) -> Result<Option<Seq<char>>, DeriveError> {
    match r {
        Ok(Some(s)) => Ok(Some(s@)),
        Ok(None) => Ok(None),
        Err(e) => Err(e),
    }
}

/// The text of a generated string, or the error.
pub open spec fn text_view(r: Result<String, DeriveError>) -> Result<Seq<char>, DeriveError> {
    match r {
        Ok(s) => Ok(s@),
        Err(e) => Err(e),
    }
}

/// An identifier without its raw prefix `r#`.
pub open spec fn unraw(ident: Seq<char>) -> Seq<char> {
    if ident.len() >= 2 && ident[0] == 'r' && ident[1] == '#' {
        ident.skip(2)
    } else {
        ident
    }
}

/// The companion's name where no attribute gives one.
pub open spec fn default_mutable_name(ident: Seq<char>) -> Seq<char> {
    "Mutable"@ + unraw(ident)
}

/// The companion's name, or why it cannot be had.
pub open spec fn mutable_name_outcome(input: StructDef) -> Result<Seq<char>, DeriveError> {
    match requested_name(input.attrs@) {
        Err(e) => Err(e),
        Ok(None) => Ok(default_mutable_name(input.ident@)),
        Ok(Some(name)) => if reads_as_ident(name) {
            Ok(name)
        } else {
            Err(DeriveError::InvalidName)
        },
    }
}

/// Returns the value of the first `#[MutableStructName = "..."]` attribute,
/// or `None` where there is none. Inner attributes and attributes with any
/// other path are passed over.
pub fn maybe_get_mutable_name(input: &StructDef) -> (r: Result<Option<String>, DeriveError>)
    ensures
        requested_view(r) == requested_name(input.attrs@),
{
    let key = String::from_str("MutableStructName");
    let mut i: usize = 0;
    assert(input.attrs@.skip(0) =~= input.attrs@);
    while i < input.attrs.len()
        invariant
            i <= input.attrs@.len(),
            key@ == "MutableStructName"@,
            requested_name(input.attrs@) == requested_name(input.attrs@.skip(i as int)),
        decreases input.attrs@.len() - i,
    {
        let attr = &input.attrs[i];
        assert(input.attrs@.skip(i as int)[0] == input.attrs@[i as int]);
        assert(input.attrs@.skip(i as int).drop_first() =~= input.attrs@.skip(i + 1));
        if attr.outer && attr.path == key {
            return match &attr.meta {
                AttrMeta::NameValueStr(s) => Ok(Some(s.clone())),
                AttrMeta::NameValueOther => Err(DeriveError::NameNotString),
                AttrMeta::OtherForm => Err(DeriveError::NameNotNameValue),
                AttrMeta::Malformed => Err(DeriveError::MalformedName),
            };
        }
        i += 1;
    }
    Ok(None)
}

/// `"Mutable"` followed by `ident` without its raw prefix.
fn default_name(ident: &String) -> (r: String)
    ensures
        r@ == default_mutable_name(ident@),
{
    let s = ident.as_str();
    let n = s.unicode_len();
    let mut r = String::from_str("Mutable");
    if n >= 2 && s.get_char(0) == 'r' && s.get_char(1) == '#' {
        r.append(s.substring_char(2, n));
    } else {
        r.append(s);
    }
    r
}

/// Returns the companion's name: the one that the name attribute gives,
/// which must read as an identifier, or else `Mutable` and the struct's name.
pub fn mutable_name(input: &StructDef) -> (r: Result<String, DeriveError>)
    ensures
        text_view(r) == mutable_name_outcome(*input),
{
    match maybe_get_mutable_name(input) {
        Err(e) => Err(e),
        Ok(None) => Ok(default_name(&input.ident)),
        Ok(Some(name)) => if parses_as_ident(name.as_str()) {
            Ok(name)
        } else {
            Err(DeriveError::InvalidName)
        },
    }
}

/// The models of converted fields, in order.
pub open spec fn models(fields: Seq<MutableStructField>) -> Seq<FieldModel> {
    fields.map_values(|f: MutableStructField| f@)
}

/// The fields' declarations in the companion struct, one per line.
pub open spec fn field_definitions(fields: Seq<FieldModel>) -> Seq<char>
    decreases fields.len(),
{
    if fields.len() == 0 {
        Seq::empty()
    } else {
        field_definitions(fields.drop_last()) + "    "@ + fields.last().definition() + ",\n"@
    }
}

/// The fields of the plain struct built by `snapshot`, one per line.
pub open spec fn snapshot_entries(fields: Seq<FieldModel>) -> Seq<char>
    decreases fields.len(),
{
    if fields.len() == 0 {
        Seq::empty()
    } else {
        snapshot_entries(fields.drop_last()) + "            "@ + fields.last().name + ": "@
            + fields.last().snapshot_generator() + ",\n"@
    }
}

/// The statements of `update`, one per line.
pub open spec fn update_statements(fields: Seq<FieldModel>) -> Seq<char>
    decreases fields.len(),
{
    if fields.len() == 0 {
        Seq::empty()
    } else {
        update_statements(fields.drop_last()) + "        "@ + fields.last().update_setter(
            "new_snapshot"@,
        ) + ";\n"@
    }
}

/// The fields of the companion built by `as_mutable_struct`, one per line.
pub open spec fn constructor_entries(fields: Seq<FieldModel>) -> Seq<char>
    decreases fields.len(),
{
    if fields.len() == 0 {
        Seq::empty()
    } else {
        constructor_entries(fields.drop_last()) + "            "@ + fields.last().name + ": "@
            + fields.last().constructor("self"@) + ",\n"@
    }
}

/// The companion struct, its `MutableStruct` impl and its `Clone` impl.
pub open spec fn mutable_variant_text(
    vis: Seq<char>,
    ident: Seq<char>,
    fields: Seq<FieldModel>,
    name: Seq<char>,
) -> Seq<char> {
    vis + " struct "@ + name + " {\n"@ + field_definitions(fields) + "}\n\n"@
        + "impl futures_signals_structs::MutableStruct for "@ + name + " {\n"@
        + "    type SnapshotType = "@ + ident + ";\n\n"@ + "    fn snapshot(&self) -> "@ + ident
        + " {\n"@ + "        "@ + ident + " {\n"@ + snapshot_entries(fields) + "        }\n"@
        + "    }\n\n"@ + "    fn update(&self, new_snapshot: "@ + ident + ") {\n"@
        + update_statements(fields) + "    }\n"@ + "}\n\n"@ + "impl Clone for "@ + name + " {\n"@
        + "    fn clone(&self) -> "@ + name + " {\n"@
        + "        self.snapshot().as_mutable_struct()\n"@ + "    }\n"@ + "}\n"@
}

/// The plain struct's `AsMutableStruct` impl.
pub open spec fn as_mutable_impl_text(
    ident: Seq<char>,
    fields: Seq<FieldModel>,
    name: Seq<char>,
) -> Seq<char> {
    "impl futures_signals_structs::AsMutableStruct for "@ + ident + " {\n"@
        + "    type MutableStructType = "@ + name + ";\n\n"@ + "    fn as_mutable_struct(&self) -> "@
        + name + " {\n"@ + "        "@ + name + " {\n"@ + constructor_entries(fields)
        + "        }\n"@ + "    }\n"@ + "}\n"@
}

/// Every field has a name: the struct is no tuple struct.
pub open spec fn all_named(fields: Seq<FieldDef>) -> bool {
    forall|i: int| 0 <= i < fields.len() ==> (#[trigger] fields[i]).ident is Some
}

/// All the code generated for `input`, with the companion named `name`.
pub open spec fn generated_text(input: StructDef, name: Seq<char>) -> Seq<char> {
    let fields = input.fields@.map_values(|d: FieldDef| model_of(d));
    mutable_variant_text(input.vis@, input.ident@, fields, name) + "\n"@ + as_mutable_impl_text(
        input.ident@,
        fields,
        name,
    )
}

/// The generated code, or the error where a field has no name.
pub open spec fn generation_outcome(input: StructDef, name: Seq<char>) -> Result<Seq<char>, DeriveError> {
    if all_named(input.fields@) {
        Ok(generated_text(input, name))
    } else {
        Err(DeriveError::UnnamedField)
    }
}

/// What deriving the companion for `input` gives.
pub open spec fn derive_outcome(input: StructDef) -> Result<Seq<char>, DeriveError> {
    match mutable_name_outcome(input) {
        Err(e) => Err(e),
        Ok(name) => generation_outcome(input, name),
    }
}

fn definitions_block(fields: &Vec<MutableStructField>) -> (r: String)
    ensures
        r@ == field_definitions(models(fields@)),
{
    let mut s = String::new();
    let mut i: usize = 0;
    while i < fields.len()
        invariant
            i <= fields@.len(),
            s@ == field_definitions(models(fields@).take(i as int)),
        decreases fields@.len() - i,
    {
        let d = fields[i].get_mutable_field_definition();
        s.append("    ");
        s.append(d.as_str());
        s.append(",\n");
        assert(models(fields@).take(i + 1).drop_last() =~= models(fields@).take(i as int));
        i += 1;
    }
    assert(models(fields@).take(i as int) =~= models(fields@));
    s
}

fn snapshot_block(fields: &Vec<MutableStructField>) -> (r: String)
    ensures
        r@ == snapshot_entries(models(fields@)),
{
    let mut s = String::new();
    let mut i: usize = 0;
    while i < fields.len()
        invariant
            i <= fields@.len(),
            s@ == snapshot_entries(models(fields@).take(i as int)),
        decreases fields@.len() - i,
    {
        let field = &fields[i];
        let g = field.get_snapshot_generator();
        s.append("            ");
        s.append(field.get_name());
        s.append(": ");
        s.append(g.as_str());
        s.append(",\n");
        assert(models(fields@).take(i + 1).drop_last() =~= models(fields@).take(i as int));
        i += 1;
    }
    assert(models(fields@).take(i as int) =~= models(fields@));
    s
}

fn update_block(fields: &Vec<MutableStructField>) -> (r: String)
    ensures
        r@ == update_statements(models(fields@)),
{
    let mut s = String::new();
    let mut i: usize = 0;
    while i < fields.len()
        invariant
            i <= fields@.len(),
            s@ == update_statements(models(fields@).take(i as int)),
        decreases fields@.len() - i,
    {
        let u = fields[i].get_update_setter("new_snapshot");
        s.append("        ");
        s.append(u.as_str());
        s.append(";\n");
        assert(models(fields@).take(i + 1).drop_last() =~= models(fields@).take(i as int));
        i += 1;
    }
    assert(models(fields@).take(i as int) =~= models(fields@));
    s
}

fn constructor_block(fields: &Vec<MutableStructField>) -> (r: String)
    ensures
        r@ == constructor_entries(models(fields@)),
{
    let mut s = String::new();
    let mut i: usize = 0;
    while i < fields.len()
        invariant
            i <= fields@.len(),
            s@ == constructor_entries(models(fields@).take(i as int)),
        decreases fields@.len() - i,
    {
        let field = &fields[i];
        let c = field.get_constructor("self");
        s.append("            ");
        s.append(field.get_name());
        s.append(": ");
        s.append(c.as_str());
        s.append(",\n");
        assert(models(fields@).take(i + 1).drop_last() =~= models(fields@).take(i as int));
        i += 1;
    }
    assert(models(fields@).take(i as int) =~= models(fields@));
    s
}

/// Returns the companion struct named `mutable_name` for `input`, with its
/// `MutableStruct` and `Clone` impls.
pub fn make_mutable_variant(
    input: &StructDef,
    fields: &Vec<MutableStructField>,
    mutable_name: &str,
) -> (r: String)
    ensures
        r@ == mutable_variant_text(input.vis@, input.ident@, models(fields@), mutable_name@),
{
    let ident = input.ident.as_str();
    let mut s = input.vis.clone();
    s.append(" struct ");
    s.append(mutable_name);
    s.append(" {\n");
    s.append(definitions_block(fields).as_str());
    s.append("}\n\n");
    s.append("impl futures_signals_structs::MutableStruct for ");
    s.append(mutable_name);
    s.append(" {\n");
    s.append("    type SnapshotType = ");
    s.append(ident);
    s.append(";\n\n");
    s.append("    fn snapshot(&self) -> ");
    s.append(ident);
    s.append(" {\n");
    s.append("        ");
    s.append(ident);
    s.append(" {\n");
    s.append(snapshot_block(fields).as_str());
    s.append("        }\n");
    s.append("    }\n\n");
    s.append("    fn update(&self, new_snapshot: ");
    s.append(ident);
    s.append(") {\n");
    s.append(update_block(fields).as_str());
    s.append("    }\n");
    s.append("}\n\n");
    s.append("impl Clone for ");
    s.append(mutable_name);
    s.append(" {\n");
    s.append("    fn clone(&self) -> ");
    s.append(mutable_name);
    s.append(" {\n");
    s.append("        self.snapshot().as_mutable_struct()\n");
    s.append("    }\n");
    s.append("}\n");
    s
}

/// Returns the impl of `AsMutableStruct` for `input`, whose companion is
/// named `mutable_name`.
pub fn impl_as_signal_struct(
    input: &StructDef,
    fields: &Vec<MutableStructField>,
    mutable_name: &str,
) -> (r: String)
    ensures
        r@ == as_mutable_impl_text(input.ident@, models(fields@), mutable_name@),
{
    let mut s = String::from_str("impl futures_signals_structs::AsMutableStruct for ");
    s.append(input.ident.as_str());
    s.append(" {\n");
    s.append("    type MutableStructType = ");
    s.append(mutable_name);
    s.append(";\n\n");
    s.append("    fn as_mutable_struct(&self) -> ");
    s.append(mutable_name);
    s.append(" {\n");
    s.append("        ");
    s.append(mutable_name);
    s.append(" {\n");
    s.append(constructor_block(fields).as_str());
    s.append("        }\n");
    s.append("    }\n");
    s.append("}\n");
    s
}

/// Returns all the code generated for `input` with the companion named
/// `mutable_name`; fails where a field has no name.
pub fn generate(input: &StructDef, mutable_name: &str) -> (r: Result<String, DeriveError>)
    ensures
        text_view(r) == generation_outcome(*input, mutable_name@),
{
    let mut fields: Vec<MutableStructField> = Vec::new();
    let mut i: usize = 0;
    while i < input.fields.len()
        invariant
            i <= input.fields@.len(),
            all_named(input.fields@.take(i as int)),
            models(fields@) =~= input.fields@.take(i as int).map_values(|d: FieldDef| model_of(d)),
        decreases input.fields@.len() - i,
    {
        let def = &input.fields[i];
        match &def.ident {
            None => {
                assert(!all_named(input.fields@));
                return Err(DeriveError::UnnamedField);
            },
            Some(_) => {},
        }
        let field = MutableStructField::from_field(def);
        let ghost before = fields@;
        let ghost model = field@;
        fields.push(field);
        assert(models(fields@) =~= models(before).push(model));
        assert(input.fields@.take(i + 1) =~= input.fields@.take(i as int).push(input.fields@[i as int]));
        i += 1;
    }
    assert(input.fields@.take(i as int) =~= input.fields@);
    let mut s = make_mutable_variant(input, &fields, mutable_name);
    s.append("\n");
    s.append(impl_as_signal_struct(input, &fields, mutable_name).as_str());
    Ok(s)
}

/// Returns the code that derives a companion for `input`: the companion
/// struct, its `MutableStruct` and `Clone` impls, and the plain struct's
/// `AsMutableStruct` impl. The companion is named by the first outer
/// `#[MutableStructName = "..."]` attribute, or else `Mutable` and the
/// struct's name.
pub fn as_mutable_struct(input: &StructDef) -> (r: Result<String, DeriveError>)
    ensures
        text_view(r) == derive_outcome(*input),
{
    match mutable_name(input) {
        Err(e) => Err(e),
        Ok(name) => generate(input, name.as_str()),
    }
}

} // verus!
