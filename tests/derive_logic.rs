use futures_signals_structs::derive::{
    as_mutable_struct, generate, impl_as_signal_struct, make_mutable_variant,
    maybe_get_mutable_name, mutable_name,
};
use futures_signals_structs::field::{FieldKind, MutableStructField};
use futures_signals_structs::syntax::{AttrDef, AttrMeta, DeriveError, FieldDef, FieldType, StructDef};

fn path_field(name: &str, ty: &str, last_segment: &str) -> FieldDef {
    FieldDef {
        ident: Some(name.to_string()),
        vis: String::new(),
        ty: FieldType { text: ty.to_string(), last_segment: Some(last_segment.to_string()) },
    }
}

fn other_field(name: &str, ty: &str) -> FieldDef {
    FieldDef {
        ident: Some(name.to_string()),
        vis: String::new(),
        ty: FieldType { text: ty.to_string(), last_segment: None },
    }
}

fn attr(outer: bool, path: &str, meta: AttrMeta) -> AttrDef {
    AttrDef { outer, path: path.to_string(), meta }
}

fn name_attr(name: &str) -> AttrDef {
    attr(true, "MutableStructName", AttrMeta::NameValueStr(name.to_string()))
}

fn struct_def(ident: &str, attrs: Vec<AttrDef>, fields: Vec<FieldDef>) -> StructDef {
    StructDef { vis: String::new(), ident: ident.to_string(), attrs, fields }
}

fn converted(def: &FieldDef) -> MutableStructField {
    MutableStructField::from_field(def)
}

#[test]
fn lowercase_path_types_are_basic() {
    assert!(MutableStructField::field_is_primitive(&path_field("a", "u32", "u32")));
    assert!(MutableStructField::field_is_primitive(&path_field("a", "std::primitive::bool", "bool")));
    assert!(MutableStructField::field_is_primitive(&path_field("a", "my_mod::thing", "thing")));
}

#[test]
fn other_types_are_mutable_structs() {
    assert!(!MutableStructField::field_is_primitive(&path_field("a", "String", "String")));
    assert!(!MutableStructField::field_is_primitive(&path_field("a", "Vec<u8>", "Vec")));
    assert!(!MutableStructField::field_is_primitive(&path_field("a", "_x", "_x")));
    assert!(!MutableStructField::field_is_primitive(&path_field("a", "\u{e9}t\u{e9}", "\u{e9}t\u{e9}")));
    assert!(!MutableStructField::field_is_primitive(&path_field("a", "", "")));
    assert!(!MutableStructField::field_is_primitive(&other_field("a", "&'static str")));
    assert!(!MutableStructField::field_is_primitive(&other_field("a", "(u8, u8)")));
}

#[test]
fn from_field_keeps_text_and_kind() {
    let def = FieldDef {
        ident: Some("hits".to_string()),
        vis: "pub".to_string(),
        ty: FieldType { text: "u32".to_string(), last_segment: Some("u32".to_string()) },
    };
    let f = converted(&def);
    assert_eq!(f.kind, FieldKind::Basic);
    assert_eq!(f.name, "hits");
    assert_eq!(f.vis, "pub");
    assert_eq!(f.ty, "u32");
    assert_eq!(f.get_name(), "hits");
    let g = converted(&path_field("score", "PlayerScore", "PlayerScore"));
    assert_eq!(g.kind, FieldKind::MutableStruct);
}

#[test]
fn basic_field_code() {
    let mut def = path_field("hits", "u32", "u32");
    def.vis = "pub".to_string();
    let f = converted(&def);
    assert_eq!(f.get_mutable_field_definition(), "pub hits: futures_signals::signal::Mutable<u32>");
    assert_eq!(f.get_constructor("snap"), "futures_signals::signal::Mutable::new(snap.hits)");
    assert_eq!(f.get_snapshot_generator(), "self.hits.get_cloned()");
    assert_eq!(f.get_update_setter("snap"), "self.hits.set(snap.hits)");
}

#[test]
fn nested_field_code() {
    let f = converted(&path_field("score", "PlayerScore", "PlayerScore"));
    assert_eq!(
        f.get_mutable_field_definition(),
        " score: <PlayerScore as futures_signals_structs::AsMutableStruct>::MutableStructType"
    );
    assert_eq!(f.get_constructor("snap"), "snap.score.as_mutable_struct()");
    assert_eq!(f.get_snapshot_generator(), "self.score.snapshot()");
    assert_eq!(f.get_update_setter("snap"), "self.score.update(snap.score)");
}

#[test]
fn no_name_attribute_gives_none() {
    let def = struct_def("S", vec![attr(true, "derive", AttrMeta::OtherForm)], vec![]);
    assert_eq!(maybe_get_mutable_name(&def), Ok(None));
    assert_eq!(maybe_get_mutable_name(&struct_def("S", vec![], vec![])), Ok(None));
}

#[test]
fn first_name_attribute_wins() {
    let def = struct_def("S", vec![name_attr("First"), name_attr("Second")], vec![]);
    assert_eq!(maybe_get_mutable_name(&def), Ok(Some("First".to_string())));
}

#[test]
fn inner_and_other_paths_are_skipped() {
    let def = struct_def(
        "S",
        vec![
            attr(false, "MutableStructName", AttrMeta::NameValueOther),
            attr(true, "a::MutableStructName", AttrMeta::Malformed),
            attr(true, "mutablestructname", AttrMeta::OtherForm),
            name_attr("Chosen"),
        ],
        vec![],
    );
    assert_eq!(maybe_get_mutable_name(&def), Ok(Some("Chosen".to_string())));
}

#[test]
fn malformed_name_attributes_are_errors() {
    let cases = vec![
        (AttrMeta::NameValueOther, DeriveError::NameNotString),
        (AttrMeta::OtherForm, DeriveError::NameNotNameValue),
        (AttrMeta::Malformed, DeriveError::MalformedName),
    ];
    for (meta, err) in cases {
        let def = struct_def("S", vec![attr(true, "MutableStructName", meta), name_attr("Later")], vec![]);
        assert_eq!(maybe_get_mutable_name(&def), Err(err));
        assert_eq!(mutable_name(&def), Err(err));
        assert_eq!(as_mutable_struct(&def), Err(err));
    }
}

#[test]
fn default_name_prefixes_mutable() {
    assert_eq!(mutable_name(&struct_def("Score", vec![], vec![])), Ok("MutableScore".to_string()));
    assert_eq!(mutable_name(&struct_def("r#type", vec![], vec![])), Ok("Mutabletype".to_string()));
    assert_eq!(mutable_name(&struct_def("r", vec![], vec![])), Ok("Mutabler".to_string()));
}

#[test]
fn custom_name_must_be_an_identifier() {
    let ok = struct_def("S", vec![name_attr("Custom")], vec![]);
    assert_eq!(mutable_name(&ok), Ok("Custom".to_string()));
    for bad in ["my name", "", "struct", "1abc", "a-b"] {
        let def = struct_def("S", vec![name_attr(bad)], vec![]);
        assert_eq!(mutable_name(&def), Err(DeriveError::InvalidName));
        assert_eq!(as_mutable_struct(&def), Err(DeriveError::InvalidName));
    }
}

#[test]
fn unnamed_fields_are_refused() {
    let tuple_field = FieldDef {
        ident: None,
        vis: String::new(),
        ty: FieldType { text: "u8".to_string(), last_segment: Some("u8".to_string()) },
    };
    let def = struct_def("T", vec![], vec![path_field("a", "u8", "u8"), tuple_field]);
    assert_eq!(generate(&def, "MutableT"), Err(DeriveError::UnnamedField));
    assert_eq!(as_mutable_struct(&def), Err(DeriveError::UnnamedField));
}

#[test]
fn name_errors_come_before_field_errors() {
    let tuple_field = other_field("x", "u8");
    let mut def = struct_def("T", vec![name_attr("not valid")], vec![tuple_field]);
    def.fields[0].ident = None;
    assert_eq!(as_mutable_struct(&def), Err(DeriveError::InvalidName));
}

#[test]
fn empty_struct_code() {
    let def = struct_def("Empty", vec![], vec![]);
    let expected = [
        " struct MutableEmpty {\n",
        "}\n\n",
        "impl futures_signals_structs::MutableStruct for MutableEmpty {\n",
        "    type SnapshotType = Empty;\n\n",
        "    fn snapshot(&self) -> Empty {\n",
        "        Empty {\n",
        "        }\n",
        "    }\n\n",
        "    fn update(&self, new_snapshot: Empty) {\n",
        "    }\n",
        "}\n\n",
        "impl Clone for MutableEmpty {\n",
        "    fn clone(&self) -> MutableEmpty {\n",
        "        self.snapshot().as_mutable_struct()\n",
        "    }\n",
        "}\n",
        "\n",
        "impl futures_signals_structs::AsMutableStruct for Empty {\n",
        "    type MutableStructType = MutableEmpty;\n\n",
        "    fn as_mutable_struct(&self) -> MutableEmpty {\n",
        "        MutableEmpty {\n",
        "        }\n",
        "    }\n",
        "}\n",
    ]
    .concat();
    assert_eq!(as_mutable_struct(&def), Ok(expected));
}

#[test]
fn struct_visibility_and_field_lines() {
    let mut def = struct_def(
        "Game",
        vec![],
        vec![path_field("level", "u8", "u8"), other_field("tags", "[u8; 2]")],
    );
    def.vis = "pub(crate)".to_string();
    let fields: Vec<MutableStructField> = def.fields.iter().map(MutableStructField::from_field).collect();
    let variant = make_mutable_variant(&def, &fields, "LiveGame");
    assert!(variant.starts_with("pub(crate) struct LiveGame {\n"));
    assert!(variant.contains("     level: futures_signals::signal::Mutable<u8>,\n"));
    assert!(variant.contains(
        "     tags: <[u8; 2] as futures_signals_structs::AsMutableStruct>::MutableStructType,\n"
    ));
    assert!(variant.contains("            level: self.level.get_cloned(),\n"));
    assert!(variant.contains("            tags: self.tags.snapshot(),\n"));
    assert!(variant.contains("        self.level.set(new_snapshot.level);\n"));
    assert!(variant.contains("        self.tags.update(new_snapshot.tags);\n"));
    let imp = impl_as_signal_struct(&def, &fields, "LiveGame");
    assert!(imp.starts_with("impl futures_signals_structs::AsMutableStruct for Game {\n"));
    assert!(imp.contains("            level: futures_signals::signal::Mutable::new(self.level),\n"));
    assert!(imp.contains("            tags: self.tags.as_mutable_struct(),\n"));
    let whole = generate(&def, "LiveGame").unwrap();
    assert_eq!(whole, format!("{}\n{}", variant, imp));
}

#[test]
fn error_messages() {
    assert_eq!(
        DeriveError::NameNotString.message(),
        "Found a MutableStructName that is not a string."
    );
    assert_eq!(
        DeriveError::NameNotNameValue.message(),
        "Format MutableStructName as #[MutableStructName = \"MyMutableName\"]"
    );
    assert_eq!(
        DeriveError::MalformedName.message(),
        "Found a malformed MutableStructName. Format MutableStructName as #[MutableStructName = \"Name\"]"
    );
    assert_eq!(DeriveError::UnnamedField.message(), "AsMutableStruct needs a struct with named fields");
    assert_eq!(DeriveError::InvalidName.message(), "The value of MutableStructName is not an identifier.");
}
