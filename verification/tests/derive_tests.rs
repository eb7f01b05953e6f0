use getters::expand::{decl_supported_check, derive_getters_fn, generate_new_fn};
use getters::model::{AttrMeta, AttrValue, NamedField, StructData, TypeDecl, UnnamedField};

fn path(name: &str) -> AttrMeta {
    AttrMeta::Path { name: name.to_string() }
}

fn name_value(name: &str, value: &str) -> AttrMeta {
    AttrMeta::NameValue { name: name.to_string(), value: AttrValue::Str(value.to_string()) }
}

fn named(name: &str, ty: &str, attrs: Vec<AttrMeta>) -> NamedField {
    NamedField { name: name.to_string(), ty: ty.to_string(), attrs }
}

fn plain_decl(name: &str, data: StructData) -> TypeDecl {
    TypeDecl {
        name: name.to_string(),
        impl_generics: String::new(),
        ty_generics: String::new(),
        where_clause: String::new(),
        attrs: Vec::new(),
        data,
    }
}

fn assert_valid_impl(text: &str) {
    assert!(
        syn::parse_str::<syn::ItemImpl>(text).is_ok(),
        "generated text does not parse as an impl block: {}",
        text
    );
}

#[test]
fn named_struct_gets_constructor_and_borrow_getters() {
    let decl = plain_decl(
        "Point",
        StructData::Named {
            fields: vec![named("x", "u32", Vec::new()), named("y", "u32", Vec::new())],
        },
    );
    let out = derive_getters_fn(&decl);
    assert_eq!(
        out,
        "impl Point {\n\
         pub fn new(x: u32, y: u32) -> Self { Self { x: x, y: y } }\n\
         pub fn x(&self) -> &u32 { &self.x }\n\
         pub fn y(&self) -> &u32 { &self.y }\n\
         }\n"
    );
    assert_valid_impl(&out);
}

#[test]
fn copy_mut_and_skip_switches_shape_the_impl() {
    let decl = plain_decl(
        "Config",
        StructData::Named {
            fields: vec![
                named("id", "u64", vec![path("copy")]),
                named("label", "String", vec![path("get_mut")]),
                named("secret", "u8", vec![path("skip_getter"), path("get_mut")]),
            ],
        },
    );
    let out = derive_getters_fn(&decl);
    assert_eq!(
        out,
        "impl Config {\n\
         pub fn new(id: u64, label: String, secret: u8) -> Self { Self { id: id, label: label, secret: secret } }\n\
         pub fn id(&self) -> u64 { self.id }\n\
         pub fn label(&self) -> &String { &self.label }\n\
         pub fn label_mut(&mut self) -> &mut String { &mut self.label }\n\
         }\n"
    );
    assert_valid_impl(&out);
}

#[test]
fn deref_and_as_ref_getters_borrow_the_trait_targets() {
    let decl = plain_decl(
        "Wrap",
        StructData::Named {
            fields: vec![
                named("b", "Box<u32>", vec![path("use_deref")]),
                named("p", "PathBuf", vec![path("use_as_ref")]),
            ],
        },
    );
    let out = derive_getters_fn(&decl);
    assert_eq!(
        out,
        "impl Wrap {\n\
         pub fn new(b: Box<u32>, p: PathBuf) -> Self { Self { b: b, p: p } }\n\
         pub fn b(&self) -> &<Box<u32> as std::ops::Deref>::Target { &*self.b }\n\
         pub fn p(&self) -> &<PathBuf as std::convert::AsRef<PathBuf>>::Target { self.p.as_ref() }\n\
         }\n"
    );
    assert_valid_impl(&out);
}

#[test]
fn return_type_overrides_each_shape() {
    let decl = plain_decl(
        "Mixed",
        StructData::Named {
            fields: vec![
                named("a", "Arc<String>", vec![name_value("return_type", "String")]),
                named("b", "u16", vec![path("copy"), name_value("return_type", "u16")]),
                named("c", "Box<u8>", vec![path("use_deref"), name_value("return_type", "&u8")]),
            ],
        },
    );
    let out = derive_getters_fn(&decl);
    assert_eq!(
        out,
        "impl Mixed {\n\
         pub fn new(a: Arc<String>, b: u16, c: Box<u8>) -> Self { Self { a: a, b: b, c: c } }\n\
         pub fn a(&self) -> String { &self.a }\n\
         pub fn b(&self) -> u16 { self.b }\n\
         pub fn c(&self) -> &u8 { &*self.c }\n\
         }\n"
    );
    assert_valid_impl(&out);
}

#[test]
fn unparsable_return_type_falls_back_to_borrow() {
    let decl = plain_decl(
        "Holder",
        StructData::Named {
            fields: vec![named("x", "u32", vec![name_value("return_type", "not a type")])],
        },
    );
    let out = derive_getters_fn(&decl);
    assert_eq!(
        out,
        "impl Holder {\n\
         pub fn new(x: u32) -> Self { Self { x: x } }\n\
         pub fn x(&self) -> &u32 { &self.x }\n\
         }\n"
    );
    assert_valid_impl(&out);
}

#[test]
fn custom_logic_is_applied_to_the_field() {
    let decl = plain_decl(
        "Raw",
        StructData::Named {
            fields: vec![named(
                "bits",
                "u16",
                vec![name_value("getter_logic", "u32::from"), name_value("return_type", "u32")],
            )],
        },
    );
    let out = derive_getters_fn(&decl);
    assert_eq!(
        out,
        "impl Raw {\n\
         pub fn new(bits: u16) -> Self { Self { bits: bits } }\n\
         pub fn bits(&self) -> u32 { u32::from(self.bits) }\n\
         }\n"
    );
    assert_valid_impl(&out);
}

#[test]
fn custom_logic_without_return_type_returns_u32() {
    let decl = plain_decl(
        "Raw",
        StructData::Named {
            fields: vec![named("bits", "u16", vec![name_value("getter_logic", "f")])],
        },
    );
    let out = derive_getters_fn(&decl);
    assert_eq!(
        out,
        "impl Raw {\n\
         pub fn new(bits: u16) -> Self { Self { bits: bits } }\n\
         pub fn bits(&self) -> u32 { f(self.bits) }\n\
         }\n"
    );
    assert_valid_impl(&out);
}

#[test]
fn unlexable_logic_is_dropped_from_the_body() {
    let decl = plain_decl(
        "Raw",
        StructData::Named {
            fields: vec![named("bits", "u16", vec![name_value("getter_logic", "(((")])],
        },
    );
    let out = derive_getters_fn(&decl);
    assert_eq!(
        out,
        "impl Raw {\n\
         pub fn new(bits: u16) -> Self { Self { bits: bits } }\n\
         pub fn bits(&self) -> u32 { (self.bits) }\n\
         }\n"
    );
    assert_valid_impl(&out);
}

#[test]
fn skip_new_suppresses_the_constructor() {
    let mut decl = plain_decl(
        "Holder",
        StructData::Named { fields: vec![named("x", "u32", Vec::new())] },
    );
    decl.attrs = vec![path("skip_new")];
    let out = derive_getters_fn(&decl);
    assert_eq!(
        out,
        "impl Holder {\n\
         pub fn x(&self) -> &u32 { &self.x }\n\
         }\n"
    );
    assert_valid_impl(&out);
}

#[test]
fn generics_are_spliced_into_the_header() {
    let decl = TypeDecl {
        name: "Wrapper".to_string(),
        impl_generics: "<T: Clone>".to_string(),
        ty_generics: "<T>".to_string(),
        where_clause: "where T: Default".to_string(),
        attrs: Vec::new(),
        data: StructData::Named { fields: vec![named("item", "T", Vec::new())] },
    };
    let out = derive_getters_fn(&decl);
    assert_eq!(
        out,
        "impl <T: Clone> Wrapper<T> where T: Default {\n\
         pub fn new(item: T) -> Self { Self { item: item } }\n\
         pub fn item(&self) -> &T { &self.item }\n\
         }\n"
    );
    assert_valid_impl(&out);
}

#[test]
fn tuple_struct_gets_positional_accessors() {
    let decl = plain_decl(
        "Pair",
        StructData::Unnamed {
            fields: vec![
                UnnamedField { ty: "String".to_string() },
                UnnamedField { ty: "u8".to_string() },
            ],
        },
    );
    let out = derive_getters_fn(&decl);
    assert_eq!(
        out,
        "impl Pair {\n\
         pub fn new(field_0: String, field_1: u8) -> Self { Self(field_0, field_1) }\n\
         pub fn get_0(&self) -> &String { &self.0 }\n\
         pub fn get_1(&self) -> &u8 { &self.1 }\n\
         }\n"
    );
    assert_valid_impl(&out);
}

#[test]
fn wide_tuple_struct_counts_past_ten() {
    let mut fields = Vec::new();
    for _ in 0..12 {
        fields.push(UnnamedField { ty: "u8".to_string() });
    }
    let decl = plain_decl("Wide", StructData::Unnamed { fields });
    let out = derive_getters_fn(&decl);

    let mut expected = String::from("impl Wide {\npub fn new(");
    for i in 0..12 {
        if i > 0 {
            expected.push_str(", ");
        }
        expected.push_str(&format!("field_{}: u8", i));
    }
    expected.push_str(") -> Self { Self(");
    for i in 0..12 {
        if i > 0 {
            expected.push_str(", ");
        }
        expected.push_str(&format!("field_{}", i));
    }
    expected.push_str(") }\n");
    for i in 0..12 {
        expected.push_str(&format!("pub fn get_{}(&self) -> &u8 {{ &self.{} }}\n", i, i));
    }
    expected.push_str("}\n");
    assert_eq!(out, expected);
    assert_valid_impl(&out);
}

#[test]
fn unit_struct_gets_an_empty_impl() {
    let decl = plain_decl("Empty", StructData::Unit);
    let out = derive_getters_fn(&decl);
    assert_eq!(out, "impl Empty {\n}\n");
    assert_valid_impl(&out);
}

#[test]
fn enums_and_unions_get_an_empty_impl() {
    let decl = plain_decl("Color", StructData::NotStruct);
    let out = derive_getters_fn(&decl);
    assert_eq!(out, "impl Color {\n}\n");
    assert_valid_impl(&out);
}

#[test]
fn constructor_text_stands_alone() {
    let data = StructData::Named {
        fields: vec![named("x", "u32", Vec::new()), named("y", "bool", Vec::new())],
    };
    assert_eq!(
        generate_new_fn(&data),
        "pub fn new(x: u32, y: bool) -> Self { Self { x: x, y: y } }\n"
    );
    assert_eq!(generate_new_fn(&StructData::Unit), "");
    assert_eq!(generate_new_fn(&StructData::NotStruct), "");
}

#[test]
fn support_check_guards_the_expansion() {
    let good = plain_decl(
        "Holder",
        StructData::Named {
            fields: vec![named("x", "u32", vec![name_value("return_type", "u32")])],
        },
    );
    assert!(decl_supported_check(&good));

    let bad = plain_decl(
        "Holder",
        StructData::Named {
            fields: vec![NamedField {
                name: "x".to_string(),
                ty: "u32".to_string(),
                attrs: vec![AttrMeta::NameValue {
                    name: "return_type".to_string(),
                    value: AttrValue::NonStrLit,
                }],
            }],
        },
    );
    assert!(!decl_supported_check(&bad));

    assert!(decl_supported_check(&plain_decl("Color", StructData::NotStruct)));
    assert!(decl_supported_check(&plain_decl("Empty", StructData::Unit)));
}

#[test]
fn empty_named_struct_still_gets_a_constructor() {
    let decl = plain_decl("Nothing", StructData::Named { fields: Vec::new() });
    let out = derive_getters_fn(&decl);
    assert_eq!(out, "impl Nothing {\npub fn new() -> Self { Self {  } }\n}\n");
    assert_valid_impl(&out);
}
