use variantly::emit::derive_variantly_fns;
use variantly::error::{Error, ParseError};
use variantly::idents::{generate_idents, name_for, unique_ident};
use variantly::input::{
    compare_used_names, try_parse_variants, validate_compare, EnumDecl, FieldParsed, VariantInput,
};

fn unit_variant(name: &str) -> VariantInput {
    VariantInput {
        ident: name.to_string(),
        rename: None,
        fields: vec![],
    }
}

fn tuple_variant(name: &str, tys: &[&str]) -> VariantInput {
    VariantInput {
        ident: name.to_string(),
        rename: None,
        fields: tys
            .iter()
            .map(|ty| FieldParsed {
                ident: None,
                ty: ty.to_string(),
            })
            .collect(),
    }
}

fn named_variant(name: &str, field: &str, ty: &str) -> VariantInput {
    VariantInput {
        ident: name.to_string(),
        rename: None,
        fields: vec![FieldParsed {
            ident: Some(field.to_string()),
            ty: ty.to_string(),
        }],
    }
}

fn plain_enum(name: &str, variants: Vec<VariantInput>) -> EnumDecl {
    EnumDecl {
        ident: name.to_string(),
        generics: String::new(),
        where_clause: String::new(),
        variants,
    }
}

#[test]
fn name_for_concatenates_verbatim() {
    assert_eq!(name_for("unwrap_or", "int"), "unwrap_or_int");
    assert_eq!(name_for("is", "KeepMe"), "is_KeepMe");
}

#[test]
fn declared_names_are_folded_to_snake_case() {
    let decl = plain_enum("E", vec![tuple_variant("VariantA", &["u8"])]);
    let parsed = try_parse_variants(&decl).ok().unwrap();
    assert_eq!(parsed.len(), 1);
    assert_eq!(parsed[0].ident, "VariantA");
    assert_eq!(parsed[0].used_name, "variant_a");
}

#[test]
fn rename_is_taken_verbatim() {
    let mut v = tuple_variant("SomeVariantWithALongName", &["String"]);
    v.rename = Some("KeepMe".to_string());
    let decl = plain_enum("E", vec![v]);
    let parsed = try_parse_variants(&decl).ok().unwrap();
    assert_eq!(parsed[0].used_name, "KeepMe");
}

#[test]
fn malformed_rename_is_a_parse_error() {
    let mut v = unit_variant("A");
    v.rename = Some("not an ident!".to_string());
    let decl = plain_enum("E", vec![v]);
    match derive_variantly_fns(&decl) {
        Err(err) => {
            assert!(err.message().contains("`not an ident!` on variant `A`"));
            match err {
                Error::Parse(p) => {
                    assert_eq!(p.variant, "A");
                    assert!(p.message.contains("#[variantly(rename = \"some_other_name\")]"));
                }
                Error::Collision(_) => panic!("expected a parse error"),
            }
        }
        _ => panic!("expected a parse error"),
    }
}

#[test]
fn colliding_used_names_fail_generation() {
    // Both variants normalize to the used name `foo`.
    let decl = plain_enum(
        "E",
        vec![tuple_variant("Foo", &["u8"]), tuple_variant("foo", &["u8"])],
    );
    match derive_variantly_fns(&decl) {
        Err(Error::Collision(c)) => {
            assert_eq!(c.first, "Foo");
            assert_eq!(c.second, "foo");
            assert_eq!(
                c.message,
                "`Foo` cannot be coerced into a unique & idiomatic snake_case function name \
                 as it would collide with the `foo` variant of the same Enum. use the following \
                 attribute on this or the conflicting variant to resolve: \
                 `#[variantly(rename = \"some_other_name\")]`"
            );
        }
        _ => panic!("expected a collision error"),
    }
}

#[test]
fn rename_resolves_a_collision() {
    let mut first = tuple_variant("Foo", &["u8"]);
    first.rename = Some("capital".to_string());
    let decl = plain_enum("E", vec![first, tuple_variant("foo", &["u8"])]);
    let block = derive_variantly_fns(&decl).ok().unwrap();
    let names: Vec<&str> = block.functions.iter().map(|f| f.name.as_str()).collect();
    assert!(names.contains(&"is_capital"));
    assert!(names.contains(&"is_foo"));
}

#[test]
fn first_colliding_pair_is_reported() {
    // (Dup, Uniq, Dup, dup): the first colliding pair in traversal order is
    // (0, 2), not (0, 3) or (2, 3).
    let decl = plain_enum(
        "E",
        vec![
            unit_variant("Dup"),
            unit_variant("Uniq"),
            unit_variant("Dup"),
            unit_variant("dup"),
        ],
    );
    let parsed = try_parse_variants(&decl).ok().unwrap();
    match validate_compare(&parsed) {
        Err(Error::Collision(c)) => {
            assert_eq!(c.first, "Dup");
            assert_eq!(c.second, "Dup");
        }
        _ => panic!("expected a collision error"),
    }
}

#[test]
fn compare_used_names_accepts_distinct_names() {
    let decl = plain_enum("E", vec![unit_variant("A"), unit_variant("B")]);
    let parsed = try_parse_variants(&decl).ok().unwrap();
    assert!(compare_used_names(&parsed[0], &parsed[1]).is_ok());
    assert!(compare_used_names(&parsed[0], &parsed[0]).is_err());
}

#[test]
fn empty_and_named_variants_emit_existence_checks_only() {
    let decl = plain_enum(
        "Simple",
        vec![unit_variant("A"), named_variant("B", "x", "u8")],
    );
    let block = derive_variantly_fns(&decl).ok().unwrap();
    let names: Vec<&str> = block.functions.iter().map(|f| f.name.as_str()).collect();
    assert_eq!(names, vec!["is_a", "is_not_a", "is_b", "is_not_b"]);

    // With no binders drawn, the whole block is deterministic.
    let expected = "impl Simple {\n\
        \x20   pub fn is_a(&self) -> bool {\n\
        \x20       match self {\n\
        \x20           Simple::A => true,\n\
        \x20           _ => false,\n\
        \x20       }\n\
        \x20   }\n\
        \n\
        \x20   pub fn is_not_a(&self) -> bool {\n\
        \x20       !self.is_a()\n\
        \x20   }\n\
        \n\
        \x20   pub fn is_b(&self) -> bool {\n\
        \x20       match self {\n\
        \x20           Simple::B { .. } => true,\n\
        \x20           _ => false,\n\
        \x20       }\n\
        \x20   }\n\
        \n\
        \x20   pub fn is_not_b(&self) -> bool {\n\
        \x20       !self.is_b()\n\
        \x20   }\n\
        \n\
        }\n";
    assert_eq!(block.render(), expected);
}

#[test]
fn tuple_variants_emit_the_full_family() {
    let decl = plain_enum(
        "E",
        vec![unit_variant("Unit"), tuple_variant("Pair", &["u8", "u16"])],
    );
    let block = derive_variantly_fns(&decl).ok().unwrap();
    let names: Vec<&str> = block.functions.iter().map(|f| f.name.as_str()).collect();
    assert_eq!(
        names,
        vec![
            "is_unit",
            "is_not_unit",
            "is_pair",
            "is_not_pair",
            "ok_pair",
            "ok_or_pair",
            "ok_or_else_pair",
            "unwrap_pair",
            "unwrap_or_pair",
            "unwrap_or_else_pair",
            "expect_pair",
            "and_pair",
            "and_then_pair",
            "or_pair",
            "or_else_pair",
            "replace_pair",
        ]
    );
    let ok_text = &block.functions[4].text;
    assert!(ok_text.contains("pub fn ok_pair(self) -> Option<(u8, u16)>"));
    assert!(ok_text.contains("E::Pair(ident_"));
    let replace_text = &block.functions[15].text;
    assert!(replace_text.contains("core::mem::replace(self, E::Pair(ident_"));
}

#[test]
fn generics_and_where_clause_are_honoured() {
    let decl = EnumDecl {
        ident: "Wrapped".to_string(),
        generics: "<T>".to_string(),
        where_clause: "where T: Clone".to_string(),
        variants: vec![unit_variant("A")],
    };
    let block = derive_variantly_fns(&decl).ok().unwrap();
    let text = block.render();
    assert!(text.starts_with("impl<T> Wrapped<T> where T: Clone {\n"));
    assert!(text.ends_with("}\n"));
}

#[test]
fn placeholders_are_fresh_valid_identifiers() {
    let idents = generate_idents(4);
    assert_eq!(idents.len(), 4);
    for ident in &idents {
        assert_eq!(ident.len(), 38);
        assert!(ident.starts_with("ident_"));
        assert!(ident[6..]
            .chars()
            .all(|c| c.is_ascii_hexdigit() && !c.is_ascii_uppercase()));
    }
    for i in 0..idents.len() {
        for j in i + 1..idents.len() {
            assert_ne!(idents[i], idents[j]);
        }
    }
    assert_ne!(unique_ident(), unique_ident());
}

#[test]
fn diagnostics_render_as_compile_errors() {
    let err = Error::Parse(ParseError {
        variant: "A".to_string(),
        message: "say \"hi\" with a \\ backslash".to_string(),
    });
    assert_eq!(
        err.to_compile_error(),
        "compile_error! { \"say \\\"hi\\\" with a \\\\ backslash\" }"
    );
}
