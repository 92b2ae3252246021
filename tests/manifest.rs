use manifest_orders::{bind, decode, from_str, BindError, CargoOrders, ContentType, GenericValue, Order, SyntaxError};

fn order(item: &str, quantity: u32) -> Order {
    Order { item: item.to_string(), quantity }
}

fn bind_text(text: &str, format: ContentType) -> Result<(), BindError> {
    let tree = decode(text, format).expect("text should decode");
    bind(&tree).map(|_| ())
}

#[test]
fn cargo_toml_doesnt_require_profiles() {
    assert!(bind_text(
        r#"
[package]
name = "test"
"#,
        ContentType::Toml
    )
    .is_ok());
}

#[test]
fn cargo_toml_errors_on_invalid_profiles() {
    assert!(bind_text(
        r#"
[package]
name = "test"

[profile.release]
incremental = "woohoo"
"#,
        ContentType::Toml
    )
    .is_err());
}

#[test]
fn cargo_toml_errors_on_invalid_rust_version_string() {
    assert!(bind_text(
        "
package:
  name: test
  rust-version: false
",
        ContentType::Yaml
    )
    .is_err());
}

#[test]
fn name_only_manifest_lacks_keyword() {
    assert_eq!(from_str("[package]\nname=\"x\"", ContentType::Toml), CargoOrders::KeywordMissing);
}

#[test]
fn keyword_and_one_order() {
    let text = "[package]\nname=\"x\"\nkeywords=[\"Christmas 2024\"]\n[package.metadata]\norders=[{item=\"A\",quantity=2}]";
    assert_eq!(from_str(text, ContentType::Toml), CargoOrders::Orders(vec![order("A", 2)]));
}

#[test]
fn order_without_quantity_is_skipped() {
    let text = "[package]\nname=\"x\"\nkeywords=[\"Christmas 2024\"]\n[package.metadata]\norders=[{item=\"A\",quantity=2},{item=\"B\"}]";
    assert_eq!(from_str(text, ContentType::Toml), CargoOrders::Orders(vec![order("A", 2)]));
}

#[test]
fn string_incremental_is_invalid() {
    let text = "[package]\nname=\"x\"\n[profile.release]\nincremental=\"yes\"";
    assert_eq!(from_str(text, ContentType::Toml), CargoOrders::InvalidManifest);
}

#[test]
fn keyword_missing_whatever_the_metadata() {
    let text = "[package]\nname=\"x\"\nkeywords=[\"Easter\"]\n[package.metadata]\norders=[{item=\"A\",quantity=2}]";
    assert_eq!(from_str(text, ContentType::Toml), CargoOrders::KeywordMissing);
}

#[test]
fn keyword_with_absent_or_empty_orders() {
    let absent = "[package]\nname=\"x\"\nkeywords=[\"Christmas 2024\"]";
    assert_eq!(from_str(absent, ContentType::Toml), CargoOrders::Orders(vec![]));
    let no_orders = "[package]\nname=\"x\"\nkeywords=[\"Christmas 2024\"]\n[package.metadata]\nother=1";
    assert_eq!(from_str(no_orders, ContentType::Toml), CargoOrders::Orders(vec![]));
    let empty = "[package]\nname=\"x\"\nkeywords=[\"Christmas 2024\"]\n[package.metadata]\norders=[]";
    assert_eq!(from_str(empty, ContentType::Toml), CargoOrders::Orders(vec![]));
}

#[test]
fn malformed_orders_among_good_ones() {
    let text = r#"{"package": {"name": "x", "keywords": ["Christmas 2024"], "metadata": {"orders": [
        {"item": "A", "quantity": 1},
        {"item": "B", "quantity": -1},
        {"item": "C", "quantity": 2.5},
        null,
        {"item": "D", "quantity": 3},
        {"item": 4, "quantity": 4},
        {"item": "E", "quantity": "5"},
        {"item": "F", "quantity": 4294967296},
        {"item": "G", "quantity": 4294967295, "colour": "red"},
        "H"
    ]}}}"#;
    assert_eq!(
        from_str(text, ContentType::Json),
        CargoOrders::Orders(vec![order("A", 1), order("D", 3), order("G", 4294967295)])
    );
}

#[test]
fn same_manifest_in_three_formats() {
    let toml = "[package]\nname=\"x\"\nkeywords=[\"Christmas 2024\"]\nedition=\"2021\"\n[package.metadata]\norders=[{item=\"A\",quantity=2},{item=\"B\",quantity=7}]";
    let json = r#"{"package":{"name":"x","keywords":["Christmas 2024"],"edition":"2021","metadata":{"orders":[{"item":"A","quantity":2},{"item":"B","quantity":7}]}}}"#;
    let yaml = "package:\n  name: x\n  keywords: [\"Christmas 2024\"]\n  edition: \"2021\"\n  metadata:\n    orders:\n      - item: A\n        quantity: 2\n      - item: B\n        quantity: 7\n";
    let expected = CargoOrders::Orders(vec![order("A", 2), order("B", 7)]);
    assert_eq!(from_str(toml, ContentType::Toml), expected);
    assert_eq!(from_str(json, ContentType::Json), expected);
    assert_eq!(from_str(yaml, ContentType::Yaml), expected);
}

#[test]
fn nested_metadata_reads_like_direct_metadata() {
    let direct = "[package]\nname=\"x\"\nkeywords=[\"Christmas 2024\"]\n[package.metadata]\norders=[{item=\"A\",quantity=2}]";
    let nested = "[package]\nname=\"x\"\nkeywords=[\"Christmas 2024\"]\n[package.metadata.package]\norders=[{item=\"A\",quantity=2}]";
    assert_eq!(from_str(direct, ContentType::Toml), from_str(nested, ContentType::Toml));
    assert_eq!(from_str(nested, ContentType::Toml), CargoOrders::Orders(vec![order("A", 2)]));
}

#[test]
fn non_boolean_incremental_in_json_and_yaml() {
    let json = r#"{"package":{"name":"x"},"profile":{"release":{"incremental":1}}}"#;
    assert_eq!(from_str(json, ContentType::Json), CargoOrders::InvalidManifest);
    let yaml = "package:\n  name: x\nprofile:\n  release:\n    incremental: \"no\"\n";
    assert_eq!(from_str(yaml, ContentType::Yaml), CargoOrders::InvalidManifest);
    let good = "package:\n  name: x\nprofile:\n  release:\n    incremental: false\n";
    assert_eq!(from_str(good, ContentType::Yaml), CargoOrders::KeywordMissing);
}

#[test]
fn rust_version_must_read_as_a_number() {
    let bad = "[package]\nname=\"x\"\nrust-version=\"one point eight\"";
    assert_eq!(from_str(bad, ContentType::Toml), CargoOrders::InvalidManifest);
    for good in ["1.80", "1", ".5", "2.", "1e3", "-1.5E-2", "inf", "+Infinity", "NaN"] {
        let text = format!("[package]\nname=\"x\"\nrust-version=\"{good}\"");
        assert_eq!(from_str(&text, ContentType::Toml), CargoOrders::KeywordMissing, "{good}");
    }
    for bad in ["", ".", "1.2.3", "e5", "1e", "1e+", " 1", "1.80.0", "infinit"] {
        let text = format!("[package]\nname=\"x\"\nrust-version=\"{bad}\"");
        assert_eq!(bind_text(&text, ContentType::Toml), Err(BindError::InvalidRustVersion), "{bad}");
    }
}

#[test]
fn edition_and_resolver_are_closed_sets() {
    let ok = "[package]\nname=\"x\"\nedition=\"2024\"\n[workspace]\nresolver=\"2\"";
    assert_eq!(bind_text(ok, ContentType::Toml), Ok(()));
    let edition = "[package]\nname=\"x\"\nedition=\"2019\"";
    assert_eq!(bind_text(edition, ContentType::Toml), Err(BindError::InvalidEdition));
    let resolver = "[package]\nname=\"x\"\n[workspace]\nresolver=2";
    assert_eq!(bind_text(resolver, ContentType::Toml), Err(BindError::InvalidWorkspace));
    let resolver3 = "[package]\nname=\"x\"\n[workspace]\nresolver=\"3\"";
    assert_eq!(bind_text(resolver3, ContentType::Toml), Err(BindError::InvalidWorkspace));
}

#[test]
fn each_bind_error_has_its_input() {
    assert_eq!(bind_text("[other]\nname=\"x\"", ContentType::Toml), Err(BindError::MissingPackage));
    assert_eq!(bind_text("[1, 2]", ContentType::Json), Err(BindError::MissingPackage));
    assert_eq!(bind_text("[package]\nversion=\"1\"", ContentType::Toml), Err(BindError::InvalidName));
    assert_eq!(bind_text("[package]\nname=\"\"", ContentType::Toml), Err(BindError::InvalidName));
    assert_eq!(bind_text("[package]\nname=\"x\"\nkeywords=[1]", ContentType::Toml), Err(BindError::InvalidKeywords));
    assert_eq!(bind_text("[package]\nname=\"x\"\nmetadata=3", ContentType::Toml), Err(BindError::InvalidMetadata));
    assert_eq!(
        bind_text("[package]\nname=\"x\"\n[package.metadata]\norders=\"A\"", ContentType::Toml),
        Err(BindError::InvalidMetadata)
    );
    assert_eq!(bind_text("[package]\nname=\"x\"\nedition=2021", ContentType::Toml), Err(BindError::InvalidEdition));
    assert_eq!(bind_text("[package]\nname=\"x\"\nrust-version=1.5", ContentType::Toml), Err(BindError::InvalidRustVersion));
    assert_eq!(bind_text("[package]\nname=\"x\"\n[profile.dev]\nopt-level=1", ContentType::Toml), Err(BindError::InvalidProfile));
    assert_eq!(bind_text("[package]\nname=\"x\"\nworkspace=1", ContentType::Toml), Ok(()));
    assert_eq!(bind_text("[package]\nname=\"x\"\n[workspace]\nmembers=[]", ContentType::Toml), Err(BindError::InvalidWorkspace));
}

#[test]
fn null_optional_fields_count_as_absent() {
    let json = r#"{"package":{"name":"x","edition":null,"rust-version":null},"profile":null,"workspace":null}"#;
    assert_eq!(bind_text(json, ContentType::Json), Ok(()));
    let keywords = r#"{"package":{"name":"x","keywords":null}}"#;
    assert_eq!(bind_text(keywords, ContentType::Json), Err(BindError::InvalidKeywords));
}

#[test]
fn syntax_errors_are_invalid_manifests() {
    assert_eq!(decode("[package", ContentType::Toml), Err(SyntaxError::Toml));
    assert_eq!(decode("{\"package\":", ContentType::Json), Err(SyntaxError::Json));
    assert_eq!(decode("package: [1, 2", ContentType::Yaml), Err(SyntaxError::Yaml));
    assert_eq!(from_str("[package", ContentType::Toml), CargoOrders::InvalidManifest);
    assert_eq!(from_str("{\"package\":", ContentType::Json), CargoOrders::InvalidManifest);
    assert_eq!(from_str("package: [1, 2", ContentType::Yaml), CargoOrders::InvalidManifest);
    assert_eq!(from_str("name = \"x\"", ContentType::Json), CargoOrders::InvalidManifest);
}

#[test]
fn decoders_build_the_tree() {
    let toml = decode("a = 1\nb = [\"x\", true, 1.5]", ContentType::Toml).unwrap();
    let expected = GenericValue::Table(vec![
        ("a".to_string(), GenericValue::Integer(1)),
        (
            "b".to_string(),
            GenericValue::Sequence(vec![
                GenericValue::Str("x".to_string()),
                GenericValue::Boolean(true),
                GenericValue::Float,
            ]),
        ),
    ]);
    assert_eq!(toml, expected);
    let json = decode(r#"{"a": 1, "b": ["x", true, 1.5]}"#, ContentType::Json).unwrap();
    assert_eq!(json, expected);
    let yaml = decode("a: 1\nb: [x, true, 1.5]\n", ContentType::Yaml).unwrap();
    assert_eq!(yaml, expected);
    assert_eq!(decode("null", ContentType::Json).unwrap(), GenericValue::Null);
    assert_eq!(decode("d = 1979-05-27", ContentType::Toml).unwrap(), GenericValue::Table(vec![("d".to_string(), GenericValue::Other)]));
}
