use manifest_orders::Piece::{Cookie, Milk};
use manifest_orders::{
    dest_octets, escape_attribute, key_octets, ornament_step, parse_move, plan_page, sprinkle, sprinkles, xor_octets,
    LockfileError, PagePlan, Sprinkle,
};

#[test]
fn octets_add_and_subtract_with_wrapping() {
    assert_eq!(dest_octets([10, 0, 0, 0], [1, 2, 3, 255]), [11, 2, 3, 255]);
    assert_eq!(dest_octets([128, 255, 1, 0], [128, 1, 255, 0]), [0, 0, 0, 0]);
    assert_eq!(key_octets([10, 0, 0, 0], [11, 2, 3, 255]), [1, 2, 3, 255]);
    assert_eq!(key_octets([128, 255, 1, 0], [0, 0, 0, 0]), [128, 1, 255, 0]);
}

#[test]
fn ipv6_octets_xor() {
    let mut a = [0u8; 16];
    let mut b = [0u8; 16];
    a[0] = 0xfe;
    a[15] = 0x01;
    b[0] = 0x0f;
    b[15] = 0x01;
    let mut expected = [0u8; 16];
    expected[0] = 0xf1;
    assert_eq!(xor_octets(a, b), expected);
    assert_eq!(xor_octets(expected, b), a);
}

#[test]
fn attribute_escaping() {
    assert_eq!(escape_attribute("a\"<b>&c"), "a&quot;&lt;b&gt;&c");
    assert_eq!(escape_attribute(""), "");
    assert_eq!(escape_attribute("plain ⭐"), "plain ⭐");
}

#[test]
fn ornament_states() {
    assert_eq!(ornament_step("on"), Some((" on", "off")));
    assert_eq!(ornament_step("off"), Some(("", "on")));
    assert_eq!(ornament_step("ON"), None);
    assert_eq!(ornament_step(""), None);
}

#[test]
fn sprinkles_of_a_lockfile() {
    let text = r#"
[[package]]
name = "a"
checksum = "337aa8c6f0bd1ff6a7f79a2e42b8e0c3d4f7e9a1"

[[package]]
name = "b"

[[package]]
name = "c"
checksum = "+abcde+f0A"
"#;
    assert_eq!(
        sprinkles(text),
        Ok(vec![
            Sprinkle { color: "337aa8".to_string(), top: 0xc6, left: 0xf0 },
            Sprinkle { color: "+abcde".to_string(), top: 0x0f, left: 0x0a },
        ])
    );
}

#[test]
fn lockfile_errors() {
    assert_eq!(sprinkles("[[package]\n"), Err(LockfileError::Malformed));
    assert_eq!(sprinkles("name = \"x\"\n"), Err(LockfileError::Malformed));
    assert_eq!(sprinkles("[[package]]\nchecksum = 5\n"), Err(LockfileError::Malformed));
    assert_eq!(sprinkles("package = [1]\n"), Err(LockfileError::Malformed));
    assert_eq!(
        sprinkles("[[package]]\nchecksum = \"337aa8c6f0\"\n[[package]]\nchecksum = \"short\"\n"),
        Err(LockfileError::BadChecksum)
    );
    assert_eq!(sprinkles("[[package]]\nchecksum = \"zz7aa8c6f0\"\n"), Err(LockfileError::BadChecksum));
    assert_eq!(sprinkles("package = []\n"), Ok(vec![]));
}

#[test]
fn checksum_reading() {
    assert_eq!(sprinkle(&"ffffffffff".to_string()), Some(Sprinkle { color: "ffffff".to_string(), top: 255, left: 255 }));
    assert_eq!(sprinkle(&"-fffffffff".to_string()), None);
    assert_eq!(sprinkle(&"ffffff++ff".to_string()), None);
    assert_eq!(sprinkle(&"fffffé0000".to_string()), None);
    assert_eq!(sprinkle(&"fffff".to_string()), None);
}

#[test]
fn moves() {
    assert_eq!(parse_move("milk", "1"), Some((Milk, 1)));
    assert_eq!(parse_move("cookie", "4"), Some((Cookie, 4)));
    assert_eq!(parse_move("milk", "+2"), Some((Milk, 2)));
    assert_eq!(parse_move("milk", "003"), Some((Milk, 3)));
    assert_eq!(parse_move("milk", "0"), None);
    assert_eq!(parse_move("milk", "5"), None);
    assert_eq!(parse_move("milk", "-1"), None);
    assert_eq!(parse_move("milk", ""), None);
    assert_eq!(parse_move("milk", "+"), None);
    assert_eq!(parse_move("milk", "99999999999999999999999999"), None);
    assert_eq!(parse_move("tea", "1"), None);
}

#[test]
fn pages_of_the_quote_list() {
    assert_eq!(plan_page(0, 1), PagePlan { pages: 0, next_page: None, offset: 0 });
    assert_eq!(plan_page(7, 1), PagePlan { pages: 3, next_page: Some(2), offset: 0 });
    assert_eq!(plan_page(7, 3), PagePlan { pages: 3, next_page: None, offset: 6 });
    assert_eq!(plan_page(6, 2), PagePlan { pages: 2, next_page: None, offset: 3 });
}

#[test]
fn bucket_runs_dry_and_refills() {
    let mut bucket = manifest_orders::Bucket::new();
    for _ in 0..5 {
        assert!(bucket.get_milk());
    }
    assert!(!bucket.get_milk());
    bucket.refill();
    assert!(bucket.get_milk());
}
