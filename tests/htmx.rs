use manifest_orders::Color;

#[test]
fn colours_by_name() {
    assert_eq!(Color::from("red"), Some(Color::Red));
    assert_eq!(Color::from("blue"), Some(Color::Blue));
    assert_eq!(Color::from("purple"), Some(Color::Purple));
    assert_eq!(Color::from("Red"), None);
    assert_eq!(Color::from(""), None);
}

#[test]
fn colours_cycle() {
    assert_eq!(Color::Red.next(), Color::Blue);
    assert_eq!(Color::Blue.next(), Color::Purple);
    assert_eq!(Color::Purple.next(), Color::Red);
    assert_eq!(Color::Purple.next().name(), "red");
    assert_eq!(Color::Red.name(), "red");
    assert_eq!(Color::Blue.name(), "blue");
}
