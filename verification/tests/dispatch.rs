use lessons::dispatch::{say_hei, strlen, strlen2, strlen_dyn, strlen_dyn2, Hei};

#[test]
fn greeting_through_a_trait_object() {
    let x: &dyn Hei = &"hei".to_string();
    assert_eq!(x.weird(), "you called wierd hei");
    assert_eq!(say_hei(x), "hei hei");

    let x: &dyn Hei = &"verden";
    assert_eq!(x.weird(), "you called wierd verden");
    assert_eq!(say_hei(x), "hei verden");
    assert_eq!(x.hei(), "hei verden");
}

#[test]
fn sized_values_are_handed_back() {
    let message = String::from("hello!");
    assert_eq!(message.need_sized().to_string(), "hello!");
    assert_eq!("hello".need_sized(), "hello");
}

#[test]
fn lengths_are_in_bytes() {
    assert_eq!(strlen("hello"), 5);
    assert_eq!(strlen(""), 0);
    assert_eq!(strlen("Häagen-Dazs"), 12);
    assert_eq!(strlen2(String::from("Häagen-Dazs")), 12);
    assert_eq!(strlen_dyn2(Box::new("hello")), 5);
    assert_eq!(strlen_dyn(&"hello"), 5);
}
