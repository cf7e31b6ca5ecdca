use rugby::greeting::greet;

#[test]
fn works() {
    assert_eq!(String::from("Hello Developer!"), greet("Developer"));
}

#[test]
fn greets_an_empty_name() {
    assert_eq!(String::from("Hello !"), greet(""));
}

#[test]
fn greets_a_name_with_spaces() {
    assert_eq!(String::from("Hello Ada Lovelace!"), greet("Ada Lovelace"));
}
