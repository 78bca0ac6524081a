use typesafe_builder::{Person, PersonBuilder};

#[test]
fn end_to_end_required_first() {
    let person = Person::builder()
        .name("John")
        .age(42)
        .partner("Jane")
        .push_friend("Bob")
        .push_friend("Sam")
        .dead()
        .dead()
        .build();
    assert_eq!(person.name, "John");
    assert_eq!(person.age, 42);
    assert_eq!(person.partner, Some("Jane"));
    assert_eq!(person.friends, vec!["Bob", "Sam"]);
    assert!(person.is_dead);
}

#[test]
fn end_to_end_required_last() {
    let person = Person::builder()
        .dead()
        .push_friend("Bob")
        .partner("Jane")
        .dead()
        .push_friend("Sam")
        .age(42)
        .name("John")
        .build();
    assert_eq!(person.name, "John");
    assert_eq!(person.age, 42);
    assert_eq!(person.partner, Some("Jane"));
    assert_eq!(person.friends, vec!["Bob", "Sam"]);
    assert!(person.is_dead);
}

#[test]
fn end_to_end_interleaved() {
    let person = Person::builder()
        .name("John")
        .age(42)
        .push_friend("Bob")
        .partner("Jane")
        .dead()
        .dead()
        .push_friend("Sam")
        .build();
    assert_eq!(person.name, "John");
    assert_eq!(person.age, 42);
    assert_eq!(person.partner, Some("Jane"));
    assert_eq!(person.friends, vec!["Bob", "Sam"]);
    assert!(person.is_dead);
}

#[test]
fn name_then_age_equals_age_then_name() {
    let a = PersonBuilder::new().name("Ada").age(36).build();
    let b = PersonBuilder::new().age(36).name("Ada").build();
    assert_eq!(a.name, "Ada");
    assert_eq!(b.name, "Ada");
    assert_eq!(a.age, 36);
    assert_eq!(b.age, 36);
    assert_eq!(a.partner, b.partner);
    assert_eq!(a.friends, b.friends);
    assert_eq!(a.is_dead, b.is_dead);
}

#[test]
fn only_required_fields_gives_defaults() {
    let person = PersonBuilder::new().name("Ada").age(0).build();
    assert_eq!(person.name, "Ada");
    assert_eq!(person.age, 0);
    assert_eq!(person.partner, None);
    assert!(person.friends.is_empty());
    assert!(!person.is_dead);
}

#[test]
fn partner_given_is_kept_exactly() {
    let before = PersonBuilder::new().partner("Jane").name("John").age(255).build();
    let between = PersonBuilder::new().name("John").partner("Jane").age(255).build();
    let after = PersonBuilder::new().name("John").age(255).partner("Jane").build();
    assert_eq!(before.partner, Some("Jane"));
    assert_eq!(between.partner, Some("Jane"));
    assert_eq!(after.partner, Some("Jane"));
    assert_eq!(after.age, 255);
}

#[test]
fn empty_strings_are_values_like_any_other() {
    let person = PersonBuilder::new().name("").partner("").push_friend("").age(7).build();
    assert_eq!(person.name, "");
    assert_eq!(person.partner, Some(""));
    assert_eq!(person.friends, vec![""]);
}

#[test]
fn no_friend_added_gives_empty_list() {
    let person = PersonBuilder::new().name("John").age(42).dead().build();
    assert_eq!(person.friends.len(), 0);
}

#[test]
fn friends_come_out_in_call_order() {
    let person = PersonBuilder::new()
        .push_friend("a")
        .name("John")
        .push_friend("b")
        .push_friend("c")
        .age(42)
        .push_friend("d")
        .partner("Jane")
        .push_friend("e")
        .build();
    assert_eq!(person.friends.len(), 5);
    assert_eq!(person.friends, vec!["a", "b", "c", "d", "e"]);
}

#[test]
fn the_same_friend_twice_is_kept_twice() {
    let person = PersonBuilder::new().name("John").age(42).push_friend("Bob").push_friend("Bob").build();
    assert_eq!(person.friends, vec!["Bob", "Bob"]);
}

#[test]
fn many_friends_keep_their_count() {
    let names: [&'static str; 4] = ["w", "x", "y", "z"];
    let mut builder = PersonBuilder::new().name("John").age(42);
    let mut expected: Vec<&'static str> = Vec::new();
    for round in 0..25 {
        let friend = names[round % 4];
        builder = builder.push_friend(friend);
        expected.push(friend);
    }
    let person = builder.build();
    assert_eq!(person.friends.len(), 25);
    assert_eq!(person.friends, expected);
}

#[test]
fn dead_once_equals_dead_many_times() {
    let once = PersonBuilder::new().name("John").age(42).dead().build();
    let thrice = PersonBuilder::new().dead().name("John").dead().age(42).dead().build();
    assert!(once.is_dead);
    assert!(thrice.is_dead);
}

#[test]
fn not_dead_unless_marked() {
    let person = PersonBuilder::new().name("John").age(42).push_friend("Bob").partner("Jane").build();
    assert!(!person.is_dead);
}

#[test]
fn builder_and_new_start_alike() {
    let a = Person::builder().name("John").age(42).build();
    let b = PersonBuilder::new().name("John").age(42).build();
    assert_eq!(a.name, b.name);
    assert_eq!(a.age, b.age);
    assert_eq!(a.partner, None);
    assert_eq!(b.partner, None);
    assert!(a.friends.is_empty());
    assert!(b.friends.is_empty());
    assert!(!a.is_dead);
    assert!(!b.is_dead);
}

#[test]
fn separate_statements_carry_the_state_in_the_type() {
    let builder: PersonBuilder<false, false, false> = PersonBuilder::new();
    let builder: PersonBuilder<true, false, false> = builder.name("John");
    let mut builder: PersonBuilder<true, true, false> = builder.age(42);
    builder = builder.push_friend("Bob");
    builder = builder.dead();
    let builder: PersonBuilder<true, true, true> = builder.partner("Jane");
    let person = builder.build();
    assert_eq!(person.name, "John");
    assert_eq!(person.age, 42);
    assert_eq!(person.partner, Some("Jane"));
    assert_eq!(person.friends, vec!["Bob"]);
    assert!(person.is_dead);
}

#[test]
fn builders_are_independent_of_each_other() {
    let first = PersonBuilder::new().push_friend("Bob").dead();
    let second = PersonBuilder::new().push_friend("Sam");
    let a = first.name("John").age(42).build();
    let b = second.name("Jane").age(41).build();
    assert_eq!(a.friends, vec!["Bob"]);
    assert_eq!(b.friends, vec!["Sam"]);
    assert!(a.is_dead);
    assert!(!b.is_dead);
    assert_eq!(a.name, "John");
    assert_eq!(b.name, "Jane");
}

#[test]
fn debug_output_names_the_fields() {
    let person = PersonBuilder::new().name("John").age(42).build();
    let text = format!("{:?}", person);
    assert!(text.contains("Person"));
    assert!(text.contains("John"));
    assert!(text.contains("42"));
}
