use rust_basics::animals::{animal_info, Animal, Cat, Dog};

#[test]
fn a_dog_says_woof() {
    let dog = Dog { name: String::from("Buddy") };
    assert_eq!(dog.make_sound(), "Buddy says: Woof!");
}

#[test]
fn a_cat_says_meow() {
    let cat = Cat { name: String::from("Whiskers") };
    assert_eq!(cat.make_sound(), "Whiskers says: Meow!");
}

#[test]
fn dogs_and_cats_have_four_legs() {
    assert_eq!(Dog { name: String::from("Buddy") }.get_num_legs(), 4);
    assert_eq!(Cat { name: String::from("Whiskers") }.get_num_legs(), 4);
}

#[test]
fn an_animal_without_a_name_still_speaks() {
    assert_eq!(Dog { name: String::new() }.make_sound(), " says: Woof!");
    assert_eq!(Cat { name: String::new() }.make_sound(), " says: Meow!");
}

#[test]
fn speaking_leaves_the_name_in_place() {
    let dog = Dog { name: String::from("Buddy") };
    let first = dog.make_sound();
    assert_eq!(dog.name, "Buddy");
    assert_eq!(dog.make_sound(), first);
}

#[test]
fn animal_info_asks_any_animal() {
    let dog = Dog { name: String::from("Buddy") };
    let cat = Cat { name: String::from("Whiskers") };
    assert_eq!(animal_info(&dog), (String::from("Buddy says: Woof!"), 4));
    assert_eq!(animal_info(&cat), (String::from("Whiskers says: Meow!"), 4));
}
