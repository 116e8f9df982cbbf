//! Animals that speak and stand: one trait, two kinds, and a function open to both.

use vstd::prelude::*;
use vstd::string::StringExecFns;

verus! {

/// What follows a dog's name when it speaks.
pub const DOG_SAYS: &'static str = " says: Woof!";

/// What follows a cat's name when it speaks.
pub const CAT_SAYS: &'static str = " says: Meow!";

/// Something that makes a sound and has legs.
pub trait Animal {
    /// The line this animal speaks.
    spec fn sound(&self) -> Seq<char>;

    /// The number of legs this animal has.
    spec fn legs(&self) -> nat;

    /// Gives the line this animal speaks.
    fn make_sound(&self) -> (line: String)
        ensures
            line@ == self.sound(),
    ;

    /// Gives the number of legs this animal has.
    fn get_num_legs(&self) -> (count: u32)
        ensures
            count == self.legs(),
    ;
}

/// A dog, known by its name.
pub struct Dog {
    pub name: String,
}

impl Animal for Dog {
    open spec fn sound(&self) -> Seq<char> {
        self.name@ + DOG_SAYS@
    }

    open spec fn legs(&self) -> nat {
        4
    }

    fn make_sound(&self) -> (line: String) {
        self.name.clone().concat(DOG_SAYS)
    }

    fn get_num_legs(&self) -> (count: u32) {
        4
    }
}

/// A cat, known by its name.
pub struct Cat {
    pub name: String,
}

impl Animal for Cat {
    open spec fn sound(&self) -> Seq<char> {
        self.name@ + CAT_SAYS@
    }

    open spec fn legs(&self) -> nat {
        4
    }

    fn make_sound(&self) -> (line: String) {
        self.name.clone().concat(CAT_SAYS)
    }

    fn get_num_legs(&self) -> (count: u32) {
        4
    }
}

/// Asks any animal for its sound and its legs, in that order.
pub fn animal_info<T: Animal>(animal: &T) -> (info: (String, u32))
    ensures
        info.0@ == animal.sound(),
        info.1 == animal.legs(),
{
    let line = animal.make_sound();
    (line, animal.get_num_legs())
}

} // verus!
