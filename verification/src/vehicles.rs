//! Vehicles that name their make and model, and describe themselves from the two.

use vstd::prelude::*;
use vstd::string::StringExecFns;

verus! {

/// What every description of a vehicle begins with.
pub const DESCRIPTION_PREFIX: &'static str = "This is a ";

/// What stands between make and model in a description.
pub const SEPARATOR: &'static str = " ";

/// Something with a make and a model.
pub trait Vehicle {
    /// The make, as text.
    spec fn make(&self) -> Seq<char>;

    /// The model, as text.
    spec fn model(&self) -> Seq<char>;

    /// Gives the make.
    fn get_make(&self) -> (make: &str)
        ensures
            make@ == self.make(),
    ;

    /// Gives the model.
    fn get_model(&self) -> (model: &str)
        ensures
            model@ == self.model(),
    ;

    /// Describes the vehicle in one line: the prefix, the make, a space, the model. A kind of
    /// vehicle may describe itself otherwise; this is what it says if it does not.
    fn display_info(&self) -> (line: String)
        default_ensures
            line@ == DESCRIPTION_PREFIX@ + self.make() + SEPARATOR@ + self.model(),
    {
        let mut line = DESCRIPTION_PREFIX.to_owned();
        line.append(self.get_make());
        line.append(SEPARATOR);
        line.append(self.get_model());
        line
    }
}

/// A car, with its make and model.
pub struct Car {
    pub make: String,
    pub model: String,
}

impl Vehicle for Car {
    open spec fn make(&self) -> Seq<char> {
        self.make@
    }

    open spec fn model(&self) -> Seq<char> {
        self.model@
    }

    fn get_make(&self) -> (make: &str) {
        self.make.as_str()
    }

    fn get_model(&self) -> (model: &str) {
        self.model.as_str()
    }
}

} // verus!
