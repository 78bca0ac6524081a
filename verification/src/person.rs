//! The finished value.

use vstd::prelude::*;
use crate::builder::PersonBuilder;
use crate::model::{BuilderModel, PersonModel};

verus! {

/// A person. Made by [`PersonBuilder::build`] from a builder on which the name
/// and the age have been given.
#[derive(Debug)]
pub struct Person {
    pub name: &'static str,
    pub age: u8,
    pub partner: Option<&'static str>,
    pub friends: Vec<&'static str>,
    pub is_dead: bool,
}

/// The names in `names`, each as its sequence of characters.
pub open spec fn names_view(names: Seq<&'static str>) -> Seq<Seq<char>> {
    Seq::new(names.len(), |i: int| names[i]@)
}

/// The name in `name`, where there is one, as its sequence of characters.
pub open spec fn opt_name_view(name: Option<&'static str>) -> Option<Seq<char>> {
    match name {
        Some(n) => Some(n@),
        None => None,
    }
}

impl View for Person {
    type V = PersonModel;

    open spec fn view(&self) -> PersonModel {
        PersonModel {
            name: self.name@,
            age: self.age,
            partner: opt_name_view(self.partner),
            friends: names_view(self.friends@),
            is_dead: self.is_dead,
        }
    }
}

impl Person {
    /// A builder on which nothing has been done yet.
    pub fn builder() -> (b: PersonBuilder<false, false, false>)
        ensures
            b@ == BuilderModel::empty(),
            b@.tag() == (false, false, false),
    {
        PersonBuilder::new()
    }
}

} // verus!
