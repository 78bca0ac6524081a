//! The builder and its transitions.

use vstd::prelude::*;
use crate::model::BuilderModel;
use crate::person::{names_view, opt_name_view, Person};

verus! {

/// A builder of a [`Person`]. `NAME`, `AGE` and `PARTNER` say which of the
/// fields that are given at most once have been given.
pub struct PersonBuilder<const NAME: bool, const AGE: bool, const PARTNER: bool> {
    name: Option<&'static str>,
    age: Option<u8>,
    partner: Option<&'static str>,
    friends: Vec<&'static str>,
    is_dead: bool,
}

impl<const NAME: bool, const AGE: bool, const PARTNER: bool> View for PersonBuilder<
    NAME,
    AGE,
    PARTNER,
> {
    type V = BuilderModel;

    closed spec fn view(&self) -> BuilderModel {
        BuilderModel {
            name: opt_name_view(self.name),
            age: self.age,
            partner: opt_name_view(self.partner),
            friends: names_view(self.friends@),
            is_dead: self.is_dead,
        }
    }
}

impl PersonBuilder<false, false, false> {
    /// A builder on which nothing has been done yet.
    pub fn new() -> (b: Self)
        ensures
            b@ == BuilderModel::empty(),
            b@.tag() == (false, false, false),
    {
        let b = PersonBuilder {
            name: None,
            age: None,
            partner: None,
            friends: Vec::new(),
            is_dead: false,
        };
        assert(b@.friends =~= Seq::empty());
        b
    }
}

impl<const PARTNER: bool> PersonBuilder<true, true, PARTNER> {
    /// The person that has been described.
    pub fn build(self) -> (p: Person)
        ensures
            self@.is_complete(),
            self@.tag() == (true, true, PARTNER),
            p@ == self@.finished(),
    {
        proof {
            use_type_invariant(&self);
        }
        Person {
            name: self.name.unwrap(),
            age: self.age.unwrap(),
            partner: self.partner,
            friends: self.friends,
            is_dead: self.is_dead,
        }
    }
}

impl<const AGE: bool, const PARTNER: bool> PersonBuilder<false, AGE, PARTNER> {
    /// Gives the person's name.
    pub fn name(self, name: &'static str) -> (b: PersonBuilder<true, AGE, PARTNER>)
        ensures
            self@.name.is_none(),
            b@ == self@.with_name(name@),
            b@.tag() == (true, AGE, PARTNER),
    {
        proof {
            use_type_invariant(&self);
        }
        PersonBuilder {
            name: Some(name),
            age: self.age,
            partner: self.partner,
            friends: self.friends,
            is_dead: self.is_dead,
        }
    }
}

impl<const NAME: bool, const PARTNER: bool> PersonBuilder<NAME, false, PARTNER> {
    /// Gives the person's age.
    pub fn age(self, age: u8) -> (b: PersonBuilder<NAME, true, PARTNER>)
        ensures
            self@.age.is_none(),
            b@ == self@.with_age(age),
            b@.tag() == (NAME, true, PARTNER),
    {
        proof {
            use_type_invariant(&self);
        }
        PersonBuilder {
            name: self.name,
            age: Some(age),
            partner: self.partner,
            friends: self.friends,
            is_dead: self.is_dead,
        }
    }
}

impl<const NAME: bool, const AGE: bool> PersonBuilder<NAME, AGE, false> {
    /// Gives the person's partner.
    pub fn partner(self, partner: &'static str) -> (b: PersonBuilder<NAME, AGE, true>)
        ensures
            self@.partner.is_none(),
            b@ == self@.with_partner(partner@),
            b@.tag() == (NAME, AGE, true),
    {
        proof {
            use_type_invariant(&self);
        }
        PersonBuilder {
            name: self.name,
            age: self.age,
            partner: Some(partner),
            friends: self.friends,
            is_dead: self.is_dead,
        }
    }
}

impl<const NAME: bool, const AGE: bool, const PARTNER: bool> PersonBuilder<NAME, AGE, PARTNER> {
    /// The state tag in the type agrees with what the builder holds.
    #[verifier::type_invariant]
    spec fn tag_agrees(self) -> bool {
        &&& self.name.is_some() == NAME
        &&& self.age.is_some() == AGE
        &&& self.partner.is_some() == PARTNER
    }

    /// Adds a friend of the person, after those added before.
    pub fn push_friend(self, friend_name: &'static str) -> (b: Self)
        ensures
            b@ == self@.with_friend(friend_name@),
            b@.tag() == (NAME, AGE, PARTNER),
    {
        proof {
            use_type_invariant(&self);
        }
        let mut friends = self.friends;
        friends.push(friend_name);
        let b = PersonBuilder {
            name: self.name,
            age: self.age,
            partner: self.partner,
            friends,
            is_dead: self.is_dead,
        };
        assert(b@.friends =~= self@.friends.push(friend_name@));
        b
    }

    /// Marks the person as dead. Doing so again changes nothing.
    pub fn dead(self) -> (b: Self)
        ensures
            b@ == self@.marked_dead(),
            b@.tag() == (NAME, AGE, PARTNER),
    {
        proof {
            use_type_invariant(&self);
        }
        PersonBuilder {
            name: self.name,
            age: self.age,
            partner: self.partner,
            friends: self.friends,
            is_dead: true,
        }
    }
}

} // verus!
