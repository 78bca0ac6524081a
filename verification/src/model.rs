//! Mathematical models of the finished person and of a builder in progress.

use vstd::prelude::*;

verus! {

/// What a finished `Person` is: its fields as plain mathematical values.
pub struct PersonModel {
    pub name: Seq<char>,
    pub age: u8,
    pub partner: Option<Seq<char>>,
    pub friends: Seq<Seq<char>>,
    pub is_dead: bool,
}

/// What a builder holds so far. A field that may be given at most once is
/// `None` until it is given.
pub struct BuilderModel {
    pub name: Option<Seq<char>>,
    pub age: Option<u8>,
    pub partner: Option<Seq<char>>,
    pub friends: Seq<Seq<char>>,
    pub is_dead: bool,
}

/// One operation on a builder, as a value.
pub enum Step {
    Name(Seq<char>),
    Age(u8),
    Partner(Seq<char>),
    Friend(Seq<char>),
    Dead,
}

impl BuilderModel {
    /// The builder on which nothing has been done.
    pub open spec fn empty() -> BuilderModel {
        BuilderModel {
            name: None,
            age: None,
            partner: None,
            friends: Seq::empty(),
            is_dead: false,
        }
    }

    /// The state tag: for the name, the age and the partner, whether it has
    /// been given.
    pub open spec fn tag(self) -> (bool, bool, bool) {
        (self.name.is_some(), self.age.is_some(), self.partner.is_some())
    }

    /// Both required fields have been given.
    pub open spec fn is_complete(self) -> bool {
        self.name.is_some() && self.age.is_some()
    }

    /// The builder after the name has been given: only the name changes.
    pub open spec fn with_name(self, name: Seq<char>) -> BuilderModel {
        BuilderModel { name: Some(name), ..self }
    }

    /// The builder after the age has been given: only the age changes.
    pub open spec fn with_age(self, age: u8) -> BuilderModel {
        BuilderModel { age: Some(age), ..self }
    }

    /// The builder after the partner has been given: only the partner changes.
    pub open spec fn with_partner(self, partner: Seq<char>) -> BuilderModel {
        BuilderModel { partner: Some(partner), ..self }
    }

    /// The builder after a friend has been added: `friend` stands last among
    /// the friends, and nothing else changes.
    pub open spec fn with_friend(self, friend: Seq<char>) -> BuilderModel {
        BuilderModel { friends: self.friends.push(friend), ..self }
    }

    /// The builder after death has been marked: the mark is set, whether or
    /// not it was, and nothing else changes.
    pub open spec fn marked_dead(self) -> BuilderModel {
        BuilderModel { is_dead: true, ..self }
    }

    /// The person that a complete builder stands for.
    pub open spec fn finished(self) -> PersonModel
        recommends
            self.is_complete(),
    {
        PersonModel {
            name: self.name.unwrap(),
            age: self.age.unwrap(),
            partner: self.partner,
            friends: self.friends,
            is_dead: self.is_dead,
        }
    }

    /// Whether `step` may be taken here: a field that is given at most once
    /// must not have been given yet; a friend may be added and death may be
    /// marked in every state.
    pub open spec fn admits(self, step: Step) -> bool {
        match step {
            Step::Name(_) => self.name.is_none(),
            Step::Age(_) => self.age.is_none(),
            Step::Partner(_) => self.partner.is_none(),
            Step::Friend(_) => true,
            Step::Dead => true,
        }
    }

    /// The builder after `step`.
    pub open spec fn step(self, step: Step) -> BuilderModel {
        match step {
            Step::Name(n) => self.with_name(n),
            Step::Age(a) => self.with_age(a),
            Step::Partner(p) => self.with_partner(p),
            Step::Friend(f) => self.with_friend(f),
            Step::Dead => self.marked_dead(),
        }
    }

    /// The builder after all of `steps`, first to last.
    pub open spec fn run(self, steps: Seq<Step>) -> BuilderModel
        decreases steps.len(),
    {
        if steps.len() == 0 {
            self
        } else {
            self.run(steps.drop_last()).step(steps.last())
        }
    }

    /// Every one of `steps` may be taken at its turn.
    pub open spec fn admits_all(self, steps: Seq<Step>) -> bool
        decreases steps.len(),
    {
        steps.len() == 0 || (self.admits_all(steps.drop_last()) && self.run(
            steps.drop_last(),
        ).admits(steps.last()))
    }
}

/// The friends that `steps` add, in the order in which they add them.
pub open spec fn friends_of(steps: Seq<Step>) -> Seq<Seq<char>>
    decreases steps.len(),
{
    if steps.len() == 0 {
        Seq::empty()
    } else {
        match steps.last() {
            Step::Friend(f) => friends_of(steps.drop_last()).push(f),
            _ => friends_of(steps.drop_last()),
        }
    }
}

/// The steps that add the friends `friends`, one after the other, and do
/// nothing else.
pub open spec fn friend_steps(friends: Seq<Seq<char>>) -> Seq<Step> {
    Seq::new(friends.len(), |i: int| Step::Friend(friends[i]))
}

} // verus!
