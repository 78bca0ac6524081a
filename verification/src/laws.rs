//! Laws of the builder, proved over its model.
//!
//! The laws on single operations speak of `with_name`, `with_age` and the
//! like, which the contracts of the builder's methods use. The laws on whole
//! chains of operations speak of `run`, which applies them one by one.

use vstd::prelude::*;
use crate::model::{friend_steps, friends_of, BuilderModel, Step};

verus! {

/// Giving the name and then the age leaves the same builder, and so the same
/// person, as giving the age and then the name.
pub proof fn law_required_order(m: BuilderModel, name: Seq<char>, age: u8)
    ensures
        m.with_name(name).with_age(age) == m.with_age(age).with_name(name),
        m.with_name(name).with_age(age).finished() == m.with_age(age).with_name(name).finished(),
{
}

/// A step that does not change the state tag (adding a friend, marking death)
/// may change places with its neighbour, unless that neighbour adds a friend
/// too: the builder that results is the same.
pub proof fn law_untagged_commutes(m: BuilderModel, untagged: Step, other: Step)
    requires
        untagged is Friend || untagged is Dead,
        !(untagged is Friend && other is Friend),
    ensures
        m.step(untagged).step(other) == m.step(other).step(untagged),
        m.admits(other) == m.step(untagged).admits(other),
{
}

/// Giving the partner may change places with giving the name or the age.
pub proof fn law_partner_commutes(m: BuilderModel, partner: Seq<char>, name: Seq<char>, age: u8)
    ensures
        m.with_partner(partner).with_name(name) == m.with_name(name).with_partner(partner),
        m.with_partner(partner).with_age(age) == m.with_age(age).with_partner(partner),
{
}

/// A field that is given at most once cannot be given again, whatever is done
/// in between: after the step that gives it, no chain of admitted steps leads
/// to a builder that admits a step for the same field, and the value stays.
pub proof fn law_given_once(m: BuilderModel, given: Step, between: Seq<Step>, again: Step)
    requires
        given is Name || given is Age || given is Partner,
        m.step(given).admits_all(between),
        (given is Name && again is Name) || (given is Age && again is Age) || (given is Partner
            && again is Partner),
    ensures
        !m.step(given).run(between).admits(again),
        given is Name ==> m.step(given).run(between).name == Some(given->Name_0),
        given is Age ==> m.step(given).run(between).age == Some(given->Age_0),
        given is Partner ==> m.step(given).run(between).partner == Some(given->Partner_0),
    decreases between.len(),
{
    if between.len() > 0 {
        law_given_once(m, given, between.drop_last(), again);
    }
}

/// A builder is complete exactly when its tag says that the name and the age
/// have been given, and only then does it stand for a person with that name
/// and that age.
pub proof fn law_complete_by_tag(m: BuilderModel)
    ensures
        m.is_complete() <==> (m.tag().0 && m.tag().1),
        m.is_complete() ==> m.name == Some(m.finished().name) && m.age == Some(m.finished().age),
        BuilderModel::empty().tag() == (false, false, false),
        !BuilderModel::empty().is_complete(),
{
}

/// A step changes at most the bit of the tag that belongs to its field, and
/// only from unset to set; adding a friend and marking death change none.
pub proof fn law_step_touches_one_bit(m: BuilderModel, s: Step)
    ensures
        !(s is Name) ==> m.step(s).tag().0 == m.tag().0 && m.step(s).name == m.name,
        !(s is Age) ==> m.step(s).tag().1 == m.tag().1 && m.step(s).age == m.age,
        !(s is Partner) ==> m.step(s).tag().2 == m.tag().2 && m.step(s).partner == m.partner,
        s is Name ==> m.step(s).tag().0,
        s is Age ==> m.step(s).tag().1,
        s is Partner ==> m.step(s).tag().2,
        !(s is Friend) ==> m.step(s).friends == m.friends,
        !(s is Dead) ==> m.step(s).is_dead == m.is_dead,
{
}

/// No chain of steps clears a bit of the tag that is set.
pub proof fn law_tag_never_cleared(m: BuilderModel, steps: Seq<Step>)
    ensures
        m.tag().0 ==> m.run(steps).tag().0,
        m.tag().1 ==> m.run(steps).tag().1,
        m.tag().2 ==> m.run(steps).tag().2,
    decreases steps.len(),
{
    if steps.len() > 0 {
        law_tag_never_cleared(m, steps.drop_last());
    }
}

/// `x` is among `steps` when it is the last of them or among those before.
proof fn lemma_contains_last(steps: Seq<Step>, x: Step)
    requires
        steps.len() > 0,
    ensures
        steps.contains(x) <==> (steps.drop_last().contains(x) || steps.last() == x),
{
    let init = steps.drop_last();
    if steps.contains(x) {
        let i = choose|i: int| 0 <= i < steps.len() && steps[i] == x;
        if i < steps.len() - 1 {
            assert(init[i] == x);
        }
    }
    if init.contains(x) {
        let i = choose|i: int| 0 <= i < init.len() && init[i] == x;
        assert(steps[i] == x);
    }
    if steps.last() == x {
        assert(steps[steps.len() - 1] == x);
    }
}

/// The friends after a chain of steps are those before it and then those
/// that the chain adds, in the order of the calls, whatever other steps stand
/// between them. No other step adds or removes a friend.
pub proof fn law_friends_in_call_order(m: BuilderModel, steps: Seq<Step>)
    ensures
        m.run(steps).friends == m.friends + friends_of(steps),
        friends_of(steps).len() <= steps.len(),
    decreases steps.len(),
{
    if steps.len() == 0 {
        assert(m.friends + friends_of(steps) =~= m.friends);
    } else {
        law_friends_in_call_order(m, steps.drop_last());
        assert(m.run(steps).friends =~= m.friends + friends_of(steps));
    }
}

/// Adding `friends.len()` friends one after the other adds exactly these, in
/// this order: on a new builder the list is `friends`, of that length.
pub proof fn law_friends_appended(m: BuilderModel, friends: Seq<Seq<char>>)
    ensures
        friends_of(friend_steps(friends)) == friends,
        m.run(friend_steps(friends)).friends == m.friends + friends,
        m.run(friend_steps(friends)).friends.len() == m.friends.len() + friends.len(),
        BuilderModel::empty().run(friend_steps(friends)).friends == friends,
    decreases friends.len(),
{
    let steps = friend_steps(friends);
    if friends.len() > 0 {
        law_friends_appended(m, friends.drop_last());
        assert(steps.drop_last() =~= friend_steps(friends.drop_last()));
        assert(friends_of(steps) =~= friends);
    } else {
        assert(friends_of(steps) =~= friends);
    }
    law_friends_in_call_order(m, steps);
    law_friends_in_call_order(BuilderModel::empty(), steps);
    assert(BuilderModel::empty().friends + friends =~= friends);
}

/// Marking death twice is marking it once.
pub proof fn law_dead_idempotent(m: BuilderModel)
    ensures
        m.marked_dead().marked_dead() == m.marked_dead(),
        m.marked_dead().is_dead,
{
}

/// After a chain of steps the person is marked dead exactly when it was
/// before or one of the steps marks it: how often, and where in the chain,
/// makes no difference, and no step takes the mark away.
pub proof fn law_dead_once_marked(m: BuilderModel, steps: Seq<Step>)
    ensures
        m.run(steps).is_dead == (m.is_dead || steps.contains(Step::Dead)),
    decreases steps.len(),
{
    if steps.len() > 0 {
        law_dead_once_marked(m, steps.drop_last());
        lemma_contains_last(steps, Step::Dead);
    }
}

/// After a chain of admitted steps, a field that is given at most once holds
/// a value exactly when it held that value before or one of the steps gives
/// it. Where no step gives the partner, the partner stays as it was: on a new
/// builder, absent.
pub proof fn law_fields_by_steps(m: BuilderModel, steps: Seq<Step>)
    requires
        m.admits_all(steps),
    ensures
        forall|n: Seq<char>|
            m.run(steps).name == Some(n) <==> (m.name == Some(n) || #[trigger] steps.contains(
                Step::Name(n),
            )),
        forall|a: u8|
            m.run(steps).age == Some(a) <==> (m.age == Some(a) || #[trigger] steps.contains(
                Step::Age(a),
            )),
        forall|p: Seq<char>|
            m.run(steps).partner == Some(p) <==> (m.partner == Some(p) || #[trigger] steps.contains(
                Step::Partner(p),
            )),
    decreases steps.len(),
{
    if steps.len() > 0 {
        law_fields_by_steps(m, steps.drop_last());
        assert forall|n: Seq<char>|
            m.run(steps).name == Some(n) <==> (m.name == Some(n) || #[trigger] steps.contains(
                Step::Name(n),
            )) by {
            lemma_contains_last(steps, Step::Name(n));
        }
        assert forall|a: u8|
            m.run(steps).age == Some(a) <==> (m.age == Some(a) || #[trigger] steps.contains(
                Step::Age(a),
            )) by {
            lemma_contains_last(steps, Step::Age(a));
        }
        assert forall|p: Seq<char>|
            m.run(steps).partner == Some(p) <==> (m.partner == Some(p) || #[trigger] steps.contains(
                Step::Partner(p),
            )) by {
            lemma_contains_last(steps, Step::Partner(p));
        }
    }
}

/// A chain of admitted steps on a new builder leads to a complete builder
/// exactly when one of the steps gives the name and one gives the age.
pub proof fn law_complete_by_steps(steps: Seq<Step>)
    requires
        BuilderModel::empty().admits_all(steps),
    ensures
        BuilderModel::empty().run(steps).is_complete() <==> ((exists|n: Seq<char>|
            steps.contains(Step::Name(n))) && (exists|a: u8| steps.contains(Step::Age(a)))),
{
    law_fields_by_steps(BuilderModel::empty(), steps);
    let r = BuilderModel::empty().run(steps);
    if r.is_complete() {
        assert(steps.contains(Step::Name(r.name.unwrap())));
        assert(steps.contains(Step::Age(r.age.unwrap())));
    }
}

/// Where no step gives the partner, the person has none; where a step gives
/// it, the person has exactly the partner that was given.
pub proof fn law_partner_default(steps: Seq<Step>)
    requires
        BuilderModel::empty().admits_all(steps),
    ensures
        (forall|p: Seq<char>| !steps.contains(Step::Partner(p))) ==> BuilderModel::empty().run(
            steps,
        ).finished().partner.is_none(),
        forall|p: Seq<char>| #[trigger]
            steps.contains(Step::Partner(p)) ==> BuilderModel::empty().run(
                steps,
            ).finished().partner == Some(p),
{
    law_fields_by_steps(BuilderModel::empty(), steps);
    let r = BuilderModel::empty().run(steps);
    if r.partner.is_some() {
        assert(steps.contains(Step::Partner(r.partner.unwrap())));
    }
}

/// The order of the steps does not matter, but for that of the friends: two
/// chains of admitted steps that hold the same steps and add the same friends
/// in the same order lead to the same builder, and so to the same person.
pub proof fn law_order_independent(m: BuilderModel, first: Seq<Step>, second: Seq<Step>)
    requires
        m.admits_all(first),
        m.admits_all(second),
        forall|s: Step| first.contains(s) <==> second.contains(s),
        friends_of(first) == friends_of(second),
    ensures
        m.run(first) == m.run(second),
        m.run(first).finished() == m.run(second).finished(),
{
    let a = m.run(first);
    let b = m.run(second);
    law_fields_by_steps(m, first);
    law_fields_by_steps(m, second);
    law_friends_in_call_order(m, first);
    law_friends_in_call_order(m, second);
    law_dead_once_marked(m, first);
    law_dead_once_marked(m, second);
    assert(a.name == b.name) by {
        if a.name.is_some() {
            let n = a.name.unwrap();
            assert(first.contains(Step::Name(n)) <==> second.contains(Step::Name(n)));
        }
        if b.name.is_some() {
            let n = b.name.unwrap();
            assert(first.contains(Step::Name(n)) <==> second.contains(Step::Name(n)));
        }
    }
    assert(a.age == b.age) by {
        if a.age.is_some() {
            let n = a.age.unwrap();
            assert(first.contains(Step::Age(n)) <==> second.contains(Step::Age(n)));
        }
        if b.age.is_some() {
            let n = b.age.unwrap();
            assert(first.contains(Step::Age(n)) <==> second.contains(Step::Age(n)));
        }
    }
    assert(a.partner == b.partner) by {
        if a.partner.is_some() {
            let n = a.partner.unwrap();
            assert(first.contains(Step::Partner(n)) <==> second.contains(Step::Partner(n)));
        }
        if b.partner.is_some() {
            let n = b.partner.unwrap();
            assert(first.contains(Step::Partner(n)) <==> second.contains(Step::Partner(n)));
        }
    }
    assert(first.contains(Step::Dead) <==> second.contains(Step::Dead));
}

} // verus!
