//! The server-ready handshake: the report that the server's side puts
//! together from its environment, and what becomes of the reporter when the
//! report does not reach the coordinator.

use crate::environment::{
    as_map, lemma_with_binding, names_distinct, with_binding, Binding, EnvReport,
};
use crate::rendezvous::Delivery;
use vstd::prelude::*;

verus! {

/// A variable that was asked for, and the value found for it in the
/// environment, if there was one.
#[derive(Debug, PartialEq, Eq)]
pub struct Lookup {
    pub name: String,
    pub value: Option<String>,
}

/// What a [`Lookup`] stands for.
pub type LookupView = (Seq<char>, Option<Seq<char>>);

impl View for Lookup {
    type V = LookupView;

    open spec fn view(&self) -> LookupView {
        (
            self.name@,
            match self.value {
                Some(value) => Some(value@),
                None => None,
            },
        )
    }
}

/// What a sequence of lookups stands for.
pub open spec fn lookups_of(list: Seq<Lookup>) -> Seq<LookupView> {
    list.map_values(|l: Lookup| l@)
}

/// The report that a sequence of lookups gives: each variable that was
/// found is bound to its value, in the order of the lookups; one that was not
/// found is left out. Where a name was looked up more than once, the last
/// value found for it stands, at the place of the first.
pub open spec fn reported(lookups: Seq<LookupView>) -> Seq<Binding>
    decreases lookups.len(),
{
    if lookups.len() == 0 {
        Seq::empty()
    } else {
        let before = reported(lookups.drop_last());
        match lookups.last().1 {
            Some(value) => with_binding(before, lookups.last().0, value),
            None => before,
        }
    }
}

/// The status with which the reporter must end at once, if the report did
/// not reach the coordinator. There is no session without the report, so
/// every failure to deliver it is fatal.
pub open spec fn fatal_status(delivery: Delivery) -> Option<i32> {
    match delivery {
        Delivery::Delivered => None,
        _ => Some(1i32),
    }
}

/// Puts the environment report together from the variables that were asked
/// for and what the environment held for each.
pub fn server_ready(lookups: Vec<Lookup>) -> (report: EnvReport)
    ensures
        report@ == reported(lookups_of(lookups@)),
        names_distinct(report@),
{
    let mut report = EnvReport::new();
    let mut i: usize = 0;
    proof {
        assert(lookups_of(lookups@).take(0) =~= Seq::<LookupView>::empty());
    }
    while i < lookups.len()
        invariant
            i <= lookups.len(),
            report@ == reported(lookups_of(lookups@).take(i as int)),
            names_distinct(report@),
        decreases lookups.len() - i,
    {
        proof {
            let upto = lookups_of(lookups@).take(i + 1);
            assert(upto.drop_last() =~= lookups_of(lookups@).take(i as int));
            assert(upto.last() == lookups@[i as int]@);
        }
        match &lookups[i].value {
            Some(value) => {
                report.insert(lookups[i].name.clone(), value.clone());
            },
            None => {},
        }
        i += 1;
    }
    proof {
        assert(lookups_of(lookups@).take(i as int) =~= lookups_of(lookups@));
    }
    report
}

/// Decides what becomes of the reporter after the attempt to deliver the
/// report: `None` if it was delivered, and otherwise the status with which
/// the process ends.
pub fn reporter_exit(delivery: Delivery) -> (status: Option<i32>)
    ensures
        status == fatal_status(delivery),
{
    match delivery {
        Delivery::Delivered => None,
        Delivery::ProxyUnavailable => Some(1),
        Delivery::InvocationFailed => Some(1),
    }
}

/// Some lookup of `name` found a value.
pub open spec fn found(lookups: Seq<LookupView>, name: Seq<char>) -> bool {
    exists|i: int| 0 <= i < lookups.len() && (#[trigger] lookups[i]).0 == name && lookups[i].1 is Some
}

/// The lookup at place `i` found a value, and no later lookup of the same
/// name found one.
pub open spec fn stands(lookups: Seq<LookupView>, i: int) -> bool {
    &&& 0 <= i < lookups.len()
    &&& lookups[i].1 is Some
    &&& forall|j: int|
        i < j < lookups.len() ==> (#[trigger] lookups[j]).0 != lookups[i].0 || lookups[j].1 is None
}

/// A report binds no name twice; it binds exactly the names for which a
/// value was found, so that a variable missing from the environment is
/// missing from the report; and each name is bound to the value that the
/// last lookup of it found.
pub proof fn lemma_reported(lookups: Seq<LookupView>)
    ensures
        names_distinct(reported(lookups)),
        forall|name: Seq<char>| #[trigger]
            as_map(reported(lookups)).contains_key(name) <==> found(lookups, name),
        forall|i: int| #[trigger]
            stands(lookups, i) ==> as_map(reported(lookups))[lookups[i].0] == lookups[i].1->0,
    decreases lookups.len(),
{
    let report = reported(lookups);
    if lookups.len() == 0 {
        assert(as_map(report) =~= Map::<Seq<char>, Seq<char>>::empty());
    } else {
        let front = lookups.drop_last();
        let last = lookups.last();
        let before = reported(front);
        lemma_reported(front);
        match last.1 {
            Some(value) => {
                lemma_with_binding(before, last.0, value);
            },
            None => {},
        }
        assert forall|name: Seq<char>| #[trigger]
            as_map(report).contains_key(name) <==> found(lookups, name) by {
            if found(front, name) {
                let i = choose|i: int|
                    0 <= i < front.len() && (#[trigger] front[i]).0 == name && front[i].1 is Some;
                assert(lookups[i] == front[i]);
            }
            if found(lookups, name) {
                let i = choose|i: int|
                    0 <= i < lookups.len() && (#[trigger] lookups[i]).0 == name
                        && lookups[i].1 is Some;
                if i < front.len() {
                    assert(front[i] == lookups[i]);
                } else {
                    assert(lookups[i] == last);
                }
            }
            if last.1 is Some && last.0 == name {
                assert(lookups[lookups.len() - 1] == last);
            }
        }
        assert forall|i: int| #[trigger] stands(lookups, i) implies as_map(report)[lookups[i].0]
            == lookups[i].1->0 by {
            if i < front.len() {
                assert(front[i] == lookups[i]);
                assert(lookups[lookups.len() - 1] == last);
                assert(stands(front, i)) by {
                    assert forall|j: int| i < j < front.len() implies (#[trigger] front[j]).0
                        != front[i].0 || front[j].1 is None by {
                        assert(front[j] == lookups[j]);
                    }
                }
            }
        }
    }
}

} // verus!
