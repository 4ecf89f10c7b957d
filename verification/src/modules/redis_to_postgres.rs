//! The decisions of the copier from event streams to the database.
use vstd::prelude::*;
use crate::event::Event;

verus! {

/// Copies every stored event from its stream into the database.
pub struct RedisToPostgres;

/// The events that have a storing statement, with that statement, in order.
pub open spec fn stored_events(events: Seq<Event>) -> Seq<(Seq<char>, Seq<char>)>
    decreases events.len(),
{
    if events.len() == 0 {
        Seq::empty()
    } else {
        let rest = stored_events(events.drop_last());
        match events.last().sql_insert {
            Some(sql) => rest.push((events.last().id@, sql@)),
            None => rest,
        }
    }
}

impl RedisToPostgres {
    /// The events to copy, each with its identifier and its storing statement.
    pub fn copied_events(&self, events: &Vec<Event>) -> (r: Vec<(String, String)>)
        ensures
            r@.len() == stored_events(events@).len(),
            forall|i: int|
                0 <= i < r@.len() ==> (#[trigger] r@[i]).0@ == stored_events(events@)[i].0 && r@[i].1@
                    == stored_events(events@)[i].1,
    {
        let mut r: Vec<(String, String)> = Vec::new();
        let mut i: usize = 0;
        while i < events.len()
            invariant
                0 <= i <= events.len(),
                r@.len() == stored_events(events@.subrange(0, i as int)).len(),
                forall|k: int|
                    0 <= k < r@.len() ==> (#[trigger] r@[k]).0@ == stored_events(
                        events@.subrange(0, i as int),
                    )[k].0 && r@[k].1@ == stored_events(events@.subrange(0, i as int))[k].1,
            decreases events.len() - i,
        {
            assert(events@.subrange(0, i + 1).drop_last() =~= events@.subrange(0, i as int));
            match &events[i].sql_insert {
                Some(sql) => {
                    r.push((events[i].id.clone(), sql.clone()));
                },
                None => {},
            }
            i = i + 1;
        }
        assert(events@.subrange(0, events@.len() as int) =~= events@);
        r
    }
}

/// Whether storing a batch took long enough to be reported (over 25 ms).
pub fn insertion_is_slow(elapsed_nanos: u128) -> (r: bool)
    ensures
        r == (elapsed_nanos > 25_000_000),
{
    elapsed_nanos > 25_000_000
}

} // verus!
