//! The bridge's model of the opaque, dynamically typed values that cross the
//! host boundary in both directions.

use vstd::prelude::*;

verus! {

/// An opaque, dynamically typed host value: the shapes the bridge reads from
/// a request or builds for a response. `Other` stands for a host value of any
/// further shape (a number where a string was owed, a null, a function);
/// the decoder only ever rejects such a value.
#[derive(Debug)]
pub enum HostValue {
    Str(String),
    Bool(bool),
    Int(i64),
    Arr(Vec<HostValue>),
    Obj(Vec<(String, HostValue)>),
    Other,
}

/// The value under `key` in an object's property list. A later property of
/// the same name shadows an earlier one: the last write wins.
pub open spec fn lookup(pairs: Seq<(String, HostValue)>, key: Seq<char>) -> Option<HostValue>
    decreases pairs.len(),
{
    if pairs.len() == 0 {
        None::<HostValue>
    } else if pairs.last().0@ == key {
        Some(pairs.last().1)
    } else {
        lookup(pairs.drop_last(), key)
    }
}

/// Find the value under `key`, the last write winning.
pub fn find<'a>(pairs: &'a Vec<(String, HostValue)>, key: &String) -> (r: Option<&'a HostValue>)
    ensures
        (r matches Some(v) ==> lookup(pairs@, key@) == Some(*v)),
        (r is None ==> lookup(pairs@, key@) is None),
{
    let mut i: usize = pairs.len();
    proof {
        assert(pairs@.take(pairs@.len() as int) =~= pairs@);
    }
    while i > 0
        invariant
            i <= pairs@.len(),
            lookup(pairs@, key@) == lookup(pairs@.take(i as int), key@),
        decreases i,
    {
        i = i - 1;
        proof {
            assert(pairs@.take(i + 1).last() == pairs@[i as int]);
            assert(pairs@.take(i + 1).drop_last() =~= pairs@.take(i as int));
        }
        if pairs[i].0 == *key {
            return Some(&pairs[i].1);
        }
    }
    None
}

} // verus!
