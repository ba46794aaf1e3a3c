//! Stable ordering of records by an integer key: which record comes at
//! which place once a list is put in ascending or descending order, with
//! records of equal key left in the order in which they arrived.

use vstd::prelude::*;
use vstd::set_lib::{lemma_int_range, lemma_subset_equality, set_int_range};

verus! {

/// Whether the record at index `a` stands strictly before the record at
/// index `b` in the ordered list: by key, and by arrival among equal keys.
pub open spec fn stands_before(keys: Seq<i128>, descending: bool, a: int, b: int) -> bool {
    if keys[a] == keys[b] {
        a < b
    } else if descending {
        keys[a] > keys[b]
    } else {
        keys[a] < keys[b]
    }
}

/// `places` lists the indices of the first `count` records in their order.
pub open spec fn orders_prefix(
    keys: Seq<i128>,
    descending: bool,
    places: Seq<usize>,
    count: int,
) -> bool {
    &&& places.len() == count
    &&& forall|i: int| 0 <= i < places.len() ==> 0 <= #[trigger] places[i] < count
    &&& forall|i: int, j: int|
        0 <= i < j < places.len() ==> stands_before(
            keys,
            descending,
            #[trigger] places[i] as int,
            #[trigger] places[j] as int,
        )
}

/// `places` is the stable order of all records: it has one place for each
/// record, keys never run against the direction, and records of equal key
/// keep their arrival order.
pub open spec fn is_stable_order(keys: Seq<i128>, descending: bool, places: Seq<usize>) -> bool {
    orders_prefix(keys, descending, places, keys.len() as int)
}

/// Whether the record at index `a` stands strictly before the one at `b`.
fn precedes(keys: &Vec<i128>, descending: bool, a: usize, b: usize) -> (r: bool)
    requires
        a < keys.len(),
        b < keys.len(),
    ensures
        r == stands_before(keys@, descending, a as int, b as int),
{
    if keys[a] == keys[b] {
        a < b
    } else if descending {
        keys[a] > keys[b]
    } else {
        keys[a] < keys[b]
    }
}

/// Computes the stable order of records from their keys.
pub fn stable_order(keys: &Vec<i128>, descending: bool) -> (places: Vec<usize>)
    ensures
        is_stable_order(keys@, descending, places@),
{
    let mut places: Vec<usize> = Vec::new();
    let mut next: usize = 0;
    while next < keys.len()
        invariant
            next <= keys.len(),
            orders_prefix(keys@, descending, places@, next as int),
        decreases keys.len() - next,
    {
        let mut at: usize = places.len();
        while at > 0 && precedes(keys, descending, next, places[at - 1])
            invariant
                at <= places.len(),
                next < keys.len(),
                orders_prefix(keys@, descending, places@, next as int),
                forall|j: int|
                    at <= j < places.len() ==> stands_before(
                        keys@,
                        descending,
                        next as int,
                        #[trigger] places@[j] as int,
                    ),
            decreases at,
        {
            at = at - 1;
        }
        let ghost before = places@;
        places.insert(at, next);
        proof {
            let after = places@;
            assert(after == before.insert(at as int, next));
            assert forall|i: int| 0 <= i < after.len() implies 0 <= #[trigger] after[i] < next
                + 1 by {
                if i < at {
                    assert(after[i] == before[i]);
                } else if i > at {
                    assert(after[i] == before[i - 1]);
                }
            }
            assert forall|i: int, j: int| 0 <= i < j < after.len() implies stands_before(
                keys@,
                descending,
                #[trigger] after[i] as int,
                #[trigger] after[j] as int,
            ) by {
                if j < at {
                    assert(after[i] == before[i] && after[j] == before[j]);
                } else if j == at {
                    assert(after[i] == before[i]);
                    assert(before[i] < next);
                    if at > 0 {
                        let last = before[at - 1];
                        assert(last < next);
                        assert(stands_before(keys@, descending, last as int, next as int));
                        if i < at - 1 {
                            assert(stands_before(keys@, descending, before[i] as int, last as int));
                        }
                    }
                } else if i == at {
                    assert(after[j] == before[j - 1]);
                } else if i < at {
                    assert(after[i] == before[i] && after[j] == before[j - 1]);
                } else {
                    assert(after[i] == before[i - 1] && after[j] == before[j - 1]);
                }
            }
        }
        next = next + 1;
    }
    places
}

/// Every record has a place in the stable order.
pub proof fn stable_order_places_all(
    keys: Seq<i128>,
    descending: bool,
    places: Seq<usize>,
    record: int,
)
    requires
        is_stable_order(keys, descending, places),
        0 <= record < keys.len(),
    ensures
        exists|j: int| 0 <= j < places.len() && places[j] == record,
{
    let n = keys.len() as int;
    let named = Seq::new(places.len(), |i: int| places[i] as int);
    assert forall|i: int, j: int|
        0 <= i < named.len() && 0 <= j < named.len() && i != j implies named[i] != named[j] by {
        if i < j {
            assert(stands_before(keys, descending, places[i] as int, places[j] as int));
        } else {
            assert(stands_before(keys, descending, places[j] as int, places[i] as int));
        }
    }
    named.unique_seq_to_set();
    lemma_int_range(0, n);
    assert forall|v: int| named.to_set().contains(v) implies set_int_range(0, n).contains(v) by {
        let i = choose|i: int| 0 <= i < named.len() && named[i] == v;
        assert(0 <= places[i] < n);
    }
    vstd::set_lib::lemma_len_subset(named.to_set(), set_int_range(0, n));
    lemma_subset_equality(named.to_set(), set_int_range(0, n));
    assert(set_int_range(0, n).contains(record));
    assert(named.to_set().contains(record));
    let j = choose|j: int| 0 <= j < named.len() && named[j] == record;
    assert(places[j] == record);
}

proof fn stable_orders_agree(
    keys: Seq<i128>,
    descending: bool,
    first: Seq<usize>,
    second: Seq<usize>,
    upto: int,
)
    requires
        is_stable_order(keys, descending, first),
        is_stable_order(keys, descending, second),
        0 <= upto <= keys.len(),
    ensures
        forall|i: int| 0 <= i < upto ==> first[i] == second[i],
    decreases upto,
{
    if upto > 0 {
        let at = upto - 1;
        stable_orders_agree(keys, descending, first, second, at);
        let a = first[at] as int;
        let b = second[at] as int;
        if a != b {
            if stands_before(keys, descending, a, b) {
                stable_order_places_all(keys, descending, second, a);
                let j = choose|j: int| 0 <= j < second.len() && second[j] == a;
                if j < at {
                    assert(first[j] == second[j]);
                    assert(stands_before(keys, descending, first[j] as int, first[at] as int));
                } else if j > at {
                    assert(stands_before(keys, descending, second[at] as int, second[j] as int));
                }
            } else {
                assert(stands_before(keys, descending, b, a));
                stable_order_places_all(keys, descending, first, b);
                let j = choose|j: int| 0 <= j < first.len() && first[j] == b;
                if j < at {
                    assert(first[j] == second[j]);
                    assert(stands_before(keys, descending, second[j] as int, second[at] as int));
                } else if j > at {
                    assert(stands_before(keys, descending, first[at] as int, first[j] as int));
                }
            }
        }
    }
}

/// There is only one stable order: two lists that both are the stable order
/// of the same keys in the same direction are the same list.
pub proof fn stable_order_is_unique(
    keys: Seq<i128>,
    descending: bool,
    first: Seq<usize>,
    second: Seq<usize>,
)
    requires
        is_stable_order(keys, descending, first),
        is_stable_order(keys, descending, second),
    ensures
        first == second,
{
    stable_orders_agree(keys, descending, first, second, keys.len() as int);
    assert(first =~= second);
}

} // verus!
