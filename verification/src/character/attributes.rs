//! The attribute totals of a gear set: a map from the id of an attribute to
//! its total. On the wire it is an object with one member for each
//! attribute, named by the decimal numeral of the id. A hash map is walked
//! in no particular order, so the encoder sorts: it writes the members in
//! ascending order of id.

use crate::json::{fields_model, no_fields, put, Json, JsonModel};
use crate::text::{
    decimal, decimal_string, decimal_value, lemma_decimal_value_of_decimal, parse_u32,
};
use crate::wire::Wire;
use std::collections::HashMap;
use vstd::prelude::*;
use vstd::std_specs::iter::IteratorSpec;

verus! {

/// The number of ids there are: ids are 32-bit numbers.
pub open spec fn id_count() -> nat {
    0x1_0000_0000
}

/// The id that a member name stands for, if it is the numeral of one.
pub open spec fn id_of_name(name: Seq<char>) -> Option<u32> {
    match decimal_value(name) {
        Some(n) => if n < id_count() {
            Some(n as u32)
        } else {
            None
        },
        None => None,
    }
}

/// The member that stands for the attribute `id` with the total `total`.
pub open spec fn attribute_member(id: u32, total: u32) -> (Seq<char>, JsonModel) {
    (decimal(id as nat), u32::encoded(total))
}

/// The members for the attributes of `totals` whose id is below `bound`,
/// in ascending order of id.
pub open spec fn attribute_members(totals: Map<u32, u32>, bound: nat) -> Seq<(Seq<char>, JsonModel)>
    decreases bound,
{
    if bound == 0 {
        Seq::empty()
    } else {
        let id = (bound - 1) as u32;
        let below = attribute_members(totals, (bound - 1) as nat);
        if totals.contains_key(id) {
            below.push(attribute_member(id, totals[id]))
        } else {
            below
        }
    }
}

/// What the members of an object decode to as attribute totals. A member
/// whose name is not the numeral of an id, or whose value is not a 32-bit
/// count, is reported by its name; of two such members the earlier is
/// reported. Where two members name the same id, the later one counts.
pub open spec fn decoded_attributes(fields: Seq<(Seq<char>, JsonModel)>) -> Result<
    Map<u32, u32>,
    Seq<char>,
>
    decreases fields.len(),
{
    if fields.len() == 0 {
        Ok(Map::empty())
    } else {
        match decoded_attributes(fields.drop_last()) {
            Err(path) => Err(path),
            Ok(totals) => match (id_of_name(fields.last().0), u32::decoded(fields.last().1)) {
                (Some(id), Ok(total)) => Ok(totals.insert(id, total)),
                _ => Err(fields.last().0),
            },
        }
    }
}

/// The part of `totals` that lies below `bound`.
pub open spec fn totals_below(totals: Map<u32, u32>, bound: nat) -> Map<u32, u32> {
    Map::new(|id: u32| id < bound && totals.contains_key(id), |id: u32| totals[id])
}

/// Whether `entries` lists `totals`: every entry is one of the map, every
/// id of the map has its entry, and the ids ascend.
pub open spec fn lists(entries: Seq<(u32, u32)>, totals: Map<u32, u32>) -> bool {
    &&& forall|i: int|
        0 <= i < entries.len() ==> totals.contains_key(#[trigger] entries[i].0)
            && totals[entries[i].0] == entries[i].1
    &&& forall|id: u32| #[trigger]
        totals.contains_key(id) ==> exists|i: int|
            0 <= i < entries.len() && (#[trigger] entries[i]).0 == id
    &&& forall|i: int, j: int|
        0 <= i < j < entries.len() ==> (#[trigger] entries[i]).0 < (#[trigger] entries[j]).0
}

/// The members that stand for a list of entries, in the order of the list.
pub open spec fn members_of(entries: Seq<(u32, u32)>) -> Seq<(Seq<char>, JsonModel)> {
    Seq::new(entries.len(), |i: int| attribute_member(entries[i].0, entries[i].1))
}

/// Ids that the map does not hold add no member.
proof fn lemma_members_gap(totals: Map<u32, u32>, low: nat, high: nat)
    requires
        low <= high <= id_count(),
        forall|id: u32| low <= id < high ==> !totals.contains_key(id),
    ensures
        attribute_members(totals, high) == attribute_members(totals, low),
    decreases high - low,
{
    if low < high {
        lemma_members_gap(totals, low, (high - 1) as nat);
    }
}

/// Whether two maps say the same of `id`.
spec fn agree_at(a: Map<u32, u32>, b: Map<u32, u32>, id: u32) -> bool {
    a.contains_key(id) == b.contains_key(id) && (a.contains_key(id) ==> a[id] == b[id])
}

/// The members below a bound depend on the map below that bound alone.
proof fn lemma_members_agree(a: Map<u32, u32>, b: Map<u32, u32>, bound: nat)
    requires
        bound <= id_count(),
        forall|id: u32| id < bound ==> #[trigger] agree_at(a, b, id),
    ensures
        attribute_members(a, bound) == attribute_members(b, bound),
    decreases bound,
{
    if bound > 0 {
        lemma_members_agree(a, b, (bound - 1) as nat);
        assert(agree_at(a, b, (bound - 1) as u32));
    }
}

/// The members written from an ascending list of a map are the members of
/// the map.
proof fn lemma_members_of_listing(entries: Seq<(u32, u32)>, totals: Map<u32, u32>)
    requires
        lists(entries, totals),
    ensures
        members_of(entries) == attribute_members(totals, id_count()),
    decreases entries.len(),
{
    if entries.len() == 0 {
        assert forall|id: u32| 0 <= id < id_count() implies !totals.contains_key(id) by {
            if totals.contains_key(id) {
                let i = choose|i: int| 0 <= i < entries.len() && (#[trigger] entries[i]).0 == id;
            }
        }
        lemma_members_gap(totals, 0, id_count());
        assert(members_of(entries) =~= Seq::empty());
    } else {
        let last = entries.last();
        let front = entries.drop_last();
        let rest = totals.remove(last.0);
        assert(lists(front, rest)) by {
            assert forall|id: u32| #[trigger] rest.contains_key(id) implies exists|i: int|
                0 <= i < front.len() && (#[trigger] front[i]).0 == id by {
                let i = choose|i: int| 0 <= i < entries.len() && (#[trigger] entries[i]).0 == id;
                assert(front[i] == entries[i]);
            }
            assert forall|i: int| 0 <= i < front.len() implies rest.contains_key(
                #[trigger] front[i].0,
            ) && rest[front[i].0] == front[i].1 by {
                assert(front[i] == entries[i]);
                assert(entries[i].0 < entries[entries.len() - 1].0);
            }
            assert forall|i: int, j: int| 0 <= i < j < front.len() implies (#[trigger] front[i]).0
                < (#[trigger] front[j]).0 by {
                assert(front[i] == entries[i] && front[j] == entries[j]);
            }
        }
        lemma_members_of_listing(front, rest);
        // No id above the last entry is in the map, and none from it on in the rest.
        assert forall|id: u32| last.0 < id < id_count() implies !totals.contains_key(id) by {
            if totals.contains_key(id) {
                let i = choose|i: int| 0 <= i < entries.len() && (#[trigger] entries[i]).0 == id;
                if i < entries.len() - 1 {
                    assert(entries[i].0 < entries[entries.len() - 1].0);
                }
            }
        }
        assert forall|id: u32| last.0 <= id < id_count() implies !rest.contains_key(id) by {
        }
        lemma_members_gap(totals, (last.0 + 1) as nat, id_count());
        lemma_members_gap(rest, last.0 as nat, id_count());
        assert forall|id: u32| id < last.0 implies #[trigger] agree_at(totals, rest, id) by {
        }
        lemma_members_agree(totals, rest, last.0 as nat);
        assert(totals.contains_key(last.0) && totals[last.0] == last.1) by {
            assert(entries[entries.len() - 1] == last);
        }
        assert(members_of(entries) =~= members_of(front).push(attribute_member(last.0, last.1)));
    }
}

/// A failure among the first members is the failure of the object.
proof fn lemma_decoded_attributes_failure(fields: Seq<(Seq<char>, JsonModel)>, k: int)
    requires
        0 <= k <= fields.len(),
        decoded_attributes(fields.take(k)) is Err,
    ensures
        decoded_attributes(fields) == decoded_attributes(fields.take(k)),
    decreases fields.len() - k,
{
    if k == fields.len() {
        assert(fields.take(k) =~= fields);
    } else {
        assert(fields.drop_last().take(k) =~= fields.take(k));
        lemma_decoded_attributes_failure(fields.drop_last(), k);
    }
}

/// The members of the attributes below a bound decode to those attributes.
proof fn lemma_attributes_round_trip(totals: Map<u32, u32>, bound: nat)
    requires
        bound <= id_count(),
    ensures
        decoded_attributes(attribute_members(totals, bound)) == Ok::<Map<u32, u32>, Seq<char>>(
            totals_below(totals, bound),
        ),
    decreases bound,
{
    if bound == 0 {
        assert(totals_below(totals, 0) =~= Map::empty());
    } else {
        let id = (bound - 1) as u32;
        let below = attribute_members(totals, (bound - 1) as nat);
        lemma_attributes_round_trip(totals, (bound - 1) as nat);
        if totals.contains_key(id) {
            let members = below.push(attribute_member(id, totals[id]));
            lemma_decimal_value_of_decimal(id as nat);
            u32::lemma_round_trip(totals[id]);
            assert(members.drop_last() =~= below);
            assert(totals_below(totals, bound) =~= totals_below(
                totals,
                (bound - 1) as nat,
            ).insert(id, totals[id]));
        } else {
            assert(totals_below(totals, bound) =~= totals_below(totals, (bound - 1) as nat));
        }
    }
}

/// A map keyed by numbers is its own mathematical value.
proof fn lemma_totals_view(totals: HashMap<u32, u32>)
    ensures
        totals.deep_view() == totals@,
{
    reveal(vstd::std_specs::hash::hash_map_deep_view_impl);
}

/// Whether `sorted` holds the entries of `entries`, each once, with the
/// ids ascending.
spec fn sorts(sorted: Seq<(u32, u32)>, entries: Seq<(u32, u32)>) -> bool {
    &&& forall|x: (u32, u32)| sorted.contains(x) <==> entries.contains(x)
    &&& forall|i: int, j: int|
        0 <= i < j < sorted.len() ==> (#[trigger] sorted[i]).0 < (#[trigger] sorted[j]).0
}

/// Whether no two of the entries have the same id.
spec fn distinct_ids(entries: Seq<(u32, u32)>) -> bool {
    forall|i: int, j: int|
        0 <= i < j < entries.len() ==> (#[trigger] entries[i]).0 != (#[trigger] entries[j]).0
}

/// Puts entries with distinct ids in ascending order of id.
fn sort_by_id(entries: &Vec<(u32, u32)>) -> (sorted: Vec<(u32, u32)>)
    requires
        distinct_ids(entries@),
    ensures
        sorts(sorted@, entries@),
{
    let mut sorted: Vec<(u32, u32)> = Vec::new();
    let mut k: usize = 0;
    while k < entries.len()
        invariant
            0 <= k <= entries.len(),
            distinct_ids(entries@),
            sorts(sorted@, entries@.take(k as int)),
        decreases entries.len() - k,
    {
        let entry = entries[k];
        let mut at: usize = 0;
        while at < sorted.len() && sorted[at].0 < entry.0
            invariant
                0 <= at <= sorted.len(),
                forall|i: int| 0 <= i < at ==> (#[trigger] sorted@[i]).0 < entry.0,
            decreases sorted.len() - at,
        {
            at = at + 1;
        }
        let ghost before = sorted@;
        let ghost seen = entries@.take(k as int);
        proof {
            // The id of the new entry is not among those already placed.
            assert forall|i: int| 0 <= i < before.len() implies (#[trigger] before[i]).0
                != entry.0 by {
                assert(seen.contains(before[i]));
            }
        }
        sorted.insert(at, entry);
        proof {
            let after = sorted@;
            let next = entries@.take(k + 1);
            assert forall|i: int, j: int| 0 <= i < j < after.len() implies (#[trigger] after[i]).0
                < (#[trigger] after[j]).0 by {
            }
            assert forall|x: (u32, u32)| after.contains(x) <==> next.contains(x) by {
                if x == entry {
                    assert(after[at as int] == x && next[k as int] == x);
                } else if after.contains(x) {
                    assert(seen.contains(x));
                    let j = choose|j: int| 0 <= j < seen.len() && seen[j] == x;
                    assert(next[j] == x);
                } else if next.contains(x) {
                    assert(before.contains(x));
                    let i = choose|i: int| 0 <= i < before.len() && before[i] == x;
                    assert(after[i] == x || after[i + 1] == x);
                }
            }
        }
        k = k + 1;
    }
    proof {
        assert(entries@.take(entries.len() as int) =~= entries@);
    }
    sorted
}

/// The entries of `totals`, in ascending order of id.
pub fn entries_of(totals: &HashMap<u32, u32>) -> (entries: Vec<(u32, u32)>)
    ensures
        lists(entries@, totals@),
{
    let mut found: Vec<(u32, u32)> = Vec::new();
    proof {
        broadcast use vstd::std_specs::hash::group_hash_axioms;

    }
    let walk = totals.iter();
    let ghost all = walk.remaining();
    for kv in it: walk
        invariant
            it.seq() == all,
            found@.len() == it.index(),
            forall|i: int| 0 <= i < found@.len() ==> found@[i] == (*all[i].0, *all[i].1),
    {
        found.push((*kv.0, *kv.1));
    }
    proof {
        // No id is met twice: the walk yields no pair twice, and the total
        // of an id is the one that the map holds.
        assert forall|i: int, j: int| 0 <= i < j < found@.len() implies (#[trigger] found@[i]).0
            != (#[trigger] found@[j]).0 by {
            if found@[i].0 == found@[j].0 {
                assert(totals@[*all[i].0] == *all[i].1 && totals@[*all[j].0] == *all[j].1);
                assert(all[i] == all[j]);
            }
        }
    }
    let entries = sort_by_id(&found);
    proof {
        assert forall|i: int| 0 <= i < entries@.len() implies totals@.contains_key(
            #[trigger] entries@[i].0,
        ) && totals@[entries@[i].0] == entries@[i].1 by {
            assert(found@.contains(entries@[i]));
        }
        assert forall|id: u32| #[trigger] totals@.contains_key(id) implies exists|i: int|
            0 <= i < entries@.len() && (#[trigger] entries@[i]).0 == id by {
            let pair = (&id, &totals@[id]);
            assert(all.contains(pair));
            let j = choose|j: int| 0 <= j < all.len() && all[j] == pair;
            assert(found@.contains(found@[j]));
            let i = choose|i: int| 0 <= i < entries@.len() && entries@[i] == found@[j];
            assert(entries@[i].0 == id);
        }
    }
    entries
}

impl Wire for HashMap<u32, u32> {
    open spec fn decoded(doc: JsonModel) -> Result<Map<u32, u32>, Seq<char>> {
        match doc {
            JsonModel::Object(fields) => decoded_attributes(fields),
            _ => Err(Seq::empty()),
        }
    }

    open spec fn encoded(value: Map<u32, u32>) -> JsonModel {
        JsonModel::Object(attribute_members(value, id_count()))
    }

    fn from_json(doc: &Json) -> (r: Result<HashMap<u32, u32>, String>) {
        match doc.as_object() {
            None => Err(String::new()),
            Some(fields) => {
                let ghost all = fields_model(fields@);
                let mut totals: HashMap<u32, u32> = HashMap::new();
                let mut i: usize = 0;
                proof {
                    broadcast use vstd::std_specs::hash::group_hash_axioms;

                }
                while i < fields.len()
                    invariant
                        0 <= i <= fields.len(),
                        all == fields_model(fields@),
                        doc.model() == JsonModel::Object(all),
                        vstd::std_specs::hash::obeys_key_model::<u32>(),
                        vstd::std_specs::hash::builds_valid_hashers::<std::hash::RandomState>(),
                        decoded_attributes(all.take(i as int)) == Ok::<Map<u32, u32>, Seq<char>>(
                            totals@,
                        ),
                    decreases fields.len() - i,
                {
                    proof {
                        assert(all.take(i + 1).drop_last() =~= all.take(i as int));
                    }
                    let id = parse_u32(fields[i].0.as_str());
                    let total = u32::from_json(&fields[i].1);
                    match (id, total) {
                        (Some(id), Ok(total)) => {
                            totals.insert(id, total);
                        },
                        _ => {
                            proof {
                                lemma_decoded_attributes_failure(all, i + 1);
                            }
                            return Err(fields[i].0.clone());
                        },
                    }
                    i = i + 1;
                }
                proof {
                    assert(all.take(fields.len() as int) =~= all);
                    lemma_totals_view(totals);
                }
                Ok(totals)
            },
        }
    }

    fn to_json(&self) -> (doc: Json) {
        let entries = entries_of(self);
        let mut fields = no_fields();
        let mut i: usize = 0;
        while i < entries.len()
            invariant
                0 <= i <= entries.len(),
                fields_model(fields@) == members_of(entries@).take(i as int),
            decreases entries.len() - i,
        {
            let name = decimal_string(entries[i].0 as u64);
            let ghost before = fields_model(fields@);
            put(&mut fields, name.as_str(), entries[i].1.to_json());
            proof {
                assert(members_of(entries@).take(i + 1) =~= before.push(
                    attribute_member(entries@[i as int].0, entries@[i as int].1),
                ));
            }
            i = i + 1;
        }
        proof {
            assert(members_of(entries@).take(entries.len() as int) =~= members_of(entries@));
            lemma_members_of_listing(entries@, self@);
            lemma_totals_view(*self);
        }
        Json::object(fields)
    }

    proof fn lemma_round_trip(value: Map<u32, u32>) {
        lemma_attributes_round_trip(value, id_count());
        assert(totals_below(value, id_count()) =~= value);
    }
}

} // verus!
