//! The registry of clients that have reported in, keyed by their identifier.

use vstd::prelude::*;
use vstd::std_specs::hash::spec_hash_map_iter;
use vstd::std_specs::iter::IteratorSpec;
use std::collections::HashMap;
use crate::text::{eq_ignoring_ascii_case, same_ignoring_ascii_case};

verus! {

/// A registered client.
#[derive(Clone, Debug)]
pub struct Client {
    pub id: u32,
    pub ip: String,
    pub status: String,
    pub port: u16,
    pub cid: u32,
}

/// Whether `ids` names every client of the registry exactly once.
pub open spec fn lists_each_once(ids: Seq<u32>, clients: Map<u32, Client>) -> bool {
    ids.no_duplicates() && ids.to_set() == clients.dom()
}

/// The clients that `ids` names, in that order.
pub open spec fn clients_in_order(ids: Seq<u32>, clients: Map<u32, Client>) -> Seq<Client> {
    ids.map_values(|id: u32| clients[id])
}

/// The keys of the entries a walk over the registry yields, in walk order.
pub open spec fn walked_ids(entries: Seq<(&u32, &Client)>) -> Seq<u32> {
    Seq::new(entries.len(), |i: int| *entries[i].0)
}

/// A walk over the registry meets every client exactly once, each under its key.
pub proof fn lemma_walk_meets_each_once(
    clients: &HashMap<u32, Client>,
    entries: Seq<(&u32, &Client)>,
)
    requires
        entries == spec_hash_map_iter(clients).remaining(),
        entries.no_duplicates(),
    ensures
        lists_each_once(walked_ids(entries), clients@),
        entries.len() == clients@.dom().len(),
        forall|i: int|
            0 <= i < entries.len() ==> clients@.contains_key(#[trigger] walked_ids(entries)[i])
                && clients@[walked_ids(entries)[i]] == *entries[i].1,
{
    broadcast use vstd::std_specs::hash::group_hash_axioms;

    let ids = walked_ids(entries);
    assert forall|i: int| 0 <= i < entries.len() implies clients@.contains_key(#[trigger] ids[i])
        && clients@[ids[i]] == *entries[i].1 by {
        assert(clients@.contains_key(*entries[i].0));
    }
    assert forall|i: int, j: int| 0 <= i < ids.len() && 0 <= j < ids.len() && i != j implies ids[i]
        != ids[j] by {
        if ids[i] == ids[j] {
            assert(*entries[i].1 == *entries[j].1);
            assert(entries[i] == entries[j]);
        }
    }
    assert forall|id: u32| ids.to_set().contains(id) <==> clients@.dom().contains(id) by {
        if ids.to_set().contains(id) {
            let i = choose|i: int| 0 <= i < ids.len() && ids[i] == id;
            assert(clients@.contains_key(ids[i]));
        }
        if clients@.dom().contains(id) {
            assert(clients@.contains_key(id));
            assert(entries.contains((&id, &clients@[id])));
            let i = choose|i: int| 0 <= i < entries.len() && entries[i] == (&id, &clients@[id]);
            assert(ids[i] == id);
        }
    }
    assert(ids.to_set() =~= clients@.dom());
}

/// The keys of the clients whose status is `wanted`, up to ASCII case.
pub open spec fn with_status(clients: Map<u32, Client>, wanted: Seq<char>) -> Set<u32> {
    clients.dom().filter(|id: u32| same_ignoring_ascii_case(clients[id].status@, wanted))
}

/// Counts the clients whose status is `wanted`, ignoring the case of ASCII
/// letters.
pub fn count_status(clients: &HashMap<u32, Client>, wanted: &str) -> (count: usize)
    ensures
        count == with_status(clients@, wanted@).len(),
{
    broadcast use vstd::std_specs::hash::group_hash_axioms;

    let total = clients.len();
    let ghost entries = spec_hash_map_iter(clients).remaining();
    let ghost ids = walked_ids(entries);
    let ghost wanted_text = wanted@;
    let ghost matches = |id: u32| same_ignoring_ascii_case(clients@[id].status@, wanted_text);
    let mut count: usize = 0;
    proof {
        assert(ids.take(0).to_set().filter(matches) =~= Set::<u32>::empty());
    }
    for entry in walk: clients.iter()
        invariant
            walk.seq() == entries,
            entries.no_duplicates(),
            entries == spec_hash_map_iter(clients).remaining(),
            ids == walked_ids(entries),
            wanted_text == wanted@,
            matches == |id: u32| same_ignoring_ascii_case(clients@[id].status@, wanted_text),
            total == clients@.dom().len(),
            count == ids.take(walk.index()).to_set().filter(matches).len(),
            count <= walk.index(),
    {
        let ghost at = walk.index();
        let ghost id = ids[at];
        let ghost seen = ids.take(at).to_set();
        proof {
            lemma_walk_meets_each_once(clients, entries);
            vstd::seq_lib::seq_to_set_is_finite(ids.take(at));
            assert(!seen.contains(id)) by {
                if seen.contains(id) {
                    let shorter = ids.take(at);
                    let j = choose|j: int| 0 <= j < shorter.len() && shorter[j] == id;
                    assert(ids[j] == ids[at]);
                }
            }
            assert(clients@.contains_key(ids[at]));
            assert(*entries[at].1 == clients@[id]);
            seen.lemma_len_filter(matches);
        }
        let same = eq_ignoring_ascii_case(entry.1.status.as_str(), wanted);
        proof {
            let shorter = ids.take(at);
            let longer = ids.take(at + 1);
            let wider = longer.to_set();
            assert(wider =~= seen.insert(id)) by {
                assert(longer =~= shorter.push(id));
                assert forall|other: u32| wider.contains(other) <==> seen.insert(id).contains(
                    other,
                ) by {
                    if wider.contains(other) {
                        let j = choose|j: int| 0 <= j < longer.len() && longer[j] == other;
                        if j < at {
                            assert(shorter[j] == other);
                        }
                    }
                    if seen.contains(other) {
                        let j = choose|j: int| 0 <= j < shorter.len() && shorter[j] == other;
                        assert(longer[j] == other);
                    }
                    if other == id {
                        assert(longer[at] == other);
                    }
                }
            }
            if same {
                assert(wider.filter(matches) =~= seen.filter(matches).insert(id));
            } else {
                assert(wider.filter(matches) =~= seen.filter(matches));
            }
        }
        if same {
            count += 1;
        }
    }
    proof {
        lemma_walk_meets_each_once(clients, entries);
        assert(ids.take(ids.len() as int) =~= ids);
    }
    count
}

/// How a submitted client was answered.
#[derive(Clone, Copy, Debug, PartialEq, Eq, Structural)]
pub enum CommandReply {
    /// The client was stored under its identifier.
    Stored,
    /// The submission did not hold a client; nothing was stored.
    Invalid,
}

impl CommandReply {
    /// The status code sent with a reply.
    pub open spec fn status_spec(&self) -> u16 {
        match self {
            CommandReply::Stored => 200u16,
            CommandReply::Invalid => 400u16,
        }
    }

    /// The status code sent with this reply: 200 when stored, 400 when not.
    #[verifier::when_used_as_spec(status_spec)]
    pub fn status(&self) -> (code: u16)
        ensures
            code == self.status_spec(),
    {
        match self {
            CommandReply::Stored => 200,
            CommandReply::Invalid => 400,
        }
    }
}

/// Takes a submission that was read as a client, or could not be.
///
/// A client is stored under its identifier, replacing whoever was registered
/// under it before; without a client the registry stays as it is.
pub fn accept_command(registry: &mut HashMap<u32, Client>, submitted: Option<Client>) -> (reply:
    CommandReply)
    ensures
        match submitted {
            Some(client) => reply == CommandReply::Stored && final(registry)@ == old(
                registry,
            )@.insert(client.id, client),
            None => reply == CommandReply::Invalid && final(registry)@ == old(registry)@,
        },
{
    broadcast use vstd::std_specs::hash::group_hash_axioms;

    match submitted {
        Some(client) => {
            registry.insert(client.id, client);
            CommandReply::Stored
        },
        None => CommandReply::Invalid,
    }
}

} // verus!
