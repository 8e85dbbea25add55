//! Markup fragments for a status page: the registered clients and the
//! network interfaces of the host.
//!
//! Text is inserted as it is given; nothing is escaped.

use vstd::prelude::*;
use vstd::string::*;
use vstd::std_specs::iter::IteratorSpec;
use std::collections::HashMap;
use crate::network::labels;
use crate::registry::{clients_in_order, lemma_walk_meets_each_once, lists_each_once, walked_ids, Client};
use crate::text::{append_decimal, decimal, lowercase, same_text, to_lowercase};

verus! {

pub const CLIENT_OPEN: &'static str = "\n            <div class=\"client-item\">\n                <div>#";

pub const CLIENT_ADDRESS: &'static str =
    "</div>\n                <div class=\"ip-status-group\">\n                    <div class=\"ip-cell\">";

pub const CLIENT_CLASS: &'static str = "</div>\n                    <div class=\"status-cell ";

pub const CLIENT_STATUS: &'static str = "\">";

pub const CLIENT_PORT: &'static str = "</div>\n                </div>\n                <div>";

pub const CLIENT_CLOSE: &'static str = "</div>\n            </div>";

pub const CARD_OPEN: &'static str = "\n            <div class=\"client-card status-";

pub const CARD_ID: &'static str = "\">\n                <h2>Client ID: ";

pub const CARD_ADDRESS: &'static str = "</h2>\n                <p>IP: ";

pub const CARD_PORT: &'static str = "</p>\n                <p>Porta: ";

pub const CARD_STATUS: &'static str = "</p>\n                <p>Status: ";

pub const CARD_CID: &'static str = "</p>\n                <p>CID: ";

pub const CARD_CLOSE: &'static str = "</p>\n            </div>\n        ";

pub const INTERFACE_OPEN: &'static str =
    "\n            <div class=\"interface-item\">\n                <span>";

pub const INTERFACE_STATE: &'static str =
    "</span>\n                <div style=\"display: flex; align-items: center;\">\n                    <span class=\"data-unit\">";

pub const INTERFACE_CLASS: &'static str =
    "</span>\n                    <div class=\"interface-status ";

pub const INTERFACE_CLOSE: &'static str =
    "\"></div>\n                </div>\n            </div>";

/// The style class for a status that is already in lower case.
pub open spec fn status_class_spec(lowered: Seq<char>) -> Seq<char> {
    if lowered == "active"@ {
        "status-active"@
    } else if lowered == "inactive"@ {
        "status-inactive"@
    } else {
        "status-pending"@
    }
}

/// The style class for a status that is already in lower case: `active` and
/// `inactive` have their own, everything else is pending.
pub fn status_class(lowered: &str) -> (class: &'static str)
    ensures
        class@ == status_class_spec(lowered@),
{
    if same_text(lowered, "active") {
        "status-active"
    } else if same_text(lowered, "inactive") {
        "status-inactive"
    } else {
        "status-pending"
    }
}

/// The markup of one client.
pub open spec fn client_item(client: Client) -> Seq<char> {
    CLIENT_OPEN@ + decimal(client.id as nat) + CLIENT_ADDRESS@ + client.ip@ + CLIENT_CLASS@
        + status_class_spec(lowercase(client.status@)) + CLIENT_STATUS@ + client.status@
        + CLIENT_PORT@ + decimal(client.port as nat) + CLIENT_CLOSE@
}

/// The markup of a list of clients, in the order of the list.
pub open spec fn clients_markup(clients: Seq<Client>) -> Seq<char>
    decreases clients.len(),
{
    if clients.len() == 0 {
        Seq::<char>::empty()
    } else {
        clients_markup(clients.drop_last()) + client_item(clients.last())
    }
}

/// Appends the markup of one client.
pub fn append_client(out: &mut String, client: &Client)
    ensures
        final(out)@ == old(out)@ + client_item(*client),
{
    let lowered = to_lowercase(client.status.as_str());
    let class = status_class(lowered.as_str());
    out.append(CLIENT_OPEN);
    append_decimal(out, client.id as u64);
    out.append(CLIENT_ADDRESS);
    out.append(client.ip.as_str());
    out.append(CLIENT_CLASS);
    out.append(class);
    out.append(CLIENT_STATUS);
    out.append(client.status.as_str());
    out.append(CLIENT_PORT);
    append_decimal(out, client.port as u64);
    out.append(CLIENT_CLOSE);
    assert(out@ =~= old(out)@ + client_item(*client));
}

/// The markup of a list of clients, one item after the other in list order.
pub fn clients_list_html(clients: &[Client]) -> (html: String)
    ensures
        html@ == clients_markup(clients@),
{
    let mut html = String::new();
    let mut index: usize = 0;
    proof {
        assert(clients@.take(0) =~= Seq::<Client>::empty());
    }
    while index < clients.len()
        invariant
            index <= clients.len(),
            html@ == clients_markup(clients@.take(index as int)),
        decreases clients.len() - index,
    {
        proof {
            let longer = clients@.take(index + 1);
            assert(longer.drop_last() =~= clients@.take(index as int));
            assert(longer.last() == clients@[index as int]);
        }
        append_client(&mut html, &clients[index]);
        index += 1;
    }
    proof {
        assert(clients@.take(index as int) =~= clients@);
    }
    html
}

/// The markup of all registered clients.
///
/// Every client of the registry appears exactly once. The registry has no
/// order of its own, so the items come in the order in which the map is
/// walked: the result is the markup of the clients in some order of their
/// keys.
pub fn clients_html(clients: &HashMap<u32, Client>) -> (html: String)
    ensures
        exists|ids: Seq<u32>|
            lists_each_once(ids, clients@) && html@ == clients_markup(
                #[trigger] clients_in_order(ids, clients@),
            ),
{
    broadcast use vstd::std_specs::hash::group_hash_axioms;

    let ghost entries = vstd::std_specs::hash::spec_hash_map_iter(clients).remaining();
    let ghost ids = walked_ids(entries);
    let ghost order = clients_in_order(ids, clients@);
    let mut html = String::new();
    proof {
        assert(order.take(0) =~= Seq::<Client>::empty());
    }
    for entry in walk: clients.iter()
        invariant
            walk.seq() == entries,
            entries.no_duplicates(),
            entries == vstd::std_specs::hash::spec_hash_map_iter(clients).remaining(),
            ids == walked_ids(entries),
            order == clients_in_order(ids, clients@),
            html@ == clients_markup(order.take(walk.index())),
    {
        proof {
            let at = walk.index();
            let longer = order.take(at + 1);
            lemma_walk_meets_each_once(clients, entries);
            assert(longer.drop_last() =~= order.take(at));
            assert(clients@.contains_key(ids[at]));
            assert(longer.last() == *entries[at].1);
        }
        append_client(&mut html, entry.1);
    }
    proof {
        lemma_walk_meets_each_once(clients, entries);
        assert(order.take(order.len() as int) =~= order);
    }
    html
}

/// The card of one client: its class is `status-` followed by the status in
/// lower case, whatever the status is.
pub open spec fn client_card(client: Client) -> Seq<char> {
    CARD_OPEN@ + lowercase(client.status@) + CARD_ID@ + decimal(client.id as nat) + CARD_ADDRESS@
        + client.ip@ + CARD_PORT@ + decimal(client.port as nat) + CARD_STATUS@ + client.status@
        + CARD_CID@ + decimal(client.cid as nat) + CARD_CLOSE@
}

/// The cards of a list of clients, in the order of the list.
pub open spec fn cards_markup(clients: Seq<Client>) -> Seq<char>
    decreases clients.len(),
{
    if clients.len() == 0 {
        Seq::<char>::empty()
    } else {
        cards_markup(clients.drop_last()) + client_card(clients.last())
    }
}

/// Appends the card of one client.
pub fn append_card(out: &mut String, client: &Client)
    ensures
        final(out)@ == old(out)@ + client_card(*client),
{
    let lowered = to_lowercase(client.status.as_str());
    out.append(CARD_OPEN);
    out.append(lowered.as_str());
    out.append(CARD_ID);
    append_decimal(out, client.id as u64);
    out.append(CARD_ADDRESS);
    out.append(client.ip.as_str());
    out.append(CARD_PORT);
    append_decimal(out, client.port as u64);
    out.append(CARD_STATUS);
    out.append(client.status.as_str());
    out.append(CARD_CID);
    append_decimal(out, client.cid as u64);
    out.append(CARD_CLOSE);
    assert(out@ =~= old(out)@ + client_card(*client));
}

/// The cards of all registered clients, each exactly once, in the order in
/// which the map is walked.
pub fn cards_html(clients: &HashMap<u32, Client>) -> (html: String)
    ensures
        exists|ids: Seq<u32>|
            lists_each_once(ids, clients@) && html@ == cards_markup(
                #[trigger] clients_in_order(ids, clients@),
            ),
{
    broadcast use vstd::std_specs::hash::group_hash_axioms;

    let ghost entries = vstd::std_specs::hash::spec_hash_map_iter(clients).remaining();
    let ghost ids = walked_ids(entries);
    let ghost order = clients_in_order(ids, clients@);
    let mut html = String::new();
    proof {
        assert(order.take(0) =~= Seq::<Client>::empty());
    }
    for entry in walk: clients.iter()
        invariant
            walk.seq() == entries,
            entries.no_duplicates(),
            entries == vstd::std_specs::hash::spec_hash_map_iter(clients).remaining(),
            ids == walked_ids(entries),
            order == clients_in_order(ids, clients@),
            html@ == cards_markup(order.take(walk.index())),
    {
        proof {
            let at = walk.index();
            let longer = order.take(at + 1);
            lemma_walk_meets_each_once(clients, entries);
            assert(longer.drop_last() =~= order.take(at));
            assert(clients@.contains_key(ids[at]));
            assert(longer.last() == *entries[at].1);
        }
        append_card(&mut html, entry.1);
    }
    proof {
        lemma_walk_meets_each_once(clients, entries);
        assert(order.take(order.len() as int) =~= order);
    }
    html
}

/// The style class of an interface by its state: up only if the state reads `UP`.
pub open spec fn interface_class(state: Seq<char>) -> Seq<char> {
    if state == "UP"@ {
        "status-up"@
    } else {
        "status-down"@
    }
}

/// The markup of one interface.
pub open spec fn interface_item(name: Seq<char>, state: Seq<char>) -> Seq<char> {
    INTERFACE_OPEN@ + name + INTERFACE_STATE@ + state + INTERFACE_CLASS@ + interface_class(state)
        + INTERFACE_CLOSE@
}

/// The markup of a list of interfaces, in the order of the list.
pub open spec fn interfaces_markup(interfaces: Seq<(Seq<char>, Seq<char>)>) -> Seq<char>
    decreases interfaces.len(),
{
    if interfaces.len() == 0 {
        Seq::<char>::empty()
    } else {
        interfaces_markup(interfaces.drop_last()) + interface_item(
            interfaces.last().0,
            interfaces.last().1,
        )
    }
}

/// The markup of the host's interfaces, one item per pair of name and state,
/// in the order given.
pub fn interfaces_html(interfaces: Vec<(String, String)>) -> (html: String)
    ensures
        html@ == interfaces_markup(labels(interfaces@)),
{
    let ghost texts = labels(interfaces@);
    let mut html = String::new();
    let mut index: usize = 0;
    proof {
        assert(texts.take(0) =~= Seq::<(Seq<char>, Seq<char>)>::empty());
    }
    while index < interfaces.len()
        invariant
            index <= interfaces.len(),
            texts == labels(interfaces@),
            html@ == interfaces_markup(texts.take(index as int)),
        decreases interfaces.len() - index,
    {
        proof {
            let longer = texts.take(index + 1);
            assert(longer.drop_last() =~= texts.take(index as int));
            assert(longer.last() == (interfaces@[index as int].0@, interfaces@[index as int].1@));
        }
        let name = interfaces[index].0.as_str();
        let state = interfaces[index].1.as_str();
        let class = if same_text(state, "UP") {
            "status-up"
        } else {
            "status-down"
        };
        let ghost before = html@;
        html.append(INTERFACE_OPEN);
        html.append(name);
        html.append(INTERFACE_STATE);
        html.append(state);
        html.append(INTERFACE_CLASS);
        html.append(class);
        html.append(INTERFACE_CLOSE);
        assert(html@ =~= before + interface_item(name@, state@));
        index += 1;
    }
    proof {
        assert(texts.take(index as int) =~= texts);
    }
    html
}

} // verus!
