//! The relay's rules for admitting devices and fanning out messages.
use vstd::prelude::*;
use crate::json::{json_member_str, json_string_member, member_string, distinct_keys};
use crate::network::client::{init_json, init_members};
use crate::text::str_eq;

verus! {

/// Whether a new connection is served when `client_count` devices are registered.
pub open spec fn admits(client_count: nat, max_clients: nat) -> bool {
    client_count < max_clients
}

/// Whether a new connection is served: only while fewer than `max_clients` are registered.
pub fn admits_connection(client_count: usize, max_clients: usize) -> (r: bool)
    ensures
        r == admits(client_count as nat, max_clients as nat),
        r == (client_count < max_clients),
{
    client_count < max_clients
}

/// A new connection is served exactly while fewer devices than the maximum are registered:
/// so the first device is always served when the maximum is positive, and none is once the
/// maximum is reached.
pub proof fn lemma_admission(client_count: nat, max_clients: nat)
    ensures
        admits(client_count, max_clients) <==> client_count < max_clients,
        max_clients > 0 ==> admits(0, max_clients),
        !admits(max_clients, max_clients),
{
}

/// The identity a device announces in its handshake.
#[derive(Debug, Clone)]
pub struct Handshake {
    pub client_id: String,
    pub client_name: String,
}

/// The identity read from a handshake text: the `client_id` string member is required, and
/// a missing `client_name` string reads as `Unknown`.
pub open spec fn handshake_of(text: Seq<char>) -> Option<(Seq<char>, Seq<char>)> {
    match json_string_member(text, "client_id"@) {
        Some(Some(id)) => Some((
            id,
            match json_string_member(text, "client_name"@) {
                Some(Some(name)) => name,
                _ => "Unknown"@,
            },
        )),
        _ => None,
    }
}

/// Reads the identity out of a device's first message.
pub fn parse_handshake(text: &str) -> (r: Option<Handshake>)
    ensures
        match r {
            Some(h) => handshake_of(text@) == Some((h.client_id@, h.client_name@)),
            None => handshake_of(text@) is None,
        },
        forall|id: Seq<char>, name: Seq<char>| #[trigger] init_json(id, name) == text@
            ==> handshake_of(text@) == Some((id, name)),
{
    proof {
        reveal_strlit("client_id");
        reveal_strlit("client_name");
        reveal_strlit("type");
    }
    let id = json_member_str(text, "client_id");
    let name = json_member_str(text, "client_name");
    proof {
        assert forall|id: Seq<char>, name: Seq<char>| #[trigger] init_json(id, name) == text@
            implies handshake_of(text@) == Some((id, name)) by {
            let ms = init_members(id, name);
            assert("client_id"@.len() == 9);
            assert("client_name"@.len() == 11);
            assert("type"@.len() == 4);
            assert(ms[0].0 != ms[1].0);
            assert(ms[0].0 != ms[2].0);
            assert(ms[1].0 != ms[2].0);
            assert(distinct_keys(ms));
            reveal_with_fuel(member_string, 4);
            assert(ms.drop_last().drop_last().last() == ms[0]);
            assert(member_string(ms, "client_id"@) == Some(id));
            assert(member_string(ms, "client_name"@) == Some(name));
        }
    }
    match id {
        Some(Some(client_id)) => {
            let client_name = match name {
                Some(Some(n)) => n,
                _ => String::from_str("Unknown"),
            };
            Some(Handshake { client_id, client_name })
        },
        _ => None,
    }
}

/// The registered ids a broadcast reaches: all but the excluded one, in order.
pub open spec fn targets_of(ids: Seq<Seq<char>>, exclude: Option<Seq<char>>) -> Seq<Seq<char>> {
    ids.filter(|id: Seq<char>| exclude != Some(id))
}

/// The ids of `clients` that a broadcast excluding `exclude` reaches, in order.
pub fn broadcast_targets(clients: &Vec<String>, exclude: Option<&str>) -> (r: Vec<String>)
    ensures
        r@.map_values(|s: String| s@) == targets_of(clients@.map_values(|s: String| s@), match exclude { Some(e) => Some(e@), None => None }),
{
    let ghost ids = clients@.map_values(|s: String| s@);
    let ghost ex = match exclude { Some(e) => Some(e@), None => None::<Seq<char>> };
    let ghost pred = |id: Seq<char>| ex != Some(id);
    let mut out: Vec<String> = Vec::new();
    let mut i: usize = 0;
    while i < clients.len()
        invariant
            i <= clients@.len(),
            ids == clients@.map_values(|s: String| s@),
            pred == (|id: Seq<char>| ex != Some(id)),
            ex == match exclude { Some(e) => Some(e@), None => None::<Seq<char>> },
            out@.map_values(|s: String| s@) == ids.take(i as int).filter(pred),
        decreases clients@.len() - i,
    {
        reveal_with_fuel(Seq::filter, 1);
        let id = &clients[i];
        let keep = match exclude {
            Some(e) => !str_eq(id.as_str(), e),
            None => true,
        };
        assert(ids.take(i + 1).drop_last() =~= ids.take(i as int));
        assert(ids.take(i + 1).last() == id@);
        if keep {
            let ghost before = out@;
            out.push(id.clone());
            assert(out@.map_values(|s: String| s@) =~= before.map_values(|s: String| s@).push(id@));
        }
        i = i + 1;
    }
    assert(ids.take(clients@.len() as int) =~= ids);
    out
}

/// A broadcast to no registered device reaches nobody.
pub proof fn lemma_targets_of_none(exclude: Option<Seq<char>>)
    ensures
        targets_of(Seq::<Seq<char>>::empty(), exclude) == Seq::<Seq<char>>::empty(),
{
    assert(targets_of(Seq::<Seq<char>>::empty(), exclude) =~= Seq::<Seq<char>>::empty());
}

/// Registering one more id extends the reached ids by that id, at the end, unless it is
/// exactly the excluded id; an id is left out only when it equals the excluded one.
pub proof fn lemma_targets_of_push(ids: Seq<Seq<char>>, id: Seq<char>, exclude: Option<Seq<char>>)
    ensures
        targets_of(ids.push(id), exclude) == if exclude == Some(id) {
            targets_of(ids, exclude)
        } else {
            targets_of(ids, exclude).push(id)
        },
{
    reveal_with_fuel(Seq::filter, 1);
    assert(ids.push(id).drop_last() =~= ids);
}

/// An id is reached exactly when it is registered and is not the excluded id, and with no
/// exclusion every registered id is reached, in order.
pub proof fn lemma_targets_of_members(ids: Seq<Seq<char>>, exclude: Option<Seq<char>>)
    ensures
        forall|id: Seq<char>| #[trigger] targets_of(ids, exclude).contains(id)
            <==> ids.contains(id) && exclude != Some(id),
        exclude is None ==> targets_of(ids, exclude) == ids,
    decreases ids.len(),
{
    if ids.len() == 0 {
        lemma_targets_of_none(exclude);
    } else {
        let p = ids.drop_last();
        let x = ids.last();
        lemma_targets_of_members(p, exclude);
        lemma_targets_of_push(p, x, exclude);
        assert(p.push(x) =~= ids);
        assert forall|id: Seq<char>| #[trigger] targets_of(ids, exclude).contains(id)
            <==> ids.contains(id) && exclude != Some(id) by {
            if ids.contains(id) && exclude != Some(id) {
                if id != x {
                    let j = choose|j: int| 0 <= j < ids.len() && ids[j] == id;
                    assert(p[j] == id);
                    assert(p.contains(id));
                }
            }
            if targets_of(ids, exclude).contains(id) && id != x {
                assert(targets_of(p, exclude).contains(id));
                let j = choose|j: int| 0 <= j < p.len() && p[j] == id;
                assert(ids[j] == id);
            }
        }
    }
}

} // verus!
