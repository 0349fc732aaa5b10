//! The device side of the relay handshake.
use vstd::prelude::*;
use crate::json::{json_object, json_object_text, member_view, JsonMembers};

verus! {

/// The members of the handshake a device sends first: its id and name, and `type` `init`.
pub open spec fn init_members(client_id: Seq<char>, client_name: Seq<char>) -> JsonMembers {
    seq![
        ("client_id"@, Some(client_id)),
        ("client_name"@, Some(client_name)),
        ("type"@, Some("init"@)),
    ]
}

/// The handshake text a device sends first.
pub open spec fn init_json(client_id: Seq<char>, client_name: Seq<char>) -> Seq<char> {
    json_object(init_members(client_id, client_name))
}

/// A device's connection to the central drone.
pub struct SecureClient;

impl SecureClient {
    /// A new client.
    pub fn new() -> (r: Self) {
        SecureClient
    }

    /// The handshake text that identifies a device to the drone.
    pub fn init_message(client_id: &str, client_name: &str) -> (r: String)
        ensures
            r@ == init_json(client_id@, client_name@),
    {
        let mut members: Vec<(&str, Option<&str>)> = Vec::new();
        members.push(("client_id", Some(client_id)));
        members.push(("client_name", Some(client_name)));
        members.push(("type", Some("init")));
        let text = json_object_text(&members);
        assert(members@.map_values(|m: (&str, Option<&str>)| member_view(m)) =~= init_members(client_id@, client_name@));
        text
    }
}

impl Default for SecureClient {
    fn default() -> (r: Self) {
        Self::new()
    }
}

} // verus!
