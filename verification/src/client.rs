use vstd::prelude::*;
use crate::server::ServerClient;
use crate::zones::ZoneClient;

verus! {

/// The path under which every request of the API lives.
pub open spec fn servers_path(base: Seq<char>) -> Seq<char> {
    base + "/api/v1/servers"@
}

/// The path of a single server's metadata object.
pub open spec fn server_path(base: Seq<char>, server_id: Seq<char>) -> Seq<char> {
    servers_path(base) + "/"@ + server_id
}

/// The path of a server's zone collection.
pub open spec fn zones_path(base: Seq<char>, server_id: Seq<char>) -> Seq<char> {
    server_path(base, server_id) + "/zones"@
}

/// The path of a single zone of a server.
pub open spec fn zone_path(base: Seq<char>, server_id: Seq<char>, zone_id: Seq<char>) -> Seq<char> {
    zones_path(base, server_id) + "/"@ + zone_id
}

/// Connection configuration shared by every request: where the API lives,
/// which server the zone operations address, and the key each request
/// authenticates with. Holds no transport and performs no I/O itself.
pub struct Client {
    pub base_url: String,
    pub server_name: String,
    pub api_token: String,
}

impl Client {
    /// A client for the API at `base_url`, addressing `server_name`,
    /// authenticating with `api_token`.
    pub fn new(base_url: &str, server_name: &str, api_token: &str) -> (r: Self)
        ensures
            r.base_url@ == base_url@,
            r.server_name@ == server_name@,
            r.api_token@ == api_token@,
    {
        Client {
            base_url: base_url.to_owned(),
            server_name: server_name.to_owned(),
            api_token: api_token.to_owned(),
        }
    }

    /// The sub-client for server metadata, borrowing this configuration.
    pub fn server(&self) -> (r: ServerClient<'_>)
        ensures
            r.api_client == self,
    {
        ServerClient::new(self)
    }

    /// The sub-client for zone management, borrowing this configuration.
    pub fn zone(&self) -> (r: ZoneClient<'_>)
        ensures
            r.api_client == self,
    {
        ZoneClient::new(self)
    }
}

} // verus!
