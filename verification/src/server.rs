use vstd::prelude::*;
use vstd::string::StringExecFns;
use crate::client::{Client, servers_path, server_path};

verus! {

/// The server endpoint is the basis for all other API operations. In the
/// authoritative server the id is always "localhost", but the API is
/// written so that a proxy could stand in front of many servers, each
/// with its own id.
#[derive(Debug, Clone, PartialEq)]
pub struct Server {
    /// Set to "Server"
    pub type_field: String,
    /// The id of the server, "localhost"
    pub id: String,
    /// "recursor" for a recursor and "authoritative" for an authoritative
    /// server
    pub daemon_type: String,
    /// The version of the server software
    pub version: String,
    /// The API endpoint for this server
    pub url: String,
    /// The API endpoint for this server's configuration
    pub config_url: String,
    /// The API endpoint for this server's zones
    pub zones_url: String,
}

/// Lists and fetches server metadata objects.
pub struct ServerClient<'a> {
    pub api_client: &'a Client,
}

impl<'a> ServerClient<'a> {
    pub fn new(api_client: &'a Client) -> (r: Self)
        ensures
            r.api_client == api_client,
    {
        ServerClient { api_client }
    }

    /// The URL that lists all servers.
    pub fn list_url(&self) -> (url: String)
        ensures
            url@ == servers_path(self.api_client.base_url@),
    {
        let url = self.api_client.base_url.clone();
        url.concat("/api/v1/servers")
    }

    /// The URL of the server with id `server_id`.
    pub fn get_url(&self, server_id: &str) -> (url: String)
        ensures
            url@ == server_path(self.api_client.base_url@, server_id@),
    {
        let url = self.api_client.base_url.clone();
        let url = url.concat("/api/v1/servers");
        let url = url.concat("/");
        let url = url.concat(server_id);
        proof {
            assert(url@ =~= server_path(self.api_client.base_url@, server_id@));
        }
        url
    }
}

} // verus!
