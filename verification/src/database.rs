//! The database catalog and its downloads, reached through [`Client::database`].

use vstd::prelude::*;

use crate::client::Client;

verus! {

/// The database catalog and its downloads, which is the whole of the API's
/// public surface. Named `DatabaseApi` because [`crate::Database`] is already
/// the shape of one database family.
#[derive(Debug, Clone, Copy)]
pub struct DatabaseApi<'a> {
    client: &'a Client,
}

impl<'a> DatabaseApi<'a> {
    pub closed spec fn spec_client(&self) -> &'a Client {
        self.client
    }

    pub fn new(client: &'a Client) -> (api: DatabaseApi<'a>)
        ensures
            api.spec_client() == client,
    {
        DatabaseApi { client }
    }

    /// The client every call of this API is sent with.
    pub fn client(&self) -> (client: &'a Client)
        ensures
            client == self.spec_client(),
    {
        self.client
    }
}

impl Client {
    /// The database catalog and its downloads.
    pub fn database(&self) -> (api: DatabaseApi<'_>)
        ensures
            api.spec_client() == self,
    {
        DatabaseApi::new(self)
    }
}

} // verus!
