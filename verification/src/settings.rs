//! Configuration handed to the client.

use vstd::prelude::*;

verus! {

/// What the client presents to the token endpoint.
pub struct ClientConfig {
    pub client_id: String,
    pub client_secret: String,
    pub audience: String,
    pub token_endpoint: String,
    pub scopes: String,
}

impl Clone for ClientConfig {
    fn clone(&self) -> (copy: Self)
        ensures
            copy == *self,
    {
        ClientConfig {
            client_id: self.client_id.clone(),
            client_secret: self.client_secret.clone(),
            audience: self.audience.clone(),
            token_endpoint: self.token_endpoint.clone(),
            scopes: self.scopes.clone(),
        }
    }
}

/// The client's whole configuration: credentials and the two API addresses.
pub struct CisSettings {
    pub client_config: ClientConfig,
    pub person_api_user_endpoint: String,
    pub change_api_user_endpoint: String,
}

} // verus!
