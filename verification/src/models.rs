//! Data entities of the proxy core: the deployment descriptor that one row of
//! the external store describes, and the proxy's runtime configuration.

use vstd::prelude::*;

verus! {

/// One tenant's routing record, as loaded from the external store.
///
/// `created_on` is kept as seconds since the Unix epoch; it is informational
/// only and no routing decision reads it.
pub struct ProxyDeployment {
    pub id: String,
    pub name: String,
    pub subdomain: String,
    pub use_cors_headers: bool,
    pub destination_address: String,
    pub created_on: i64,
}

/// The mathematical value of a [`ProxyDeployment`]: every string field as a
/// sequence of characters.
pub ghost struct DeploymentView {
    pub id: Seq<char>,
    pub name: Seq<char>,
    pub subdomain: Seq<char>,
    pub use_cors_headers: bool,
    pub destination_address: Seq<char>,
    pub created_on: int,
}

impl View for ProxyDeployment {
    type V = DeploymentView;

    open spec fn view(&self) -> DeploymentView {
        DeploymentView {
            id: self.id@,
            name: self.name@,
            subdomain: self.subdomain@,
            use_cors_headers: self.use_cors_headers,
            destination_address: self.destination_address@,
            created_on: self.created_on as int,
        }
    }
}

impl Clone for ProxyDeployment {
    fn clone(&self) -> (r: Self)
        ensures
            r == *self,
    {
        ProxyDeployment {
            id: self.id.clone(),
            name: self.name.clone(),
            subdomain: self.subdomain.clone(),
            use_cors_headers: self.use_cors_headers,
            destination_address: self.destination_address.clone(),
            created_on: self.created_on,
        }
    }
}

/// The proxy's runtime configuration: where the store lives and which port to
/// serve on. It is built outside the core, from the process environment, and
/// handed in already validated.
pub struct Conf {
    pub database_url: String,
    pub port: u16,
}

} // verus!
