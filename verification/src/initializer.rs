use crate::conn_pool::{mysql_url_ok, ConnPool};
use crate::jwt_handler::{JWTHandler, JsonWebKeySet};
use crate::problem_repo::ProblemRepository;
use crate::service::{AuthService, EchoService, ProblemService};
use std::sync::Arc;
use vstd::prelude::*;

verus! {

/// `Arc::clone`: another pointer to the same allocation. Trusted: the clone
/// points to a value equal to the one that `a` points to.
#[verifier::external_body]
fn arc_clone<T>(a: &Arc<T>) -> (r: Arc<T>)
    ensures
        r == *a,
{
    a.clone()
}

/// Where the service finds its database and the keys of its tokens.
pub struct Config {
    pub database_url: String,
    pub jwk_url: String,
}

/// The infrastructure: the database pool and the token handler.
pub struct Infras {
    pub db_pool: ConnPool,
    pub jwt_handler: Arc<JWTHandler>,
}

impl Clone for Infras {
    fn clone(&self) -> (r: Self)
        ensures
            r == *self,
    {
        Infras { db_pool: self.db_pool.clone(), jwt_handler: arc_clone(&self.jwt_handler) }
    }
}

impl Infras {
    /// The infrastructure of the configuration, with the keys `public_key`
    /// that were read from its key URL; the database URL must be one that
    /// mysql_async reads.
    pub fn new(config: Config, public_key: JsonWebKeySet) -> (i: Infras)
        requires
            mysql_url_ok(config.database_url@),
        ensures
            i.db_pool.database_url@ == config.database_url@,
            i.jwt_handler.public_key == public_key,
            i.jwt_handler.issuer@ == "example.com"@,
    {
        Infras {
            db_pool: ConnPool::from_url(config.database_url.as_str()),
            jwt_handler: Arc::new(JWTHandler::new(public_key)),
        }
    }
}

/// The clients of the services that store data.
pub struct Serviceclients {
    pub problem_repo: Arc<ProblemRepository>,
}

impl Clone for Serviceclients {
    fn clone(&self) -> (r: Self)
        ensures
            r == *self,
    {
        Serviceclients { problem_repo: arc_clone(&self.problem_repo) }
    }
}

impl Serviceclients {
    /// The problem repository over the database pool of the infrastructure.
    pub fn new(infras: Infras) -> (s: Serviceclients)
        ensures
            s.problem_repo.db == infras.db_pool,
    {
        Serviceclients { problem_repo: Arc::new(ProblemRepository::new(infras.db_pool)) }
    }
}

/// The services of the application.
pub struct Services {
    pub auth_service: Arc<AuthService>,
    pub echo_service: Arc<EchoService>,
    pub problem_service: Arc<ProblemService>,
}

impl Clone for Services {
    fn clone(&self) -> (r: Self)
        ensures
            r == *self,
    {
        Services {
            auth_service: arc_clone(&self.auth_service),
            echo_service: arc_clone(&self.echo_service),
            problem_service: arc_clone(&self.problem_service),
        }
    }
}

impl Services {
    /// The services over the token handler of the infrastructure and the
    /// problem repository of the clients.
    pub fn new(infras: Infras, serviceclient: Serviceclients) -> (s: Services)
        ensures
            s.auth_service.jwt_handler == infras.jwt_handler,
            s.problem_service.problem_repo == serviceclient.problem_repo,
    {
        Services {
            auth_service: Arc::new(AuthService::new(infras.jwt_handler)),
            echo_service: Arc::new(EchoService::new()),
            problem_service: Arc::new(ProblemService::new(arc_clone(&serviceclient.problem_repo))),
        }
    }
}

/// The whole application: its infrastructure, clients and services.
pub struct AppContext {
    pub services: Services,
    pub serviceclient: Serviceclients,
    pub infras: Infras,
}

impl AppContext {
    /// Builds the application from its configuration and the keys read from
    /// its key URL. The services share the token handler of the
    /// infrastructure and the problem repository of the clients, and the
    /// repository uses the database of the configuration.
    pub fn new(config: Config, public_key: JsonWebKeySet) -> (c: AppContext)
        requires
            mysql_url_ok(config.database_url@),
        ensures
            c.infras.db_pool.database_url@ == config.database_url@,
            c.infras.jwt_handler.public_key == public_key,
            c.infras.jwt_handler.issuer@ == "example.com"@,
            c.serviceclient.problem_repo.db == c.infras.db_pool,
            c.services.auth_service.jwt_handler == c.infras.jwt_handler,
            c.services.problem_service.problem_repo == c.serviceclient.problem_repo,
    {
        let infras = Infras::new(config, public_key);
        let serviceclients = Serviceclients::new(infras.clone());
        let services = Services::new(infras.clone(), serviceclients.clone());
        AppContext { infras: infras, serviceclient: serviceclients, services: services }
    }
}

} // verus!
