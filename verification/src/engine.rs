//! The supported database engines and their fixed connection ports.

use vstd::prelude::*;

verus! {

/// A database engine a managed instance can run. The set is closed: adding
/// an engine forces every `match` over this type to be revisited.
#[derive(Clone, Copy, PartialEq, Eq, Structural, Debug)]
pub enum Engine {
    Postgres,
    MySql,
    MariaDb,
}

/// The engine's name as the cloud provider spells it.
pub open spec fn spec_engine_name(e: Engine) -> Seq<char> {
    match e {
        Engine::Postgres => "postgres"@,
        Engine::MySql => "mysql"@,
        Engine::MariaDb => "mariadb"@,
    }
}

/// The conventional TCP port of each engine, as text.
pub open spec fn spec_engine_port(e: Engine) -> Seq<char> {
    match e {
        Engine::Postgres => "5432"@,
        Engine::MySql => "3306"@,
        Engine::MariaDb => "3306"@,
    }
}

impl Engine {
    /// The engine's name as the cloud provider spells it.
    pub fn name(self) -> (r: String)
        ensures
            r@ == spec_engine_name(self),
    {
        match self {
            Engine::Postgres => "postgres".to_owned(),
            Engine::MySql => "mysql".to_owned(),
            Engine::MariaDb => "mariadb".to_owned(),
        }
    }
}

/// The conventional port of each engine: postgres listens on 5432,
/// mysql and mariadb on 3306. A pure lookup, exhaustive over `Engine`.
pub fn engine_to_port(engine: Engine) -> (r: String)
    ensures
        r@ == spec_engine_port(engine),
{
    match engine {
        Engine::Postgres => "5432".to_owned(),
        Engine::MySql => "3306".to_owned(),
        Engine::MariaDb => "3306".to_owned(),
    }
}

/// The engine-to-port mapping is total over the supported engines and has
/// no fallback: every engine is assigned exactly one of the two
/// conventional ports.
pub proof fn lemma_engine_port_total()
    ensures
        forall|e: Engine|
            spec_engine_port(e) == "5432"@ || spec_engine_port(e) == "3306"@,
        spec_engine_port(Engine::Postgres) == "5432"@,
        spec_engine_port(Engine::MySql) == "3306"@,
        spec_engine_port(Engine::MariaDb) == "3306"@,
{
    assert forall|e: Engine|
        spec_engine_port(e) == "5432"@ || spec_engine_port(e) == "3306"@ by {
        match e {
            Engine::Postgres => {},
            Engine::MySql => {},
            Engine::MariaDb => {},
        }
    }
}

} // verus!
