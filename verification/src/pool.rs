//! The connection pool: how it is created and the slot that holds it.

use vstd::prelude::*;
use crate::config::{ConnectionConfig, ConnectionModel, port_value};
use crate::error::DbError;

verus! {

/// Makes `deadpool::managed::CreatePoolError` known to the verifier, as a
/// value that is carried and never looked into.
#[verifier::external_type_specification]
#[verifier::external_body]
#[verifier::reject_recursive_types(C)]
pub struct ExCreatePoolError<C>(deadpool::managed::CreatePoolError<C>);

/// Makes `deadpool_postgres::ConfigError` known to the verifier, as a value
/// that is carried and never looked into.
#[verifier::external_type_specification]
#[verifier::external_body]
pub struct ExConfigError(deadpool_postgres::ConfigError);

/// A handle to a pool of database connections. The pool is reference
/// counted inside: a clone of `pool` is a handle to the same connections.
/// Nothing inside it is visible to the verifier.
#[verifier::external_body]
pub struct PoolHandle {
    pub pool: deadpool_postgres::Pool,
}

/// The settings that a pool connects with: the database name, user,
/// password, host and port of its connection configuration.
pub uninterp spec fn pool_settings(pool: PoolHandle) -> ConnectionModel;

/// Whether `settings` are what a pool created for `asked` connects with. The
/// database name, password, host and port are those asked for. So is the
/// user, unless none was asked for: an empty user is left to the pool, which
/// looks for one in the process environment.
pub open spec fn settings_follow(settings: ConnectionModel, asked: ConnectionModel) -> bool {
    &&& settings.dbname == asked.dbname
    &&& settings.password == asked.password
    &&& settings.host == asked.host
    &&& settings.port == asked.port
    &&& (asked.user.len() > 0 ==> settings.user == asked.user)
}

/// Calls `deadpool_postgres::Config::create_pool` with no runtime and no
/// TLS, on a configuration that sets the database name, user, password, host
/// and port and leaves everything else at its default. Trusted: the call
/// opens no connection; it fails when the database name is empty (the
/// configuration then names no database) and for no other reason, since
/// the default pool configuration has no timeouts that would ask for a
/// runtime; and the pool it gives connects with the database name,
/// password, host and port handed in, and with the user handed in where
/// that is not empty. Of the user of a pool created with an empty user
/// nothing is claimed: the call takes it from the environment.
#[verifier::external_body]
fn create_pool(config: &ConnectionConfig) -> (created: Result<
    PoolHandle,
    deadpool_postgres::CreatePoolError,
>)
    ensures
        created is Ok <==> config@.dbname.len() > 0,
        created matches Ok(pool) ==> settings_follow(pool_settings(pool), config@),
{
    let mut cfg = deadpool_postgres::Config::new();
    cfg.dbname = Some(config.dbname.clone());
    cfg.user = Some(config.user.clone());
    cfg.password = Some(config.password.clone());
    cfg.host = Some(config.host.clone());
    cfg.port = Some(config.port);
    match cfg.create_pool(None, tokio_postgres::NoTls) {
        Ok(pool) => Ok(PoolHandle { pool }),
        Err(e) => Err(e),
    }
}

/// Calls `ToString::to_string` on a `CreatePoolError`. Trusted; nothing is
/// claimed of the text.
#[verifier::external_body]
fn create_error_text(error: &deadpool_postgres::CreatePoolError) -> (text: String) {
    error.to_string()
}

/// The slot that holds the pool: empty at first, filled at most once, and
/// never emptied or refilled.
pub struct PoolHolder {
    slot: Option<PoolHandle>,
}

impl View for PoolHolder {
    type V = Option<PoolHandle>;

    closed spec fn view(&self) -> Option<PoolHandle> {
        self.slot
    }
}

impl PoolHolder {
    /// An empty holder.
    pub fn new() -> (holder: PoolHolder)
        ensures
            holder@ is None,
    {
        PoolHolder { slot: None }
    }

    /// Whether the pool has been created.
    pub fn is_initialized(&self) -> (initialized: bool)
        ensures
            initialized == (self@ is Some),
    {
        self.slot.is_some()
    }

    /// The pool, if it has been created.
    pub fn get(&self) -> (pool: Option<&PoolHandle>)
        ensures
            match pool {
                Some(p) => self@ == Some(*p),
                None => self@ is None,
            },
    {
        self.slot.as_ref()
    }

    /// Puts `pool` into an empty holder. A holder that already has a pool
    /// keeps it and hands `pool` back.
    pub fn set(&mut self, pool: PoolHandle) -> (outcome: Result<(), PoolHandle>)
        ensures
            old(self)@ is None ==> outcome is Ok && final(self)@ == Some(pool),
            old(self)@ is Some ==> outcome == Err::<(), PoolHandle>(pool) && final(self)@ == old(
                self,
            )@,
    {
        if self.slot.is_some() {
            Err(pool)
        } else {
            self.slot = Some(pool);
            Ok(())
        }
    }
}

/// What is reported when a created pool, or the text of the failure to
/// create one, arrives at a holder: the failure is passed on as a connection
/// error, a pool that arrives at a full holder is refused, and a pool that
/// arrives at an empty one is accepted.
pub open spec fn install_result(before: Option<PoolHandle>, created: Result<PoolHandle, String>)
    -> Result<(), DbError> {
    match created {
        Err(text) => Err(DbError::Connection(text)),
        Ok(_) => if before is Some {
            Err(DbError::AlreadyInitialized)
        } else {
            Ok(())
        },
    }
}

/// What the holder holds afterwards: the arriving pool if it was empty and a
/// pool arrived, and what it held before in every other case.
pub open spec fn install_state(before: Option<PoolHandle>, created: Result<PoolHandle, String>)
    -> Option<PoolHandle> {
    match (before, created) {
        (None, Ok(pool)) => Some(pool),
        _ => before,
    }
}

/// Stores a newly created pool in the holder, or reports why there is none
/// to store.
pub fn install(holder: &mut PoolHolder, created: Result<PoolHandle, String>) -> (outcome: Result<
    (),
    DbError,
>)
    ensures
        outcome == install_result(old(holder)@, created),
        final(holder)@ == install_state(old(holder)@, created),
{
    match created {
        Err(text) => Err(DbError::Connection(text)),
        Ok(pool) => match holder.set(pool) {
            Ok(()) => Ok(()),
            Err(_) => Err(DbError::AlreadyInitialized),
        },
    }
}

/// Creates the pool and stores it in the holder.
///
/// The steps are taken in this order, and the first that fails ends the
/// call: the port is read from its text (a configuration error if it writes
/// no port), the pool is created (a connection error if that fails, which
/// it does exactly for an empty database name), and the pool is stored (an
/// already-initialized error if the holder has one). The holder changes
/// only on success, and then holds a pool that connects with the database
/// name, password, host and port given, and with the user given where that
/// is not empty.
pub fn connect_db_pool(
    holder: &mut PoolHolder,
    dbname: &str,
    user: &str,
    password: &str,
    host: &str,
    port: &str,
) -> (outcome: Result<(), DbError>)
    ensures
        match outcome {
            Ok(()) => {
                &&& port_value(port@) is Some
                &&& dbname@.len() > 0
                &&& old(holder)@ is None
                &&& final(holder)@ matches Some(pool) && settings_follow(
                    pool_settings(pool),
                    ConnectionModel {
                        dbname: dbname@,
                        user: user@,
                        password: password@,
                        host: host@,
                        port: port_value(port@)->0,
                    },
                )
            },
            Err(e) => {
                &&& final(holder)@ == old(holder)@
                &&& match e {
                    DbError::Configuration(_) => port_value(port@) is None,
                    DbError::Connection(_) => port_value(port@) is Some && dbname@.len() == 0,
                    DbError::AlreadyInitialized => {
                        &&& port_value(port@) is Some
                        &&& dbname@.len() > 0
                        &&& old(holder)@ is Some
                    },
                    DbError::NotInitialized => false,
                    DbError::Execution(_) => false,
                }
            },
        },
{
    let config = match ConnectionConfig::from_fields(dbname, user, password, host, port) {
        Ok(config) => config,
        Err(e) => {
            return Err(e);
        },
    };
    let created = match create_pool(&config) {
        Ok(pool) => Ok(pool),
        Err(e) => Err(create_error_text(&e)),
    };
    install(holder, created)
}

/// Once a pool is stored, every later attempt to store one is refused and
/// leaves the stored pool as it is, whatever arrives.
pub proof fn lemma_second_install_is_refused(
    before: Option<PoolHandle>,
    first: Result<PoolHandle, String>,
    second: Result<PoolHandle, String>,
)
    requires
        install_result(before, first) is Ok,
    ensures
        install_result(install_state(before, first), second) is Err,
        second is Ok ==> install_result(install_state(before, first), second) == Err::<(), DbError>(
            DbError::AlreadyInitialized,
        ),
        install_state(install_state(before, first), second) == install_state(before, first),
{
}

/// A holder that has a pool keeps that very pool through any attempt to store
/// another.
pub proof fn lemma_install_keeps_stored_pool(pool: PoolHandle, created: Result<PoolHandle, String>)
    ensures
        install_state(Some(pool), created) == Some(pool),
        install_result(Some(pool), created) is Err,
{
}

} // verus!
