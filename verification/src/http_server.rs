//! The server's lifecycle: its configuration, the handle of the running
//! accept loop, and shutdown.

use vstd::prelude::*;
use vstd::string::StringExecFns;

verus! {

/// Declares tokio's task handle so it can stand in a field; its values stay
/// opaque here.
#[verifier::external_type_specification]
#[verifier::external_body]
#[verifier::reject_recursive_types(T)]
pub struct ExJoinHandle<T>(tokio::task::JoinHandle<T>);

/// Declares the error type of a joined tokio task, which `JoinHandle`'s own
/// trait impls name; nothing here reads a value of it.
#[verifier::external_type_specification]
#[verifier::external_body]
pub struct ExJoinError(tokio::task::JoinError);

/// Relies on `tokio::task::JoinHandle::abort`: it asks the runtime to cancel
/// the task and returns at once; nothing is claimed of its effect.
pub assume_specification<T>[ tokio::task::JoinHandle::<T>::abort ](
    handle: &tokio::task::JoinHandle<T>,
);

/// An HTTP server for hosts whose listening socket must stay synchronous: it
/// is bound to an address once, started as a background accept loop, and shut
/// down by cancelling that loop.
pub struct HttpServer {
    /// The address the listening socket is to be bound to, as given to
    /// `bind`; resolved only when the server starts.
    pub addr: String,
    /// The accept loop's task handle while the server runs.
    pub main_task: Option<tokio::task::JoinHandle<()>>,
    /// The name used in log messages.
    pub name: String,
    /// Milliseconds the accept loop sleeps between two polls, so that handler
    /// tasks and other cooperative work get scheduling time.
    pub refresh_rate_ms: u64,
}

/// What `shutdown` does to the server: the task handle is cleared and nothing
/// else moves; a server that was not running is left exactly as it was.
pub open spec fn shutdown_transition(pre: HttpServer, post: HttpServer) -> bool {
    &&& post.main_task is None
    &&& post.addr == pre.addr
    &&& post.name == pre.name
    &&& post.refresh_rate_ms == pre.refresh_rate_ms
    &&& (pre.main_task is None ==> post == pre)
}

impl HttpServer {
    /// Create a server for the given address. A missing name falls back to
    /// `HttpServer`; a missing refresh rate falls back to one millisecond.
    pub fn bind(addr: String, name: Option<&str>, refresh_rate_ms: Option<u64>) -> (r: Self)
        ensures
            r.addr == addr,
            r.main_task is None,
            (match name {
                Some(n) => r.name@ == n@,
                None => r.name@ == "HttpServer"@,
            }),
            (match refresh_rate_ms {
                Some(ms) => r.refresh_rate_ms == ms,
                None => r.refresh_rate_ms == 1,
            }),
    {
        let final_name: String = match name {
            Some(n) => String::from_str(n),
            None => String::from_str("HttpServer"),
        };
        let final_refresh_rate: u64 = match refresh_rate_ms {
            Some(ms) => ms,
            None => 1,
        };
        HttpServer {
            addr,
            main_task: None,
            name: final_name,
            refresh_rate_ms: final_refresh_rate,
        }
    }

    /// Stop the server by cancelling the accept loop's task, if one is
    /// running; a server that is not running is left untouched. Handler tasks
    /// already spawned are not cancelled.
    pub fn shutdown(&mut self)
        ensures
            shutdown_transition(*old(self), *final(self)),
    {
        match self.main_task.take() {
            Some(task) => {
                task.abort();
            },
            None => {},
        }
    }

    /// Store the handle of the freshly spawned accept loop; the caller that
    /// started the loop hands it over here.
    pub fn store_main_task(&mut self, task: tokio::task::JoinHandle<()>)
        ensures
            final(self).main_task == Some(task),
            final(self).addr == old(self).addr,
            final(self).name == old(self).name,
            final(self).refresh_rate_ms == old(self).refresh_rate_ms,
    {
        self.main_task = Some(task);
    }

    /// Whether an accept loop is currently running.
    pub fn is_running(&self) -> (r: bool)
        ensures
            r == (self.main_task is Some),
    {
        self.main_task.is_some()
    }
}

/// Shutting down twice has the same observable effect as shutting down once:
/// after the first shutdown the server holds no task, so the second one is a
/// no-op and leaves the server exactly as the first left it.
pub proof fn lemma_shutdown_idempotent(s0: HttpServer, s1: HttpServer, s2: HttpServer)
    requires
        shutdown_transition(s0, s1),
        shutdown_transition(s1, s2),
    ensures
        s2 == s1,
{
}

} // verus!
