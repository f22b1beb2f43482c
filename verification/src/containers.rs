//! Decisions about the vector store's container: whether it has to be
//! started, created or stopped, given the containers that the engine lists.
//! Talking to the engine is the caller's.

use vstd::prelude::*;
use vstd::string::StringExecFns;
use crate::text::{contains_text, texts};

verus! {

/// The image of the vector store.
pub const QDRANT_IMAGE: &'static str = "qdrant/qdrant:latest";

/// The name under which the container is created and looked for.
pub const CONTAINER_NAME: &'static str = "rust-coder-qdrant";

/// The directory, below the working directory, that holds the store's data.
pub const STORAGE_DIRECTORY: &'static str = "qdrant_storage";

/// The address on which the store's ports are published.
pub const HOST_ADDRESS: &'static str = "127.0.0.1";

/// The store's REST port.
pub const REST_PORT: &'static str = "6333";

/// The store's gRPC port.
pub const GRPC_PORT: &'static str = "6334";

/// Seconds to wait for the engine to answer.
pub const ENGINE_TIMEOUT: u64 = 120;

/// The signal that asks the container to stop.
pub const STOP_SIGNAL: &'static str = "SIGTERM";

/// Seconds the container is given to stop.
pub const STOP_GRACE: i32 = 10;

/// What the engine lists of one container.
#[derive(Debug)]
pub struct ContainerSummary {
    /// Its names as the engine writes them, each with a leading slash.
    pub names: Option<Vec<String>>,
    pub running: bool,
}

/// What to do so that the store is running.
#[derive(Debug, Clone, Copy, PartialEq, Eq, Structural)]
pub enum StartupAction {
    /// It is running already.
    Nothing,
    /// It exists but does not run: start it.
    StartExisting,
    /// It does not exist: pull the image, create the container, start it.
    CreateAndStart,
}

/// What to do so that the store is stopped.
#[derive(Debug, Clone, Copy, PartialEq, Eq, Structural)]
pub enum ShutdownAction {
    /// There is no such container.
    Nothing,
    /// Stop it; it is not removed.
    Stop,
}

/// `name` as the engine lists it.
pub open spec fn listed_name(name: Seq<char>) -> Seq<char> {
    "/"@ + name
}

/// Whether the container goes by `name`.
pub open spec fn is_named(container: ContainerSummary, name: Seq<char>) -> bool {
    match container.names {
        Some(names) => texts(names@).contains(listed_name(name)),
        None => false,
    }
}

/// The place of the first container that goes by `name`.
pub open spec fn first_named(containers: Seq<ContainerSummary>, name: Seq<char>) -> Option<int>
    decreases containers.len(),
{
    if containers.len() == 0 {
        None
    } else {
        match first_named(containers.drop_last(), name) {
            Some(i) => Some(i),
            None => if is_named(containers.last(), name) {
                Some(containers.len() - 1)
            } else {
                None
            },
        }
    }
}

fn goes_by(container: &ContainerSummary, listed: &String) -> (r: bool)
    ensures
        r == match container.names {
            Some(names) => texts(names@).contains(listed@),
            None => false,
        },
{
    match &container.names {
        None => false,
        Some(names) => contains_text(names, listed),
    }
}

/// Finds the container that goes by `name`: the first of them in the list.
pub fn find_container(containers: &Vec<ContainerSummary>, name: &str) -> (r: Option<usize>)
    ensures
        match r {
            Some(i) => first_named(containers@, name@) == Some(i as int) && i < containers.len(),
            None => first_named(containers@, name@) is None,
        },
{
    let mut listed = String::from_str("/");
    listed.append(name);
    let mut i: usize = 0;
    while i < containers.len()
        invariant
            i <= containers.len(),
            listed@ == listed_name(name@),
            first_named(containers@.take(i as int), name@) is None,
        decreases containers.len() - i,
    {
        assert(containers@.take(i + 1).drop_last() =~= containers@.take(i as int));
        if goes_by(&containers[i], &listed) {
            proof {
                lemma_first_named_prefix(containers@, name@, i + 1);
            }
            return Some(i);
        }
        i = i + 1;
    }
    assert(containers@.take(containers.len() as int) =~= containers@);
    None
}

/// What is found among the first `n` containers is found among all.
proof fn lemma_first_named_prefix(containers: Seq<ContainerSummary>, name: Seq<char>, n: int)
    requires
        0 <= n <= containers.len(),
        first_named(containers.take(n), name) is Some,
    ensures
        first_named(containers, name) == first_named(containers.take(n), name),
    decreases containers.len() - n,
{
    if n < containers.len() {
        assert(containers.take(n + 1).drop_last() =~= containers.take(n));
        lemma_first_named_prefix(containers, name, n + 1);
    } else {
        assert(containers.take(n) =~= containers);
    }
}

/// What has to be done for a running store, given the store's container as
/// the engine lists it.
pub open spec fn startup_for(found: Option<ContainerSummary>) -> StartupAction {
    match found {
        Some(container) => if container.running {
            StartupAction::Nothing
        } else {
            StartupAction::StartExisting
        },
        None => StartupAction::CreateAndStart,
    }
}

/// The container of `containers` at an optional place.
pub open spec fn at(containers: Seq<ContainerSummary>, place: Option<int>) -> Option<
    ContainerSummary,
> {
    match place {
        Some(i) => Some(containers[i]),
        None => None,
    }
}

/// Decides what has to be done so that the store runs, given all containers
/// that the engine lists, stopped ones included.
pub fn ensure_qdrant_running(containers: &Vec<ContainerSummary>) -> (r: StartupAction)
    ensures
        r == startup_for(at(containers@, first_named(containers@, CONTAINER_NAME@))),
{
    match find_container(containers, CONTAINER_NAME) {
        Some(i) => {
            if containers[i].running {
                StartupAction::Nothing
            } else {
                StartupAction::StartExisting
            }
        },
        None => StartupAction::CreateAndStart,
    }
}

/// Decides what has to be done so that the store is stopped, given all
/// containers that the engine lists.
pub fn stop_and_remove_qdrant(containers: &Vec<ContainerSummary>) -> (r: ShutdownAction)
    ensures
        r == if first_named(containers@, CONTAINER_NAME@) is Some {
            ShutdownAction::Stop
        } else {
            ShutdownAction::Nothing
        },
{
    match find_container(containers, CONTAINER_NAME) {
        Some(_) => ShutdownAction::Stop,
        None => ShutdownAction::Nothing,
    }
}

/// The bind mount that puts the host directory `host_path` under the store's
/// data directory.
pub fn storage_bind(host_path: &str) -> (r: String)
    ensures
        r@ == host_path@ + ":/qdrant/storage"@,
{
    let mut out = String::from_str(host_path);
    out.append(":/qdrant/storage");
    out
}

/// The key under which the TCP port `port` is published.
pub fn port_key(port: &str) -> (r: String)
    ensures
        r@ == port@ + "/tcp"@,
{
    let mut out = String::from_str(port);
    out.append("/tcp");
    out
}

} // verus!
