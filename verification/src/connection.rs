//! The queries on connections.

use std::sync::Arc;
use vstd::prelude::*;
use crate::error::ServerError;
use crate::host::{
    client_id_verdict, is_client_id, is_connection_id, ClientId, ConnectionId,
};
use crate::grammar::{typed_of, TypedPath};
use crate::path::{ClientConnectionsPath, ConnectionsPath, IbcPath};
use crate::service::{is_stamp, key_space, stamp, Height, PageResponse};
use crate::status::{BadArgument, Fault, Status};
use crate::store::{ConnectionEnd, ConnectionIdsReply, ConnectionReply, IbcStore, ScanReply};
use crate::text::texts;
use crate::trace::{all_asked, gather, steps, views, walk, walked, Step, Visit};
use crate::types::{Path, StoreHeight};

verus! {

/// Asks for one connection end.
#[derive(Clone, Debug, PartialEq, Eq)]
pub struct QueryConnectionRequest {
    pub connection_id: String,
}

/// The connection end asked for, if the store holds it.
#[derive(Clone, Debug, PartialEq, Eq)]
pub struct QueryConnectionResponse {
    pub connection: Option<ConnectionEnd>,
    pub proof: Vec<u8>,
    pub proof_height: Option<Height>,
}

/// A connection end with its identifier.
#[derive(Clone, Debug, PartialEq, Eq)]
pub struct IdentifiedConnection {
    pub id: ConnectionId,
    pub connection: ConnectionEnd,
}

impl View for IdentifiedConnection {
    type V = (Seq<char>, ConnectionEnd);

    open spec fn view(&self) -> (Seq<char>, ConnectionEnd) {
        (self.id@, self.connection)
    }
}

/// All connection ends of the chain, at a height.
#[derive(Clone, Debug, PartialEq, Eq)]
pub struct QueryConnectionsResponse {
    pub connections: Vec<IdentifiedConnection>,
    pub pagination: Option<PageResponse>,
    pub height: Option<Height>,
}

/// Asks for the connections of a client.
#[derive(Clone, Debug, PartialEq, Eq)]
pub struct QueryClientConnectionsRequest {
    pub client_id: String,
}

/// The identifiers of the connections of a client.
#[derive(Clone, Debug, PartialEq, Eq)]
pub struct QueryClientConnectionsResponse {
    pub connection_paths: Vec<String>,
    pub proof: Vec<u8>,
    pub proof_height: Option<Height>,
}

/// Whether `r` is the answer to a query for one connection end, given what
/// the store replied: a failed read is a loss of data, and absence is an
/// answer like any other.
pub open spec fn answers_connection(
    r: Result<QueryConnectionResponse, Status>,
    reply: ConnectionReply,
) -> bool {
    match reply {
        Err(e) => r is Err && r->Err_0 == Status::DataLoss(e),
        Ok(found) => r matches Ok(resp) && resp.connection == found && resp.proof@.len() == 0
            && resp.proof_height is None,
    }
}

/// The answer to a query for one connection end, given what the store
/// replied.
pub fn connection_response(reply: ConnectionReply) -> (r: Result<QueryConnectionResponse, Status>)
    ensures
        answers_connection(r, reply),
{
    match reply {
        Err(e) => Err(Status::DataLoss(e)),
        Ok(found) => Ok(
            QueryConnectionResponse { connection: found, proof: Vec::new(), proof_height: None },
        ),
    }
}

/// What a connection key with the reply to its lookup contributes: the
/// identified connection end. A key without a record contradicts the listing.
pub open spec fn connection_found(id: Seq<char>, reply: ConnectionReply) -> Step<
    (Seq<char>, ConnectionEnd),
> {
    match reply {
        Err(e) => Step::Fail(Status::DataLoss(e)),
        Ok(None) => Step::Fail(Status::Inconsistent(Fault::MissingRecord)),
        Ok(Some(end)) => Step::Keep((id, end)),
    }
}

/// What a listed key contributes to the list of all connections. A key that
/// names no connection contradicts the listing.
pub open spec fn connection_step(key: Seq<Seq<char>>, reply: ConnectionReply) -> Step<
    (Seq<char>, ConnectionEnd),
> {
    match typed_of(key) {
        Some(TypedPath::Connections(id)) => connection_found(id, reply),
        _ => Step::Fail(Status::Inconsistent(Fault::UnexpectedPath)),
    }
}

/// The steps of listing all connections over `keys` with `replies`.
pub open spec fn connection_steps(keys: Seq<Path>, replies: Seq<ConnectionReply>) -> Seq<
    Step<(Seq<char>, ConnectionEnd)>,
> {
    Seq::new(keys.len(), |i: int| connection_step(keys[i]@, replies[i]))
}

/// Whether `reply` is an answer that `store` may give when asked for the
/// newest connection end of `connection_id`.
pub open spec fn connection_asked<Store: IbcStore>(
    store: &Store,
    connection_id: Seq<char>,
    reply: ConnectionReply,
) -> bool {
    store.connection_end_answer(StoreHeight::Latest, TypedPath::Connections(connection_id), reply)
}

/// Whether `reply` is an answer that `store` may give to the lookup that a
/// listed key needs in the list of all connections: the newest connection
/// end under the key, where the key names a connection.
pub open spec fn connection_lookup<Store: IbcStore>(
    store: &Store,
    key: Seq<Seq<char>>,
    reply: ConnectionReply,
) -> bool {
    match typed_of(key) {
        Some(TypedPath::Connections(id)) => connection_asked(store, id, reply),
        _ => true,
    }
}

/// Whether `r` is the answer to the query for all connections, given what
/// `store` replied to the listing of the connection keys and to the lookup
/// of each key visited.
pub open spec fn answers_connections<Store: IbcStore>(
    r: Result<QueryConnectionsResponse, Status>,
    store: &Store,
    scan: ScanReply,
    replies: Seq<ConnectionReply>,
) -> bool {
    &&& store.listing_answer(seq!["connections"@], scan)
    &&& match scan {
        Err(e) => r is Err && r->Err_0 == Status::Internal(e),
        Ok(keys) => {
            &&& replies.len() <= keys@.len()
            &&& forall|i: int|
                0 <= i < replies.len() ==> connection_lookup(
                    store,
                    keys@[i]@,
                    #[trigger] replies[i],
                )
            &&& match gather(connection_steps(keys@.take(replies.len() as int), replies)) {
                Err(s) => r is Err && r->Err_0 == s,
                Ok(items) => r matches Ok(resp) && views(resp.connections@) == items
                    && resp.pagination is None && is_stamp(store, resp.height) && replies.len()
                    == keys@.len(),
            }
        },
    }
}

/// The identified connection end of a key, given the reply to its lookup.
pub fn identify_connection(id: ConnectionId, reply: ConnectionReply) -> (r: Step<
    IdentifiedConnection,
>)
    ensures
        r@ == connection_found(id@, reply),
{
    match reply {
        Err(e) => Step::Fail(Status::DataLoss(e)),
        Ok(None) => Step::Fail(Status::Inconsistent(Fault::MissingRecord)),
        Ok(Some(end)) => Step::Keep(IdentifiedConnection { id, connection: end }),
    }
}

/// The walk that lists all connections.
struct AllConnections<Store: IbcStore> {
    store: Arc<Store>,
}

impl<Store: IbcStore> Visit for AllConnections<Store> {
    type Reply = ConnectionReply;

    type Item = IdentifiedConnection;

    closed spec fn asked(&self, key: Seq<Seq<char>>, reply: ConnectionReply) -> bool {
        connection_lookup(&*self.store, key, reply)
    }

    open spec fn step(&self, key: Seq<Seq<char>>, reply: ConnectionReply) -> Step<
        (Seq<char>, ConnectionEnd),
    > {
        connection_step(key, reply)
    }

    fn visit(&self, key: &Path) -> (r: (Step<IdentifiedConnection>, Ghost<ConnectionReply>)) {
        match key.to_typed() {
            Some(IbcPath::Connections(path)) => {
                let found = self.store.get_connection_end(StoreHeight::Latest, &path);
                (identify_connection(path.0, found), Ghost(found))
            },
            _ => (Step::Fail(Status::Inconsistent(Fault::UnexpectedPath)), Ghost(Ok(None))),
        }
    }
}

/// The key space of all connection ends.
pub fn connections_prefix() -> (p: Path)
    ensures
        p@ == seq!["connections"@],
{
    key_space("connections")
}

/// Whether `reply` is an answer that `store` may give when asked for the
/// newest connections of `client_id`.
pub open spec fn client_connections_asked<Store: IbcStore>(
    store: &Store,
    client_id: Seq<char>,
    reply: ConnectionIdsReply,
) -> bool {
    store.connection_ids_answer(StoreHeight::Latest, TypedPath::ClientConnections(client_id), reply)
}

/// Whether `r` is the answer to the query for the connections of a client,
/// given what the store replied: a failed read is a loss of data, and the
/// connections that the store names are given by their texts.
pub open spec fn answers_client_connections(
    r: Result<QueryClientConnectionsResponse, Status>,
    reply: ConnectionIdsReply,
) -> bool {
    match reply {
        Err(e) => r is Err && r->Err_0 == Status::DataLoss(e),
        Ok(ids) => r matches Ok(resp) && texts(resp.connection_paths@) == views(ids@)
            && resp.proof@.len() == 0 && resp.proof_height is None,
    }
}

/// The answer to the query for the connections of a client, given what the
/// store replied.
pub fn client_connections_response(reply: ConnectionIdsReply) -> (r: Result<
    QueryClientConnectionsResponse,
    Status,
>)
    ensures
        answers_client_connections(r, reply),
{
    let ids = match reply {
        Ok(ids) => ids,
        Err(e) => {
            return Err(Status::DataLoss(e));
        },
    };
    let mut connection_paths: Vec<String> = Vec::new();
    let n: usize = ids.len();
    let mut i: usize = 0;
    while i < n
        invariant
            n == ids@.len(),
            i <= n,
            connection_paths@.len() == i,
            forall|j: int| 0 <= j < i ==> (#[trigger] connection_paths@[j])@ == ids@[j]@,
        decreases n - i,
    {
        connection_paths.push(ids[i].as_str().to_owned());
        i = i + 1;
    }
    assert(texts(connection_paths@) =~= views(ids@));
    Ok(QueryClientConnectionsResponse { connection_paths, proof: Vec::new(), proof_height: None })
}

/// The queries on connections.
pub struct IbcConnectionService<Store: IbcStore> {
    store: Arc<Store>,
}

impl<Store: IbcStore> IbcConnectionService<Store> {
    /// The store that the service reads.
    pub closed spec fn store(&self) -> &Store {
        &*self.store
    }

    /// The service over `store`.
    pub fn new(store: Arc<Store>) -> (r: Self)
        ensures
            r.store() == &*store,
    {
        Self { store }
    }

    /// One connection end by its identifier. A malformed identifier is an
    /// invalid argument; otherwise the answer follows the reply of the store.
    pub fn connection(&self, request: &QueryConnectionRequest) -> (r: Result<
        QueryConnectionResponse,
        Status,
    >)
        ensures
            !is_connection_id(request.connection_id@) ==> r is Err && r->Err_0
                == Status::InvalidArgument(BadArgument::ConnectionId),
            is_connection_id(request.connection_id@) ==> exists|reply: ConnectionReply|
                #[trigger] connection_asked(self.store(), request.connection_id@, reply)
                    && answers_connection(r, reply),
    {
        let conn_id = match ConnectionId::from_str(request.connection_id.as_str()) {
            Ok(id) => id,
            Err(_) => {
                return Err(Status::InvalidArgument(BadArgument::ConnectionId));
            },
        };
        let reply = self.store.get_connection_end(
            StoreHeight::Latest,
            &ConnectionsPath(conn_id),
        );
        let r = connection_response(reply);
        assert(connection_asked(self.store(), request.connection_id@, reply));
        r
    }

    /// All connection ends of the chain, in the order in which the store
    /// lists their keys, stamped with the height of the chain. The listing
    /// must hold connection keys only, and each must have a record.
    pub fn connections(&self) -> (r: Result<QueryConnectionsResponse, Status>)
        ensures
            exists|scan: ScanReply, replies: Seq<ConnectionReply>| #[trigger]
                answers_connections(r, self.store(), scan, replies),
    {
        let prefix = connections_prefix();
        let scan = self.store.get_paths_by_prefix(&prefix);
        let keys = match scan {
            Ok(keys) => keys,
            Err(e) => {
                let r = Err(Status::Internal(e));
                assert(answers_connections(r, self.store(), scan, Seq::empty()));
                return r;
            },
        };
        let visitor = AllConnections { store: Arc::clone(&self.store) };
        let listed = walk(&visitor, &keys);
        let ghost replies = choose|replies: Seq<ConnectionReply>|
            walked(listed, &visitor, keys@, replies);
        assert(steps(&visitor, keys@.take(replies.len() as int), replies) =~= connection_steps(
            keys@.take(replies.len() as int),
            replies,
        ));
        assert(all_asked(&visitor, keys@, replies));
        let r = match listed {
            Ok(connections) => Ok(
                QueryConnectionsResponse {
                    connections,
                    pagination: None,
                    height: stamp(self.store.current_height()),
                },
            ),
            Err(e) => Err(e),
        };
        assert(answers_connections(r, self.store(), scan, replies));
        r
    }

    /// The connections of a client. A malformed identifier is an invalid
    /// argument with the reason; otherwise the answer follows the reply of
    /// the store.
    pub fn client_connections(&self, request: &QueryClientConnectionsRequest) -> (r: Result<
        QueryClientConnectionsResponse,
        Status,
    >)
        ensures
            !is_client_id(request.client_id@) ==> r is Err && r->Err_0 == Status::InvalidArgument(
                BadArgument::ClientId(client_id_verdict(request.client_id@)->Err_0),
            ),
            is_client_id(request.client_id@) ==> exists|reply: ConnectionIdsReply|
                #[trigger] client_connections_asked(self.store(), request.client_id@, reply)
                    && answers_client_connections(r, reply),
    {
        let client_id = match ClientId::from_str(request.client_id.as_str()) {
            Ok(id) => id,
            Err(e) => {
                return Err(Status::InvalidArgument(BadArgument::ClientId(e)));
            },
        };
        let reply = self.store.get_connection_ids(
            StoreHeight::Latest,
            &ClientConnectionsPath(client_id),
        );
        let r = client_connections_response(reply);
        assert(client_connections_asked(self.store(), request.client_id@, reply));
        r
    }

    /// The client state of a connection. Not supported yet.
    pub fn connection_client_state(&self) -> (r: Result<(), Status>)
        ensures
            r is Err,
            r->Err_0 == Status::Unimplemented,
    {
        Err(Status::Unimplemented)
    }

    /// The consensus state of a connection. Not supported yet.
    pub fn connection_consensus_state(&self) -> (r: Result<(), Status>)
        ensures
            r is Err,
            r->Err_0 == Status::Unimplemented,
    {
        Err(Status::Unimplemented)
    }
}

} // verus!
