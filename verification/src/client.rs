//! The queries on light clients.

use std::sync::Arc;
use vstd::prelude::*;
use vstd::string::StringExecFns;
use crate::error::ServerError;
use crate::grammar::{typed_of, TypedPath};
use crate::path::{ClientConsensusStatePath, ClientStatePath, IbcPath};
use crate::service::{is_stamp, key_space, stamp, Height, PageResponse};
use crate::status::{BadArgument, Fault, Status};
use crate::store::{
    AnyClientState, AnyConsensusState, ClientStateReply, ConsensusStateReply, IbcStore, ScanReply,
};
use crate::trace::{all_asked, gather, steps, views, walk, walked, Step, Visit};
use crate::types::{parse_spec, Path, StoreHeight};

verus! {

/// A client with its state.
#[derive(Clone, Debug, PartialEq, Eq)]
pub struct IdentifiedClientState {
    pub client_id: String,
    pub client_state: Option<AnyClientState>,
}

impl View for IdentifiedClientState {
    type V = (Seq<char>, Option<AnyClientState>);

    open spec fn view(&self) -> (Seq<char>, Option<AnyClientState>) {
        (self.client_id@, self.client_state)
    }
}

/// All clients of the chain, at a height.
#[derive(Clone, Debug, PartialEq, Eq)]
pub struct QueryClientStatesResponse {
    pub client_states: Vec<IdentifiedClientState>,
    pub pagination: Option<PageResponse>,
    pub height: Option<Height>,
}

/// Asks for the consensus states of a client.
#[derive(Clone, Debug, PartialEq, Eq)]
pub struct QueryConsensusStatesRequest {
    pub client_id: String,
}

/// A consensus state with the height that it is for.
#[derive(Clone, Debug, PartialEq, Eq)]
pub struct ConsensusStateWithHeight {
    pub height: Option<Height>,
    pub consensus_state: Option<AnyConsensusState>,
}

impl View for ConsensusStateWithHeight {
    type V = ConsensusStateWithHeight;

    open spec fn view(&self) -> ConsensusStateWithHeight {
        *self
    }
}

/// The consensus states of a client, at a height.
#[derive(Clone, Debug, PartialEq, Eq)]
pub struct QueryConsensusStatesResponse {
    pub consensus_states: Vec<ConsensusStateWithHeight>,
    pub pagination: Option<PageResponse>,
    pub height: Option<Height>,
}

/// What a client state key with the reply to its lookup contributes to the
/// list of all clients: the client with its state. A key without a record
/// contradicts the listing.
pub open spec fn client_found(client_id: Seq<char>, reply: ClientStateReply) -> Step<
    (Seq<char>, Option<AnyClientState>),
> {
    match reply {
        Err(e) => Step::Fail(Status::DataLoss(e)),
        Ok(None) => Step::Fail(Status::Inconsistent(Fault::MissingRecord)),
        Ok(Some(state)) => Step::Keep((client_id, Some(state))),
    }
}

/// What a listed key contributes to the list of all clients. A key that
/// names no client state is passed over.
pub open spec fn client_step(key: Seq<Seq<char>>, reply: ClientStateReply) -> Step<
    (Seq<char>, Option<AnyClientState>),
> {
    match typed_of(key) {
        Some(TypedPath::ClientState(id)) => client_found(id, reply),
        _ => Step::Skip,
    }
}

/// The steps of listing all clients over `keys` with `replies`.
pub open spec fn client_steps(keys: Seq<Path>, replies: Seq<ClientStateReply>) -> Seq<
    Step<(Seq<char>, Option<AnyClientState>)>,
> {
    Seq::new(keys.len(), |i: int| client_step(keys[i]@, replies[i]))
}

/// Whether `reply` is an answer that `store` may give to the lookup that a
/// listed key needs in the list of all clients: the newest client state
/// under the key, where the key names a client state.
pub open spec fn client_lookup<Store: IbcStore>(
    store: &Store,
    key: Seq<Seq<char>>,
    reply: ClientStateReply,
) -> bool {
    match typed_of(key) {
        Some(TypedPath::ClientState(id)) => store.client_state_answer(
            StoreHeight::Latest,
            TypedPath::ClientState(id),
            reply,
        ),
        _ => true,
    }
}

/// Whether `r` is the answer to the query for all clients, given what
/// `store` replied to the listing of the client keys and to the lookup of
/// each key visited.
pub open spec fn answers_client_states<Store: IbcStore>(
    r: Result<QueryClientStatesResponse, Status>,
    store: &Store,
    scan: ScanReply,
    replies: Seq<ClientStateReply>,
) -> bool {
    &&& store.listing_answer(seq!["clients"@], scan)
    &&& match scan {
        Err(e) => r is Err && r->Err_0 == Status::Internal(e),
        Ok(keys) => {
            &&& replies.len() <= keys@.len()
            &&& forall|i: int|
                0 <= i < replies.len() ==> client_lookup(store, keys@[i]@, #[trigger] replies[i])
            &&& match gather(client_steps(keys@.take(replies.len() as int), replies)) {
                Err(s) => r is Err && r->Err_0 == s,
                Ok(items) => r matches Ok(resp) && views(resp.client_states@) == items
                    && resp.pagination is None && is_stamp(store, resp.height) && replies.len()
                    == keys@.len(),
            }
        },
    }
}

/// The client of a client state key, given the reply to its lookup.
pub fn identify_client(path: &ClientStatePath, reply: ClientStateReply) -> (r: Step<
    IdentifiedClientState,
>)
    ensures
        r@ == client_found(path.0@, reply),
{
    match reply {
        Err(e) => Step::Fail(Status::DataLoss(e)),
        Ok(None) => Step::Fail(Status::Inconsistent(Fault::MissingRecord)),
        Ok(Some(state)) => Step::Keep(
            IdentifiedClientState {
                client_id: path.0.as_str().to_owned(),
                client_state: Some(state),
            },
        ),
    }
}

/// The key space of all clients.
pub fn clients_prefix() -> (p: Path)
    ensures
        p@ == seq!["clients"@],
{
    key_space("clients")
}

/// The text of the key space of the consensus states of a client.
pub open spec fn consensus_prefix_text(client_id: Seq<char>) -> Seq<char> {
    "clients/"@ + client_id + "/consensusStates"@
}

/// The key space of the consensus states of a client, where the client
/// identifier makes a valid path of it.
pub fn consensus_states_prefix(client_id: &str) -> (r: Result<Path, ServerError>)
    ensures
        r is Ok <==> parse_spec(consensus_prefix_text(client_id@)) is Ok,
        r matches Ok(p) ==> p@ == parse_spec(consensus_prefix_text(client_id@))->Ok_0,
        r matches Err(e) ==> e == parse_spec(consensus_prefix_text(client_id@))->Err_0,
{
    let mut text: String = "clients/".to_owned();
    text.append(client_id);
    text.append("/consensusStates");
    Path::parse(text.as_str())
}

/// What a consensus state key with the reply to its lookup contributes to
/// the consensus states of a client: the state with the height that the key
/// names. A key without a record contradicts the listing.
pub open spec fn consensus_found(epoch: u64, height: u64, reply: ConsensusStateReply) -> Step<
    ConsensusStateWithHeight,
> {
    match reply {
        Err(e) => Step::Fail(Status::DataLoss(e)),
        Ok(None) => Step::Fail(Status::Inconsistent(Fault::MissingRecord)),
        Ok(Some(state)) => Step::Keep(
            ConsensusStateWithHeight {
                height: Some(Height { revision_number: epoch, revision_height: height }),
                consensus_state: Some(state),
            },
        ),
    }
}

/// What a listed key contributes to the consensus states of a client. A key
/// that names no consensus state contradicts the listing.
pub open spec fn consensus_step(key: Seq<Seq<char>>, reply: ConsensusStateReply) -> Step<
    ConsensusStateWithHeight,
> {
    match typed_of(key) {
        Some(TypedPath::ClientConsensusState(_, epoch, height)) => consensus_found(
            epoch,
            height,
            reply,
        ),
        _ => Step::Fail(Status::Inconsistent(Fault::UnexpectedPath)),
    }
}

/// The steps of listing the consensus states of a client over `keys` with
/// `replies`.
pub open spec fn consensus_steps(keys: Seq<Path>, replies: Seq<ConsensusStateReply>) -> Seq<
    Step<ConsensusStateWithHeight>,
> {
    Seq::new(keys.len(), |i: int| consensus_step(keys[i]@, replies[i]))
}

/// Whether `reply` is an answer that `store` may give to the lookup that a
/// listed key needs in the list of consensus states: the newest consensus
/// state under the key, where the key names one.
pub open spec fn consensus_lookup<Store: IbcStore>(
    store: &Store,
    key: Seq<Seq<char>>,
    reply: ConsensusStateReply,
) -> bool {
    match typed_of(key) {
        Some(TypedPath::ClientConsensusState(client_id, epoch, height)) => {
            store.consensus_state_answer(
                StoreHeight::Latest,
                TypedPath::ClientConsensusState(client_id, epoch, height),
                reply,
            )
        },
        _ => true,
    }
}

/// Whether `r` is the answer to the query for the consensus states under
/// the key space `prefix`, given what `store` replied to the listing of the
/// keys and to the lookup of each key visited.
pub open spec fn answers_consensus_states<Store: IbcStore>(
    r: Result<QueryConsensusStatesResponse, Status>,
    store: &Store,
    prefix: Seq<Seq<char>>,
    scan: ScanReply,
    replies: Seq<ConsensusStateReply>,
) -> bool {
    &&& store.listing_answer(prefix, scan)
    &&& match scan {
        Err(e) => r is Err && r->Err_0 == Status::Internal(e),
        Ok(keys) => {
            &&& replies.len() <= keys@.len()
            &&& forall|i: int|
                0 <= i < replies.len() ==> consensus_lookup(store, keys@[i]@, #[trigger] replies[i])
            &&& match gather(consensus_steps(keys@.take(replies.len() as int), replies)) {
                Err(s) => r is Err && r->Err_0 == s,
                Ok(items) => r matches Ok(resp) && views(resp.consensus_states@) == items
                    && resp.pagination is None && is_stamp(store, resp.height) && replies.len()
                    == keys@.len(),
            }
        },
    }
}

/// The consensus state of a key with its height, given the reply to the
/// lookup of the key.
pub fn consensus_at_height(path: &ClientConsensusStatePath, reply: ConsensusStateReply) -> (r: Step<
    ConsensusStateWithHeight,
>)
    ensures
        r@ == consensus_found(path.epoch, path.height, reply),
{
    match reply {
        Err(e) => Step::Fail(Status::DataLoss(e)),
        Ok(None) => Step::Fail(Status::Inconsistent(Fault::MissingRecord)),
        Ok(Some(state)) => Step::Keep(
            ConsensusStateWithHeight {
                height: Some(
                    Height { revision_number: path.epoch, revision_height: path.height },
                ),
                consensus_state: Some(state),
            },
        ),
    }
}

/// The walk that lists all clients.
struct AllClients<Store: IbcStore> {
    store: Arc<Store>,
}

impl<Store: IbcStore> Visit for AllClients<Store> {
    type Reply = ClientStateReply;

    type Item = IdentifiedClientState;

    closed spec fn asked(&self, key: Seq<Seq<char>>, reply: ClientStateReply) -> bool {
        client_lookup(&*self.store, key, reply)
    }

    open spec fn step(&self, key: Seq<Seq<char>>, reply: ClientStateReply) -> Step<
        (Seq<char>, Option<AnyClientState>),
    > {
        client_step(key, reply)
    }

    fn visit(&self, key: &Path) -> (r: (Step<IdentifiedClientState>, Ghost<ClientStateReply>)) {
        match key.to_typed() {
            Some(IbcPath::ClientState(path)) => {
                let found = self.store.get_client_state(StoreHeight::Latest, &path);
                (identify_client(&path, found), Ghost(found))
            },
            _ => (Step::Skip, Ghost(Ok(None))),
        }
    }
}

/// The walk that lists the consensus states of a client.
struct AllConsensusStates<Store: IbcStore> {
    store: Arc<Store>,
}

impl<Store: IbcStore> Visit for AllConsensusStates<Store> {
    type Reply = ConsensusStateReply;

    type Item = ConsensusStateWithHeight;

    closed spec fn asked(&self, key: Seq<Seq<char>>, reply: ConsensusStateReply) -> bool {
        consensus_lookup(&*self.store, key, reply)
    }

    open spec fn step(&self, key: Seq<Seq<char>>, reply: ConsensusStateReply) -> Step<
        ConsensusStateWithHeight,
    > {
        consensus_step(key, reply)
    }

    fn visit(&self, key: &Path) -> (r: (
        Step<ConsensusStateWithHeight>,
        Ghost<ConsensusStateReply>,
    )) {
        match key.to_typed() {
            Some(IbcPath::ClientConsensusState(path)) => {
                let found = self.store.get_consensus_state(StoreHeight::Latest, &path);
                (consensus_at_height(&path, found), Ghost(found))
            },
            _ => (Step::Fail(Status::Inconsistent(Fault::UnexpectedPath)), Ghost(Ok(None))),
        }
    }
}

/// The queries on light clients.
pub struct IbcClientService<Store: IbcStore> {
    store: Arc<Store>,
}

impl<Store: IbcStore> IbcClientService<Store> {
    /// The store that the service reads.
    pub closed spec fn store(&self) -> &Store {
        &*self.store
    }

    /// The service over `store`.
    pub fn new(store: Arc<Store>) -> (r: Self)
        ensures
            r.store() == &*store,
    {
        Self { store }
    }

    /// All clients of the chain with their states, in the order in which the
    /// store lists their state keys, stamped with the height of the chain.
    /// Keys of another shape are passed over; a listed state key must have a
    /// record.
    pub fn client_states(&self) -> (r: Result<QueryClientStatesResponse, Status>)
        ensures
            exists|scan: ScanReply, replies: Seq<ClientStateReply>| #[trigger]
                answers_client_states(r, self.store(), scan, replies),
    {
        let prefix = clients_prefix();
        let scan = self.store.get_paths_by_prefix(&prefix);
        let keys = match scan {
            Ok(keys) => keys,
            Err(e) => {
                let r = Err(Status::Internal(e));
                assert(answers_client_states(r, self.store(), scan, Seq::empty()));
                return r;
            },
        };
        let visitor = AllClients { store: Arc::clone(&self.store) };
        let listed = walk(&visitor, &keys);
        let ghost replies = choose|replies: Seq<ClientStateReply>|
            walked(listed, &visitor, keys@, replies);
        assert(steps(&visitor, keys@.take(replies.len() as int), replies) =~= client_steps(
            keys@.take(replies.len() as int),
            replies,
        ));
        assert(all_asked(&visitor, keys@, replies));
        let r = match listed {
            Ok(client_states) => Ok(
                QueryClientStatesResponse {
                    client_states,
                    pagination: None,
                    height: stamp(self.store.current_height()),
                },
            ),
            Err(e) => Err(e),
        };
        assert(answers_client_states(r, self.store(), scan, replies));
        r
    }

    /// The consensus states of a client with their heights, in the order in
    /// which the store lists their keys, stamped with the height of the
    /// chain. A client identifier that makes no valid path is an invalid
    /// argument; the listing must hold consensus state keys only, and each
    /// must have a record.
    pub fn consensus_states(&self, request: &QueryConsensusStatesRequest) -> (r: Result<
        QueryConsensusStatesResponse,
        Status,
    >)
        ensures
            match parse_spec(consensus_prefix_text(request.client_id@)) {
                Err(e) => r is Err && r->Err_0 == Status::InvalidArgument(BadArgument::Path(e)),
                Ok(prefix) => exists|scan: ScanReply, replies: Seq<ConsensusStateReply>| #[trigger]
                    answers_consensus_states(r, self.store(), prefix, scan, replies),
            },
    {
        let prefix = match consensus_states_prefix(request.client_id.as_str()) {
            Ok(p) => p,
            Err(e) => {
                return Err(Status::InvalidArgument(BadArgument::Path(e)));
            },
        };
        let scan = self.store.get_paths_by_prefix(&prefix);
        let keys = match scan {
            Ok(keys) => keys,
            Err(e) => {
                let r = Err(Status::Internal(e));
                assert(answers_consensus_states(r, self.store(), prefix@, scan, Seq::empty()));
                return r;
            },
        };
        let visitor = AllConsensusStates { store: Arc::clone(&self.store) };
        let listed = walk(&visitor, &keys);
        let ghost replies = choose|replies: Seq<ConsensusStateReply>|
            walked(listed, &visitor, keys@, replies);
        assert(steps(&visitor, keys@.take(replies.len() as int), replies) =~= consensus_steps(
            keys@.take(replies.len() as int),
            replies,
        ));
        assert(all_asked(&visitor, keys@, replies));
        let r = match listed {
            Ok(consensus_states) => Ok(
                QueryConsensusStatesResponse {
                    consensus_states,
                    pagination: None,
                    height: stamp(self.store.current_height()),
                },
            ),
            Err(e) => Err(e),
        };
        assert(answers_consensus_states(r, self.store(), prefix@, scan, replies));
        r
    }

    /// The state of one client. Not supported yet.
    pub fn client_state(&self) -> (r: Result<(), Status>)
        ensures
            r is Err,
            r->Err_0 == Status::Unimplemented,
    {
        Err(Status::Unimplemented)
    }

    /// One consensus state of a client. Not supported yet.
    pub fn consensus_state(&self) -> (r: Result<(), Status>)
        ensures
            r is Err,
            r->Err_0 == Status::Unimplemented,
    {
        Err(Status::Unimplemented)
    }

    /// The heights of the consensus states of a client. Not supported yet.
    pub fn consensus_state_heights(&self) -> (r: Result<(), Status>)
        ensures
            r is Err,
            r->Err_0 == Status::Unimplemented,
    {
        Err(Status::Unimplemented)
    }

    /// The status of a client. Not supported yet.
    pub fn client_status(&self) -> (r: Result<(), Status>)
        ensures
            r is Err,
            r->Err_0 == Status::Unimplemented,
    {
        Err(Status::Unimplemented)
    }

    /// The parameters of the client module. Not supported yet.
    pub fn client_params(&self) -> (r: Result<(), Status>)
        ensures
            r is Err,
            r->Err_0 == Status::Unimplemented,
    {
        Err(Status::Unimplemented)
    }

    /// The client state of a planned upgrade. Not supported yet.
    pub fn upgraded_client_state(&self) -> (r: Result<(), Status>)
        ensures
            r is Err,
            r->Err_0 == Status::Unimplemented,
    {
        Err(Status::Unimplemented)
    }

    /// The consensus state of a planned upgrade. Not supported yet.
    pub fn upgraded_consensus_state(&self) -> (r: Result<(), Status>)
        ensures
            r is Err,
            r->Err_0 == Status::Unimplemented,
    {
        Err(Status::Unimplemented)
    }
}

} // verus!
