use std::collections::{HashMap, HashSet};
use std::sync::Arc;

use ibc_grpc_server::channel::{
    IbcChannelService, IdentifiedChannel, PacketState, QueryChannelRequest,
    QueryConnectionChannelsRequest, QueryPacketStatesRequest, QueryUnreceivedAcksRequest,
    QueryUnreceivedPacketsRequest,
};
use ibc_grpc_server::client::{
    ConsensusStateWithHeight, IbcClientService, IdentifiedClientState, QueryConsensusStatesRequest,
};
use ibc_grpc_server::connection::{
    IbcConnectionService, IdentifiedConnection, QueryClientConnectionsRequest,
    QueryConnectionRequest,
};
use ibc_grpc_server::error::{ServerError, ValidationError};
use ibc_grpc_server::host::{ChannelId, ClientId, ConnectionId, PortId};
use ibc_grpc_server::path::{
    AcksPath, ChannelEndsPath, ClientConnectionsPath, ClientConsensusStatePath, ClientStatePath,
    CommitmentsPath, ConnectionsPath, ReceiptsPath,
};
use ibc_grpc_server::service::Height;
use ibc_grpc_server::status::{BadArgument, Fault, Status};
use ibc_grpc_server::store::{
    AcknowledgementCommitment, AnyClientState, AnyConsensusState, ChannelCounterparty, ChannelEnd,
    ChannelState, ConnectionCounterparty, ConnectionEnd, ConnectionState, IbcStore, Order,
    PacketCommitment, Version,
};
use ibc_grpc_server::types::{Path, StoreHeight};

const BROKEN: ServerError = ServerError::FromUtf8;

#[derive(Default)]
struct MemoryStore {
    keys: Vec<&'static str>,
    scan_fails: bool,
    reads_fail: bool,
    client_states: HashSet<String>,
    consensus_states: HashSet<(String, u64, u64)>,
    connections: HashMap<String, ConnectionEnd>,
    client_connections: HashMap<String, Vec<ConnectionId>>,
    channels: HashMap<(String, String), ChannelEnd>,
    commitments: HashMap<u64, Vec<u8>>,
    acks: HashMap<u64, Vec<u8>>,
    receipts: HashSet<u64>,
    failing_sequences: HashSet<u64>,
    height: u64,
}

impl MemoryStore {
    fn read<T>(&self, value: Option<T>) -> Result<Option<T>, ServerError> {
        if self.reads_fail {
            Err(BROKEN)
        } else {
            Ok(value)
        }
    }
}

impl IbcStore for MemoryStore {
    fn get_client_state(
        &self,
        height: StoreHeight,
        path: &ClientStatePath,
    ) -> Result<Option<AnyClientState>, ServerError> {
        assert_eq!(height, StoreHeight::Latest);
        let state = AnyClientState { type_url: String::from("/state"), value: vec![1] };
        self.read(self.client_states.get(path.0.as_str()).map(|_| state))
    }

    fn get_consensus_state(
        &self,
        height: StoreHeight,
        path: &ClientConsensusStatePath,
    ) -> Result<Option<AnyConsensusState>, ServerError> {
        assert_eq!(height, StoreHeight::Latest);
        let key = (path.client_id.as_str().to_owned(), path.epoch, path.height);
        let state = AnyConsensusState { type_url: String::from("/consensus"), value: vec![2] };
        self.read(self.consensus_states.get(&key).map(|_| state))
    }

    fn get_connection_end(
        &self,
        height: StoreHeight,
        path: &ConnectionsPath,
    ) -> Result<Option<ConnectionEnd>, ServerError> {
        assert_eq!(height, StoreHeight::Latest);
        self.read(self.connections.get(path.0.as_str()).cloned())
    }

    fn get_connection_ids(
        &self,
        height: StoreHeight,
        path: &ClientConnectionsPath,
    ) -> Result<Vec<ConnectionId>, ServerError> {
        assert_eq!(height, StoreHeight::Latest);
        if self.reads_fail {
            return Err(BROKEN);
        }
        Ok(self.client_connections.get(path.0.as_str()).cloned().unwrap_or_default())
    }

    fn get_acknowledgement_commitment(
        &self,
        height: StoreHeight,
        path: &AcksPath,
    ) -> Result<Option<AcknowledgementCommitment>, ServerError> {
        assert_eq!(height, StoreHeight::Latest);
        self.read(self.acks.get(&path.sequence).cloned().map(AcknowledgementCommitment))
    }

    fn get_channel_end(
        &self,
        height: StoreHeight,
        path: &ChannelEndsPath,
    ) -> Result<Option<ChannelEnd>, ServerError> {
        assert_eq!(height, StoreHeight::Latest);
        let key = (path.0.as_str().to_owned(), path.1.as_str().to_owned());
        self.read(self.channels.get(&key).cloned())
    }

    fn get_opt(&self, height: StoreHeight, path: &ReceiptsPath) -> Result<Option<()>, ServerError> {
        assert_eq!(height, StoreHeight::Latest);
        assert_eq!(path.port_id.as_str(), "transfer");
        assert_eq!(path.channel_id.as_str(), "channel-0");
        if self.failing_sequences.contains(&path.sequence) {
            return Err(BROKEN);
        }
        Ok(self.receipts.get(&path.sequence).map(|_| ()))
    }

    fn get_packet_commitment(
        &self,
        height: StoreHeight,
        path: &CommitmentsPath,
    ) -> Result<Option<PacketCommitment>, ServerError> {
        assert_eq!(height, StoreHeight::Latest);
        if self.failing_sequences.contains(&path.sequence) {
            return Err(BROKEN);
        }
        self.read(self.commitments.get(&path.sequence).cloned().map(PacketCommitment))
    }

    fn get_paths_by_prefix(&self, key_prefix: &Path) -> Result<Vec<Path>, ServerError> {
        if self.scan_fails {
            return Err(BROKEN);
        }
        Ok(self
            .keys
            .iter()
            .map(|k| Path::parse(k).unwrap())
            .filter(|p| p.starts_with(key_prefix))
            .collect())
    }

    fn current_height(&self) -> u64 {
        self.height
    }
}

fn connection_id(text: &str) -> ConnectionId {
    ConnectionId::from_str(text).unwrap()
}

fn channel_end(hops: &[&str]) -> ChannelEnd {
    ChannelEnd {
        state: ChannelState::Open,
        ordering: Order::Unordered,
        remote: ChannelCounterparty {
            port_id: PortId::from_str("transfer").unwrap(),
            channel_id: Some(ChannelId::from_str("channel-9").unwrap()),
        },
        connection_hops: hops.iter().map(|h| connection_id(h)).collect(),
        version: String::from("ics20-1"),
    }
}

fn connection_end(client: &str) -> ConnectionEnd {
    ConnectionEnd {
        state: ConnectionState::Open,
        client_id: ClientId::from_str(client).unwrap(),
        counterparty: ConnectionCounterparty {
            client_id: ClientId::from_str("07-tendermint-99").unwrap(),
            connection_id: Some(connection_id("connection-77")),
            prefix: b"ibc".to_vec(),
        },
        versions: vec![Version {
            identifier: String::from("1"),
            features: vec![String::from("ORDER_ORDERED"), String::from("ORDER_UNORDERED")],
        }],
        delay_period_nanos: 0,
    }
}

fn channels_store() -> MemoryStore {
    let mut store = MemoryStore {
        keys: vec![
            "channelEnds/ports/transfer/channels/channel-0",
            "channelEnds/ports/transfer/channels/channel-1",
            "connections/connection-0",
        ],
        height: 17,
        ..MemoryStore::default()
    };
    store.channels.insert(
        (String::from("transfer"), String::from("channel-0")),
        channel_end(&["connection-0"]),
    );
    store.channels.insert(
        (String::from("transfer"), String::from("channel-1")),
        channel_end(&["connection-1"]),
    );
    store
}

fn identified(channel: &str, hops: &[&str]) -> IdentifiedChannel {
    IdentifiedChannel {
        port_id: PortId::from_str("transfer").unwrap(),
        channel_id: ChannelId::from_str(channel).unwrap(),
        channel: channel_end(hops),
    }
}

fn stamp(height: u64) -> Option<Height> {
    Some(Height { revision_number: 0, revision_height: height })
}

fn packets_request(sequences: Vec<u64>) -> QueryUnreceivedPacketsRequest {
    QueryUnreceivedPacketsRequest {
        port_id: String::from("transfer"),
        channel_id: String::from("channel-0"),
        packet_commitment_sequences: sequences,
    }
}

fn acks_request(sequences: Vec<u64>) -> QueryUnreceivedAcksRequest {
    QueryUnreceivedAcksRequest {
        port_id: String::from("transfer"),
        channel_id: String::from("channel-0"),
        packet_ack_sequences: sequences,
    }
}

fn states_request(port: &str, channel: &str) -> QueryPacketStatesRequest {
    QueryPacketStatesRequest { port_id: String::from(port), channel_id: String::from(channel) }
}

#[test]
fn unreceived_packets_are_those_without_a_receipt() {
    let mut store = MemoryStore { height: 5, ..MemoryStore::default() };
    for seq in [1, 2, 3] {
        store.commitments.insert(seq, vec![1]);
    }
    store.receipts.insert(2);
    let service = IbcChannelService::new(Arc::new(store));
    let response = service.unreceived_packets(packets_request(vec![1, 2, 3])).unwrap();
    assert_eq!(response.sequences, vec![1, 3]);
    assert_eq!(response.height, stamp(5));
}

#[test]
fn unreceived_packets_keep_the_order_and_repeats_of_the_request() {
    let mut store = MemoryStore::default();
    store.receipts.insert(4);
    let service = IbcChannelService::new(Arc::new(store));
    let response = service.unreceived_packets(packets_request(vec![9, 4, 1, 9, 4])).unwrap();
    assert_eq!(response.sequences, vec![9, 1, 9]);
    let response = service.unreceived_packets(packets_request(vec![])).unwrap();
    assert_eq!(response.sequences, Vec::<u64>::new());
}

#[test]
fn unreceived_packets_leave_out_what_cannot_be_read() {
    let mut store = MemoryStore::default();
    store.failing_sequences.insert(2);
    let service = IbcChannelService::new(Arc::new(store));
    let response = service.unreceived_packets(packets_request(vec![1, 2, 3])).unwrap();
    assert_eq!(response.sequences, vec![1, 3]);
}

#[test]
fn unreceived_acks_are_those_with_a_commitment() {
    let mut store = MemoryStore { height: 8, ..MemoryStore::default() };
    store.commitments.insert(6, vec![1]);
    let service = IbcChannelService::new(Arc::new(store));
    let response = service.unreceived_acks(acks_request(vec![5, 6])).unwrap();
    assert_eq!(response.sequences, vec![6]);
    assert_eq!(response.height, stamp(8));
}

#[test]
fn unreceived_acks_leave_out_what_cannot_be_read() {
    let mut store = MemoryStore::default();
    store.commitments.insert(5, vec![1]);
    store.commitments.insert(6, vec![1]);
    store.failing_sequences.insert(5);
    let service = IbcChannelService::new(Arc::new(store));
    let response = service.unreceived_acks(acks_request(vec![5, 6, 7])).unwrap();
    assert_eq!(response.sequences, vec![6]);
}

#[test]
fn unreceived_queries_reject_malformed_identifiers() {
    let service = IbcChannelService::new(Arc::new(MemoryStore::default()));
    let mut request = packets_request(vec![1]);
    request.port_id = String::from("p");
    request.channel_id = String::from("c");
    assert_eq!(
        service.unreceived_packets(request).err(),
        Some(Status::InvalidArgument(BadArgument::PortId))
    );
    let mut request = acks_request(vec![1]);
    request.channel_id = String::from("c");
    assert_eq!(
        service.unreceived_acks(request).err(),
        Some(Status::InvalidArgument(BadArgument::ChannelId))
    );
}

#[test]
fn connection_channels_are_those_whose_first_hop_is_the_connection() {
    let service = IbcChannelService::new(Arc::new(channels_store()));
    let request = QueryConnectionChannelsRequest { connection: String::from("connection-0") };
    let response = service.connection_channels(&request).unwrap();
    assert_eq!(response.channels, vec![identified("channel-0", &["connection-0"])]);
    assert_eq!(response.pagination, None);
    assert_eq!(response.height, stamp(17));
}

#[test]
fn connection_channels_go_by_the_first_hop_only() {
    let mut store = channels_store();
    store.keys.push("channelEnds/ports/transfer/channels/channel-2");
    store.keys.push("channelEnds/ports/transfer/channels/channel-3");
    store.keys.push("channelEnds/ports/transfer");
    store.channels.insert(
        (String::from("transfer"), String::from("channel-2")),
        channel_end(&["connection-1", "connection-0"]),
    );
    store.channels.insert((String::from("transfer"), String::from("channel-3")), channel_end(&[]));
    let service = IbcChannelService::new(Arc::new(store));
    let request = QueryConnectionChannelsRequest { connection: String::from("connection-1") };
    let response = service.connection_channels(&request).unwrap();
    assert_eq!(
        response.channels,
        vec![
            identified("channel-1", &["connection-1"]),
            identified("channel-2", &["connection-1", "connection-0"]),
        ]
    );
}

#[test]
fn connection_channels_fail_on_a_listed_key_without_a_record() {
    let mut store = channels_store();
    store.keys.push("channelEnds/ports/transfer/channels/channel-4");
    let service = IbcChannelService::new(Arc::new(store));
    let request = QueryConnectionChannelsRequest { connection: String::from("connection-0") };
    assert_eq!(
        service.connection_channels(&request).err(),
        Some(Status::Inconsistent(Fault::MissingRecord))
    );
}

#[test]
fn connection_channels_fail_where_the_store_fails() {
    let request = QueryConnectionChannelsRequest { connection: String::from("connection-0") };
    let service =
        IbcChannelService::new(Arc::new(MemoryStore { scan_fails: true, ..channels_store() }));
    assert_eq!(service.connection_channels(&request).err(), Some(Status::Internal(BROKEN)));
    let service =
        IbcChannelService::new(Arc::new(MemoryStore { reads_fail: true, ..channels_store() }));
    assert_eq!(service.connection_channels(&request).err(), Some(Status::DataLoss(BROKEN)));
    let request = QueryConnectionChannelsRequest { connection: String::from("conn-0") };
    assert_eq!(
        service.connection_channels(&request).err(),
        Some(Status::InvalidArgument(BadArgument::ConnectionId))
    );
}

#[test]
fn channels_lists_every_channel_in_the_order_of_the_store() {
    let mut store = channels_store();
    store.keys.reverse();
    let service = IbcChannelService::new(Arc::new(store));
    let response = service.channels().unwrap();
    assert_eq!(
        response.channels,
        vec![identified("channel-1", &["connection-1"]), identified("channel-0", &["connection-0"])]
    );
    assert_eq!(response.height, stamp(17));
}

#[test]
fn channels_fail_on_a_listed_key_without_a_record() {
    let mut store = channels_store();
    store.keys.push("channelEnds/ports/transfer/channels/channel-5");
    let service = IbcChannelService::new(Arc::new(store));
    assert_eq!(service.channels().err(), Some(Status::Inconsistent(Fault::MissingRecord)));
}

#[test]
fn channels_fail_on_a_listed_key_of_another_shape() {
    let mut store = channels_store();
    store.keys.insert(1, "channelEnds/ports/transfer");
    let service = IbcChannelService::new(Arc::new(store));
    assert_eq!(service.channels().err(), Some(Status::Inconsistent(Fault::UnexpectedPath)));
}

#[test]
fn channels_fail_where_the_store_fails() {
    let service =
        IbcChannelService::new(Arc::new(MemoryStore { scan_fails: true, ..channels_store() }));
    assert_eq!(service.channels().err(), Some(Status::Internal(BROKEN)));
    let service =
        IbcChannelService::new(Arc::new(MemoryStore { reads_fail: true, ..channels_store() }));
    assert_eq!(service.channels().err(), Some(Status::DataLoss(BROKEN)));
}

#[test]
fn channel_is_found_or_absent() {
    let service = IbcChannelService::new(Arc::new(channels_store()));
    let request =
        QueryChannelRequest { port_id: String::from("transfer"), channel_id: String::from("channel-1") };
    let response = service.channel(&request).unwrap();
    assert_eq!(response.channel, Some(channel_end(&["connection-1"])));
    assert_eq!(response.proof, Vec::<u8>::new());
    assert_eq!(response.proof_height, None);
    let request =
        QueryChannelRequest { port_id: String::from("transfer"), channel_id: String::from("channel-8") };
    assert_eq!(service.channel(&request).unwrap().channel, None);
}

#[test]
fn channel_rejects_malformed_identifiers_and_reports_lost_data() {
    let service =
        IbcChannelService::new(Arc::new(MemoryStore { reads_fail: true, ..channels_store() }));
    let request =
        QueryChannelRequest { port_id: String::from("transfer"), channel_id: String::from("channel-1") };
    assert_eq!(service.channel(&request).err(), Some(Status::DataLoss(BROKEN)));
    let request =
        QueryChannelRequest { port_id: String::from("t"), channel_id: String::from("channel-1") };
    assert_eq!(service.channel(&request).err(), Some(Status::InvalidArgument(BadArgument::PortId)));
    let request =
        QueryChannelRequest { port_id: String::from("transfer"), channel_id: String::from("ch 1") };
    assert_eq!(
        service.channel(&request).err(),
        Some(Status::InvalidArgument(BadArgument::ChannelId))
    );
}

fn packets_store() -> MemoryStore {
    let mut store = MemoryStore {
        keys: vec![
            "commitments/ports/transfer/channels/channel-0/sequences/2",
            "commitments/ports/transfer/channels/channel-1/sequences/1",
            "commitments/ports/transfer/channels/channel-0/sequences/1",
            "commitments/ports/transfer/channels/channel-0/sequences/3",
            "commitments/ports/transfer",
            "acks/ports/transfer/channels/channel-0/sequences/1",
            "acks/ports/transfer/channels/channel-0/sequences/2",
            "acks/ports/transfer/channels/channel-0/sequences/3",
            "acks/ports/other/channels/channel-0/sequences/1",
        ],
        height: 30,
        ..MemoryStore::default()
    };
    store.commitments.insert(1, vec![0xa1]);
    store.commitments.insert(2, vec![0xa2, 0xa2]);
    store.commitments.insert(3, vec![]);
    store.acks.insert(1, vec![0xb1]);
    store.acks.insert(2, vec![0xb2]);
    store.acks.insert(3, vec![]);
    store
}

fn packet_state(sequence: u64, data: Vec<u8>) -> PacketState {
    PacketState {
        port_id: String::from("transfer"),
        channel_id: String::from("channel-0"),
        sequence,
        data,
    }
}

#[test]
fn packet_commitments_are_the_filled_commitments_of_the_channel() {
    let service = IbcChannelService::new(Arc::new(packets_store()));
    let response = service.packet_commitments(&states_request("transfer", "channel-0")).unwrap();
    assert_eq!(
        response.commitments,
        vec![packet_state(2, vec![0xa2, 0xa2]), packet_state(1, vec![0xa1])]
    );
    assert_eq!(response.pagination, None);
    assert_eq!(response.height, stamp(30));
}

#[test]
fn packet_commitments_fail_on_a_listed_key_without_a_record() {
    let mut store = packets_store();
    store.keys.push("commitments/ports/transfer/channels/channel-0/sequences/4");
    let service = IbcChannelService::new(Arc::new(store));
    assert_eq!(
        service.packet_commitments(&states_request("transfer", "channel-0")).err(),
        Some(Status::Inconsistent(Fault::MissingRecord))
    );
    assert!(service.packet_commitments(&states_request("transfer", "channel-7")).is_ok());
}

#[test]
fn packet_commitments_fail_where_the_request_or_the_store_fails() {
    let service = IbcChannelService::new(Arc::new(packets_store()));
    assert_eq!(
        service.packet_commitments(&states_request("", "channel-0")).err(),
        Some(Status::InvalidArgument(BadArgument::PortId))
    );
    assert_eq!(
        service.packet_commitments(&states_request("transfer", "")).err(),
        Some(Status::InvalidArgument(BadArgument::ChannelId))
    );
    let service =
        IbcChannelService::new(Arc::new(MemoryStore { scan_fails: true, ..packets_store() }));
    assert_eq!(
        service.packet_commitments(&states_request("transfer", "channel-0")).err(),
        Some(Status::Internal(BROKEN))
    );
    let service =
        IbcChannelService::new(Arc::new(MemoryStore { reads_fail: true, ..packets_store() }));
    assert_eq!(
        service.packet_commitments(&states_request("transfer", "channel-0")).err(),
        Some(Status::DataLoss(BROKEN))
    );
}

#[test]
fn packet_acknowledgements_are_the_filled_acknowledgements_of_the_channel() {
    let service = IbcChannelService::new(Arc::new(packets_store()));
    let response =
        service.packet_acknowledgements(&states_request("transfer", "channel-0")).unwrap();
    assert_eq!(
        response.acknowledgements,
        vec![packet_state(1, vec![0xb1]), packet_state(2, vec![0xb2])]
    );
    assert_eq!(response.pagination, None);
    assert_eq!(response.height, stamp(30));
    let response = service.packet_acknowledgements(&states_request("other", "channel-0")).unwrap();
    assert_eq!(
        response.acknowledgements,
        vec![PacketState {
            port_id: String::from("other"),
            channel_id: String::from("channel-0"),
            sequence: 1,
            data: vec![0xb1]
        }]
    );
}

#[test]
fn packet_acknowledgements_fail_on_a_listed_key_without_a_record() {
    let mut store = packets_store();
    store.acks.remove(&2);
    let service = IbcChannelService::new(Arc::new(store));
    assert_eq!(
        service.packet_acknowledgements(&states_request("transfer", "channel-0")).err(),
        Some(Status::Inconsistent(Fault::MissingRecord))
    );
    assert!(service.packet_acknowledgements(&states_request("transfer", "channel-7")).is_ok());
}

#[test]
fn packet_acknowledgements_fail_where_the_request_or_the_store_fails() {
    let service =
        IbcChannelService::new(Arc::new(MemoryStore { scan_fails: true, ..packets_store() }));
    assert_eq!(
        service.packet_acknowledgements(&states_request("transfer", "channel-0")).err(),
        Some(Status::Internal(BROKEN))
    );
    assert_eq!(
        service.packet_acknowledgements(&states_request("transfer", "c")).err(),
        Some(Status::InvalidArgument(BadArgument::ChannelId))
    );
    let service =
        IbcChannelService::new(Arc::new(MemoryStore { reads_fail: true, ..packets_store() }));
    assert_eq!(
        service.packet_acknowledgements(&states_request("transfer", "channel-0")).err(),
        Some(Status::DataLoss(BROKEN))
    );
}

fn connections_store() -> MemoryStore {
    let mut store = MemoryStore {
        keys: vec!["connections/connection-1", "connections/connection-0"],
        height: 21,
        ..MemoryStore::default()
    };
    store.connections.insert(String::from("connection-0"), connection_end("07-tendermint-0"));
    store.connections.insert(String::from("connection-1"), connection_end("07-tendermint-1"));
    store
        .client_connections
        .insert(String::from("07-tendermint-0"), vec![connection_id("connection-0")]);
    store
}

#[test]
fn connections_lists_every_connection_in_the_order_of_the_store() {
    let service = IbcConnectionService::new(Arc::new(connections_store()));
    let response = service.connections().unwrap();
    assert_eq!(
        response.connections,
        vec![
            IdentifiedConnection {
                id: connection_id("connection-1"),
                connection: connection_end("07-tendermint-1")
            },
            IdentifiedConnection {
                id: connection_id("connection-0"),
                connection: connection_end("07-tendermint-0")
            },
        ]
    );
    assert_eq!(response.pagination, None);
    assert_eq!(response.height, stamp(21));
}

#[test]
fn connections_fail_on_a_listed_key_without_a_record() {
    let mut store = connections_store();
    store.connections.remove("connection-0");
    let service = IbcConnectionService::new(Arc::new(store));
    assert_eq!(service.connections().err(), Some(Status::Inconsistent(Fault::MissingRecord)));
}

#[test]
fn connections_fail_on_a_listed_key_of_another_shape() {
    let mut store = connections_store();
    store.keys.push("connections/connection-0/extra");
    let service = IbcConnectionService::new(Arc::new(store));
    assert_eq!(service.connections().err(), Some(Status::Inconsistent(Fault::UnexpectedPath)));
}

#[test]
fn connections_fail_where_the_store_fails() {
    let service =
        IbcConnectionService::new(Arc::new(MemoryStore { scan_fails: true, ..connections_store() }));
    assert_eq!(service.connections().err(), Some(Status::Internal(BROKEN)));
    let service =
        IbcConnectionService::new(Arc::new(MemoryStore { reads_fail: true, ..connections_store() }));
    assert_eq!(service.connections().err(), Some(Status::DataLoss(BROKEN)));
}

#[test]
fn connection_is_found_or_absent() {
    let service = IbcConnectionService::new(Arc::new(connections_store()));
    let request = QueryConnectionRequest { connection_id: String::from("connection-1") };
    let response = service.connection(&request).unwrap();
    assert_eq!(response.connection, Some(connection_end("07-tendermint-1")));
    assert_eq!(response.proof, Vec::<u8>::new());
    assert_eq!(response.proof_height, None);
    let request = QueryConnectionRequest { connection_id: String::from("connection-5") };
    assert_eq!(service.connection(&request).unwrap().connection, None);
}

#[test]
fn connection_rejects_a_malformed_identifier_and_reports_lost_data() {
    let service =
        IbcConnectionService::new(Arc::new(MemoryStore { reads_fail: true, ..connections_store() }));
    let request = QueryConnectionRequest { connection_id: String::from("connection-1") };
    assert_eq!(service.connection(&request).err(), Some(Status::DataLoss(BROKEN)));
    let request = QueryConnectionRequest { connection_id: String::from("conn") };
    assert_eq!(
        service.connection(&request).err(),
        Some(Status::InvalidArgument(BadArgument::ConnectionId))
    );
}

#[test]
fn client_connections_are_the_texts_of_the_identifiers() {
    let service = IbcConnectionService::new(Arc::new(connections_store()));
    let request = QueryClientConnectionsRequest { client_id: String::from("07-tendermint-0") };
    let response = service.client_connections(&request).unwrap();
    assert_eq!(response.connection_paths, vec![String::from("connection-0")]);
    assert_eq!(response.proof, Vec::<u8>::new());
    assert_eq!(response.proof_height, None);
}

#[test]
fn client_connections_are_empty_for_a_client_without_connections() {
    let service = IbcConnectionService::new(Arc::new(connections_store()));
    let request = QueryClientConnectionsRequest { client_id: String::from("07-tendermint-5") };
    assert_eq!(service.client_connections(&request).unwrap().connection_paths, Vec::<String>::new());
}

#[test]
fn client_connections_fail_where_the_store_fails() {
    let service =
        IbcConnectionService::new(Arc::new(MemoryStore { reads_fail: true, ..connections_store() }));
    let request = QueryClientConnectionsRequest { client_id: String::from("07-tendermint-0") };
    assert_eq!(service.client_connections(&request).err(), Some(Status::DataLoss(BROKEN)));
}

#[test]
fn client_connections_reject_a_malformed_identifier_with_the_reason() {
    let service = IbcConnectionService::new(Arc::new(connections_store()));
    for (text, reason) in [
        ("", ValidationError::Empty),
        ("07/tendermint", ValidationError::ContainSeparator),
        ("short", ValidationError::InvalidLength),
        ("07 tendermint", ValidationError::InvalidCharacter),
    ] {
        let request = QueryClientConnectionsRequest { client_id: String::from(text) };
        assert_eq!(
            service.client_connections(&request).err(),
            Some(Status::InvalidArgument(BadArgument::ClientId(reason)))
        );
    }
}

fn clients_store() -> MemoryStore {
    let mut store = MemoryStore {
        keys: vec![
            "clients/07-tendermint-1/clientState",
            "clients/07-tendermint-1/clientType",
            "clients/07-tendermint-1/consensusStates/0-12",
            "clients/07-tendermint-1/consensusStates/1-3",
            "clients/07-tendermint-0/clientState",
            "clients",
        ],
        height: 40,
        ..MemoryStore::default()
    };
    store.client_states.insert(String::from("07-tendermint-0"));
    store.client_states.insert(String::from("07-tendermint-1"));
    store.consensus_states.insert((String::from("07-tendermint-1"), 0, 12));
    store.consensus_states.insert((String::from("07-tendermint-1"), 1, 3));
    store
}

fn client_state() -> Option<AnyClientState> {
    Some(AnyClientState { type_url: String::from("/state"), value: vec![1] })
}

fn consensus_state() -> Option<AnyConsensusState> {
    Some(AnyConsensusState { type_url: String::from("/consensus"), value: vec![2] })
}

#[test]
fn client_states_lists_every_client_with_its_state() {
    let service = IbcClientService::new(Arc::new(clients_store()));
    let response = service.client_states().unwrap();
    assert_eq!(
        response.client_states,
        vec![
            IdentifiedClientState {
                client_id: String::from("07-tendermint-1"),
                client_state: client_state()
            },
            IdentifiedClientState {
                client_id: String::from("07-tendermint-0"),
                client_state: client_state()
            },
        ]
    );
    assert_eq!(response.pagination, None);
    assert_eq!(response.height, stamp(40));
}

#[test]
fn client_states_fail_on_a_listed_key_without_a_record() {
    let mut store = clients_store();
    store.client_states.remove("07-tendermint-0");
    let service = IbcClientService::new(Arc::new(store));
    assert_eq!(service.client_states().err(), Some(Status::Inconsistent(Fault::MissingRecord)));
}

#[test]
fn client_states_fail_where_the_store_fails() {
    let service =
        IbcClientService::new(Arc::new(MemoryStore { scan_fails: true, ..clients_store() }));
    assert_eq!(service.client_states().err(), Some(Status::Internal(BROKEN)));
    let service =
        IbcClientService::new(Arc::new(MemoryStore { reads_fail: true, ..clients_store() }));
    assert_eq!(service.client_states().err(), Some(Status::DataLoss(BROKEN)));
}

#[test]
fn consensus_states_lists_the_heights_of_the_keys() {
    let service = IbcClientService::new(Arc::new(clients_store()));
    let request = QueryConsensusStatesRequest { client_id: String::from("07-tendermint-1") };
    let response = service.consensus_states(&request).unwrap();
    assert_eq!(
        response.consensus_states,
        vec![
            ConsensusStateWithHeight {
                height: Some(Height { revision_number: 0, revision_height: 12 }),
                consensus_state: consensus_state()
            },
            ConsensusStateWithHeight {
                height: Some(Height { revision_number: 1, revision_height: 3 }),
                consensus_state: consensus_state()
            },
        ]
    );
    assert_eq!(response.pagination, None);
    assert_eq!(response.height, stamp(40));
}

#[test]
fn consensus_states_fail_on_a_listed_key_without_a_record() {
    let mut store = clients_store();
    store.consensus_states.remove(&(String::from("07-tendermint-1"), 1, 3));
    let service = IbcClientService::new(Arc::new(store));
    let request = QueryConsensusStatesRequest { client_id: String::from("07-tendermint-1") };
    assert_eq!(
        service.consensus_states(&request).err(),
        Some(Status::Inconsistent(Fault::MissingRecord))
    );
}

#[test]
fn consensus_states_reject_an_identifier_that_makes_no_path() {
    let service = IbcClientService::new(Arc::new(clients_store()));
    let request = QueryConsensusStatesRequest { client_id: String::from("") };
    assert_eq!(
        service.consensus_states(&request).err(),
        Some(Status::InvalidArgument(BadArgument::Path(ServerError::ValidateIdentifier(
            ValidationError::Empty
        ))))
    );
    let request = QueryConsensusStatesRequest { client_id: String::from("a b") };
    assert_eq!(
        service.consensus_states(&request).err(),
        Some(Status::InvalidArgument(BadArgument::Path(ServerError::ValidateIdentifier(
            ValidationError::InvalidCharacter
        ))))
    );
}

#[test]
fn consensus_states_fail_on_a_listed_key_of_another_shape() {
    let mut store = clients_store();
    store.keys.push("clients/07-tendermint-1/consensusStatesX/0-1");
    let service = IbcClientService::new(Arc::new(store));
    let request = QueryConsensusStatesRequest { client_id: String::from("07-tendermint-1") };
    assert_eq!(
        service.consensus_states(&request).err(),
        Some(Status::Inconsistent(Fault::UnexpectedPath))
    );
}

#[test]
fn consensus_states_fail_where_the_store_fails() {
    let request = QueryConsensusStatesRequest { client_id: String::from("07-tendermint-1") };
    let service =
        IbcClientService::new(Arc::new(MemoryStore { scan_fails: true, ..clients_store() }));
    assert_eq!(service.consensus_states(&request).err(), Some(Status::Internal(BROKEN)));
    let service =
        IbcClientService::new(Arc::new(MemoryStore { reads_fail: true, ..clients_store() }));
    assert_eq!(service.consensus_states(&request).err(), Some(Status::DataLoss(BROKEN)));
}

#[test]
fn queries_without_a_handler_are_not_supported() {
    let store = Arc::new(MemoryStore::default());
    let clients = IbcClientService::new(Arc::clone(&store));
    assert_eq!(clients.client_state(), Err(Status::Unimplemented));
    assert_eq!(clients.consensus_state(), Err(Status::Unimplemented));
    assert_eq!(clients.consensus_state_heights(), Err(Status::Unimplemented));
    assert_eq!(clients.client_status(), Err(Status::Unimplemented));
    assert_eq!(clients.client_params(), Err(Status::Unimplemented));
    assert_eq!(clients.upgraded_client_state(), Err(Status::Unimplemented));
    assert_eq!(clients.upgraded_consensus_state(), Err(Status::Unimplemented));
    let connections = IbcConnectionService::new(Arc::clone(&store));
    assert_eq!(connections.connection_client_state(), Err(Status::Unimplemented));
    assert_eq!(connections.connection_consensus_state(), Err(Status::Unimplemented));
    let channels = IbcChannelService::new(store);
    assert_eq!(channels.channel_client_state(), Err(Status::Unimplemented));
    assert_eq!(channels.channel_consensus_state(), Err(Status::Unimplemented));
    assert_eq!(channels.packet_commitment(), Err(Status::Unimplemented));
    assert_eq!(channels.packet_receipt(), Err(Status::Unimplemented));
    assert_eq!(channels.packet_acknowledgement(), Err(Status::Unimplemented));
    assert_eq!(channels.next_sequence_receive(), Err(Status::Unimplemented));
}
