use consensus_overlord::brain::{new_status, Brain};
use consensus_overlord::config::ConsensusConfig;
use consensus_overlord::consensus::Consensus;
use consensus_overlord::crypto::ConsensusCrypto;
use consensus_overlord::endpoint::{
    is_registered, listen_address, local_service, port_text, register_info,
};
use consensus_overlord::error::ConsensusError;
use consensus_overlord::message::OverlordMsg;
use consensus_overlord::proposal::ConsensusProposal;
use consensus_overlord::server::ConsensusServer;
use consensus_overlord::types::{
    ConsensusConfiguration, ConsensusConfigurationResponse, Node, Proposal, ProposalResponse,
    ProposalWithProof, Status, StatusCode,
};
use consensus_overlord::util::sm3_hash;
use consensus_overlord::wal::ConsensusWal;

const KEY: &str = "2b7e151628aed2a6abf7158809cf4f3c762e7160f38b4da56a784d9045190cfe";
const OTHER_KEY: &str = "0000000000000000000000000000000000000000000000000000000000000001";

fn name(key: &str) -> Vec<u8> {
    ConsensusCrypto::try_new(key).unwrap().name().to_vec()
}

fn brain() -> Brain {
    Brain::new(ConsensusCrypto::try_new(KEY).unwrap())
}

fn consensus() -> Consensus {
    Consensus::try_new(ConsensusConfig::default(), ConsensusWal::new(), KEY).unwrap()
}

fn configuration(height: u64, validators: Vec<Vec<u8>>) -> ConsensusConfiguration {
    ConsensusConfiguration { height, block_interval: 3, validators }
}

fn granting(code: u32, config: ConsensusConfiguration) -> Option<ConsensusConfigurationResponse> {
    Some(ConsensusConfigurationResponse {
        status: Some(StatusCode { code }),
        config: Some(config),
    })
}

fn addresses(nodes: &[Node]) -> Vec<Vec<u8>> {
    nodes.iter().map(|node| node.address.clone()).collect()
}

fn rich_status(message: Option<OverlordMsg>) -> Status {
    match message {
        Some(OverlordMsg::RichStatus(status)) => status,
        _ => panic!("the engine was not told of a status"),
    }
}

fn text<T>(res: Result<T, ConsensusError>) -> String {
    match res {
        Err(ConsensusError::Other(text)) => text,
        _ => "no text".to_string(),
    }
}

#[test]
fn default_settings() {
    let config = ConsensusConfig::default();
    assert_eq!(config.network_port, 50000);
    assert_eq!(config.consensus_port, 50001);
    assert_eq!(config.controller_port, 50004);
    assert_eq!(config.server_retry_interval, 1);
    assert_eq!(config.wal_path, "overlord_wal");
    assert!(config.enable_metrics);
    assert_eq!(config.metrics_port, 60001);
}

#[test]
fn service_starts_without_a_configuration() {
    let consensus = consensus();
    assert!(consensus.reconfigure.is_none());
    assert!(consensus.start().is_none());
    assert!(consensus.brain.get_nodes().is_empty());
    assert_eq!(consensus.brain.crypto().name(), name(KEY));
    assert_eq!(consensus.wal.next_count(), 1);
    assert!(Consensus::try_new(ConsensusConfig::default(), ConsensusWal::new(), "no key").is_none());
    let same = Consensus::new(ConsensusConfig::default(), ConsensusWal::new(), KEY);
    assert_eq!(same.brain.crypto().name(), name(KEY));
}

#[test]
fn first_configuration_takes_effect() {
    let mut consensus = consensus();
    let validators = vec![name(KEY), name(OTHER_KEY)];
    let message = consensus.proc_reconfigure(configuration(5, validators.clone()));
    let status = rich_status(message);
    assert_eq!(status.height, 6);
    assert_eq!(status.interval, Some(3000));
    assert_eq!(status.timer_config.unwrap().propose_ratio, 15);
    assert_eq!(addresses(&status.authority_list), validators);
    assert_eq!(addresses(&consensus.brain.get_nodes()), validators);
    assert_eq!(consensus.reconfigure.as_ref().unwrap().height, 5);
    assert_eq!(consensus.brain.crypto().name(), name(KEY));

    let start = consensus.start().unwrap();
    assert_eq!(start.height, 5);
    assert_eq!(start.interval, Some(3000));
    assert_eq!(addresses(&start.authority_list), validators);
}

#[test]
fn only_newer_configurations_take_effect() {
    let mut consensus = consensus();
    let first = vec![name(KEY)];
    let second = vec![name(OTHER_KEY)];
    assert!(consensus.proc_reconfigure(configuration(5, first.clone())).is_some());
    assert!(consensus.proc_reconfigure(configuration(5, second.clone())).is_none());
    assert!(consensus.proc_reconfigure(configuration(4, second.clone())).is_none());
    assert_eq!(addresses(&consensus.brain.get_nodes()), first);
    assert!(consensus.proc_reconfigure(configuration(6, second.clone())).is_some());
    assert_eq!(addresses(&consensus.brain.get_nodes()), second);
    assert_eq!(consensus.reconfigure.as_ref().unwrap().height, 6);
}

#[test]
fn configuration_of_height_zero_is_always_superseded() {
    let mut consensus = consensus();
    let first = vec![name(KEY)];
    let second = vec![name(OTHER_KEY)];
    assert!(consensus.proc_reconfigure(configuration(0, first)).is_some());
    assert!(consensus.proc_reconfigure(configuration(0, second.clone())).is_some());
    assert_eq!(addresses(&consensus.brain.get_nodes()), second);
}

#[test]
fn configurations_commute() {
    let older = || configuration(5, vec![name(KEY)]);
    let newer = || configuration(7, vec![name(OTHER_KEY), name(KEY)]);
    let mut one = consensus();
    one.proc_reconfigure(older());
    one.proc_reconfigure(newer());
    let mut two = consensus();
    two.proc_reconfigure(newer());
    two.proc_reconfigure(older());
    for consensus in [one, two] {
        assert_eq!(consensus.reconfigure.as_ref().unwrap().height, 7);
        assert_eq!(addresses(&consensus.brain.get_nodes()), vec![name(OTHER_KEY), name(KEY)]);
    }
}

#[test]
fn unusable_configuration_is_handed_back() {
    let mut server = ConsensusServer::new(consensus());
    let good = vec![name(KEY)];
    let mut long = configuration(1, good.clone());
    long.block_interval = u32::MAX / 1000 + 1;
    for bad in [
        configuration(1, vec![vec![1, 2, 3]]),
        configuration(1, vec![name(KEY), vec![]]),
        configuration(u64::MAX, good.clone()),
        long,
    ] {
        let height = bad.height;
        assert!(matches!(server.try_reconfigure(bad), Err(same) if same.height == height));
        assert!(server.consensus().reconfigure.is_none());
        assert!(server.consensus().brain.get_nodes().is_empty());
    }
    let mut longest = configuration(u64::MAX - 1, good);
    longest.block_interval = u32::MAX / 1000;
    let (reply, message) = server.try_reconfigure(longest).ok().unwrap();
    assert_eq!(reply.code, 0);
    let status = rich_status(message);
    assert_eq!(status.height, u64::MAX);
    assert_eq!(status.interval, Some(4294967000));

    // A configuration that takes no effect is not looked at.
    let (reply, message) = server.try_reconfigure(configuration(1, vec![vec![1]])).ok().unwrap();
    assert_eq!(reply.code, 0);
    assert!(message.is_none());
}

#[test]
fn server_answers_a_configuration() {
    let mut server = ConsensusServer::new(consensus());
    let (reply, message) = server.reconfigure(configuration(1, vec![name(KEY)]));
    assert_eq!(reply.code, 0);
    assert_eq!(rich_status(message).height, 2);
    let (reply, message) = server.reconfigure(configuration(1, vec![name(KEY)]));
    assert_eq!(reply.code, 0);
    assert!(message.is_none());
    server.consensus_mut().brain.set_nodes(vec![]);
    assert!(server.consensus().brain.get_nodes().is_empty());
}

#[test]
fn ping_asks_for_a_configuration() {
    let ProposalWithProof { proposal, proof } = consensus().ping_request();
    let proposal = proposal.unwrap();
    assert_eq!(proposal.height, u64::MAX);
    assert!(proposal.data.is_empty());
    assert!(proof.is_empty());
}

#[test]
fn ping_takes_over_what_is_granted() {
    let validators = vec![name(KEY)];
    let mut consensus = consensus();
    let nothing = |code: u32| {
        Some(ConsensusConfigurationResponse { status: Some(StatusCode { code }), config: None })
    };
    let no_status = Some(ConsensusConfigurationResponse {
        status: None,
        config: Some(configuration(1, validators.clone())),
    });
    for reply in [None, nothing(0), no_status, granting(1, configuration(1, validators.clone()))] {
        assert!(consensus.ping_controller(reply).is_none());
        assert!(consensus.reconfigure.is_none());
    }
    let message = consensus.ping_controller(granting(0, configuration(1, validators.clone())));
    assert_eq!(rich_status(message).height, 2);
    assert_eq!(consensus.start().unwrap().height, 1);
    assert!(consensus.ping_controller(granting(0, configuration(1, validators))).is_none());
}

#[test]
fn ping_hands_back_what_cannot_be_used() {
    let mut consensus = consensus();
    let reply = granting(0, configuration(1, vec![vec![1]]));
    assert!(matches!(consensus.try_ping_controller(reply), Err(Some(_))));
    assert!(consensus.reconfigure.is_none());
    let reply = granting(3, configuration(1, vec![vec![1]]));
    assert!(matches!(consensus.try_ping_controller(reply), Ok(None)));
    assert!(matches!(consensus.try_ping_controller(None), Ok(None)));
    let reply = granting(0, configuration(1, vec![name(KEY)]));
    assert!(matches!(consensus.try_ping_controller(reply), Ok(Some(_))));
}

#[test]
fn engine_is_started_with_milliseconds() {
    let status = consensus().run(7, 5, vec![]);
    assert_eq!(status.height, 7);
    assert_eq!(status.interval, Some(5000));
    assert!(status.authority_list.is_empty());
    assert_eq!(status.timer_config.unwrap().brake_ratio, 7);
    let told = new_status(&configuration(7, vec![vec![1]]));
    assert_eq!(told.height, 8);
    assert_eq!(told.interval, Some(3000));
}

#[test]
fn block_from_a_reply() {
    let reply = |height: u64| {
        Some(ProposalResponse {
            status: Some(StatusCode { code: 0 }),
            proposal: Some(Proposal { height, data: b"abc".to_vec() }),
        })
    };
    let (block, hash) = brain().get_block(4, reply(4)).ok().unwrap();
    assert_eq!(block.data(), b"abc");
    assert_eq!(hash, sm3_hash(b"abc").to_vec());
    assert_eq!(text(brain().get_block(5, reply(4))), "get block failed");
    assert_eq!(text(brain().get_block(5, None)), "get block failed");
    let empty = ProposalResponse { status: Some(StatusCode { code: 107 }), proposal: None };
    assert_eq!(text(brain().get_block(5, Some(empty))), "get block failed");
    // The status does not decide.
    let odd = ProposalResponse {
        status: Some(StatusCode { code: 107 }),
        proposal: Some(Proposal { height: 4, data: vec![] }),
    };
    assert!(brain().get_block(4, Some(odd)).is_ok());
}

#[test]
fn check_of_a_proposed_block() {
    let speech = ConsensusProposal::decode(b"abc".to_vec()).unwrap();
    let request = brain().check_block_request(4, &speech);
    assert_eq!(request.height, 4);
    assert_eq!(request.data, b"abc".to_vec());
    assert!(brain().check_block(Some(StatusCode { code: 0 })).is_ok());
    for reply in [None, Some(StatusCode { code: 1 }), Some(StatusCode { code: u32::MAX })] {
        assert_eq!(text(brain().check_block(reply)), "check_proposal failed");
    }
}

#[test]
fn commit_takes_over_what_is_granted() {
    let validators = vec![name(OTHER_KEY), name(KEY)];
    let mut brain = brain();
    let status = brain.commit(granting(0, configuration(9, validators.clone()))).unwrap();
    assert_eq!(status.height, 10);
    assert_eq!(status.interval, Some(3000));
    assert_eq!(addresses(&status.authority_list), validators);
    assert_eq!(addresses(&brain.get_nodes()), validators);
    assert_eq!(addresses(&brain.get_authority_list(77).unwrap()), validators);
    assert_eq!(brain.crypto().name(), name(KEY));
}

#[test]
fn commit_and_status_update_agree() {
    let validators = vec![name(OTHER_KEY), name(KEY)];
    let mut brain = brain();
    let committed = brain.commit(granting(0, configuration(9, validators.clone()))).unwrap();
    let mut consensus = consensus();
    let message = consensus.update_status(&configuration(9, validators.clone()));
    let told = rich_status(Some(message));
    assert_eq!(told.height, committed.height);
    assert_eq!(told.interval, committed.interval);
    assert_eq!(told.timer_config, committed.timer_config);
    assert_eq!(addresses(&told.authority_list), addresses(&committed.authority_list));
    assert_eq!(addresses(&consensus.brain.get_nodes()), addresses(&brain.get_nodes()));
    assert!(consensus.reconfigure.is_none());
}

#[test]
fn refused_commit_changes_nothing() {
    let mut brain = brain();
    brain.commit(granting(0, configuration(9, vec![name(KEY)]))).unwrap();
    let no_config =
        Some(ConsensusConfigurationResponse { status: Some(StatusCode { code: 0 }), config: None });
    let no_status = Some(ConsensusConfigurationResponse {
        status: None,
        config: Some(configuration(10, vec![])),
    });
    for reply in [None, no_config, no_status, granting(130, configuration(10, vec![]))] {
        assert_eq!(text(brain.commit(reply)), "commit block failed");
        assert_eq!(addresses(&brain.get_nodes()), vec![name(KEY)]);
    }
}

#[test]
fn commit_with_a_bad_key_moves_the_list_on() {
    let mut brain = brain();
    let validators = vec![name(KEY), vec![1, 2]];
    let reply = granting(0, configuration(9, validators.clone()));
    assert_eq!(text(brain.commit(reply)), "lose public key");
    assert_eq!(addresses(&brain.get_nodes()), validators);
}

#[test]
fn commit_out_of_range_is_not_made() {
    let mut brain = brain();
    let reply = granting(0, configuration(u64::MAX, vec![name(KEY)]));
    assert!(brain.try_commit(reply).is_none());
    let mut long = configuration(1, vec![name(KEY)]);
    long.block_interval = u32::MAX;
    assert!(brain.try_commit(granting(0, long)).is_none());
    assert!(brain.get_nodes().is_empty());
    let mut bad = configuration(1, vec![vec![1]]);
    bad.block_interval = u32::MAX;
    assert_eq!(text(brain.try_commit(granting(0, bad)).unwrap()), "lose public key");
    let refused = granting(1, configuration(u64::MAX, vec![]));
    assert_eq!(text(brain.try_commit(refused).unwrap()), "commit block failed");
    assert_eq!(text(brain.try_commit(None).unwrap()), "commit block failed");
    let good = granting(0, configuration(1, vec![name(KEY)]));
    assert_eq!(brain.try_commit(good).unwrap().unwrap().height, 2);
}

#[test]
fn content_goes_through_unchanged() {
    for data in [vec![], vec![1, 2, 3]] {
        let content = ConsensusProposal::decode(data.clone()).unwrap();
        assert_eq!(content.encode().unwrap(), data);
        assert!(content == ConsensusProposal::decode(data).unwrap());
        assert!(content != ConsensusProposal::decode(vec![9]).unwrap());
    }
}

#[test]
fn log_numbers_count_written_records() {
    let mut wal = ConsensusWal::new();
    assert_eq!(wal.next_count(), 1);
    assert!(wal.save(true).is_ok());
    assert_eq!(wal.next_count(), 2);
    assert!(matches!(wal.save(false), Err(ConsensusError::WALErr)));
    assert_eq!(wal.next_count(), 2);
    assert!(wal.save(true).is_ok());
    assert_eq!(wal.next_count(), 3);
}

#[test]
fn log_numbers_go_on_after_a_restart() {
    let mut wal = ConsensusWal::starting_at(41);
    assert_eq!(wal.next_count(), 42);
    assert!(wal.save(true).is_ok());
    assert_eq!(wal.next_count(), 43);
    assert_eq!(ConsensusWal::starting_at(u64::MAX).next_count(), 0);
    let restarted =
        Consensus::try_new(ConsensusConfig::default(), ConsensusWal::starting_at(7), KEY).unwrap();
    assert_eq!(restarted.wal.next_count(), 8);
}

#[test]
fn first_record_is_loaded() {
    let wal = ConsensusWal::new();
    assert_eq!(text(wal.load(&vec![])), "failed to load wal");
    let records = vec![(0, vec![1, 2]), (0, vec![3])];
    assert_eq!(wal.load(&records).unwrap(), Some(vec![1, 2]));
    assert_eq!(wal.load(&vec![(7, vec![])]).unwrap(), Some(vec![]));
}

#[test]
fn ports_in_decimal() {
    for port in [0, 9, 10, 99, 100, 12345, 50001, u16::MAX] {
        assert_eq!(port_text(port), port.to_string());
    }
    assert_eq!(listen_address(50001), "[::]:50001");
    assert_eq!(local_service(50000), "http://127.0.0.1:50000");
}

#[test]
fn registration() {
    let info = register_info(50001);
    assert_eq!(info.module_name, "consensus");
    assert_eq!(info.hostname, "localhost");
    assert_eq!(info.port, "50001");
    assert!(is_registered(Some(StatusCode { code: 0 })));
    assert!(!is_registered(Some(StatusCode { code: 200 })));
    assert!(!is_registered(None));
}
