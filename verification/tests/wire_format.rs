use ica_controller::cwica::tx::{MsgRegisterInterchainAccount, MsgSendTx};
use ica_controller::gov::MsgVote;
use ica_controller::interchaintxs::tx::MsgSubmitTx;
use ica_controller::wire::Any;
use prost::Message;

#[test]
fn vote_fields_are_written_in_order() {
    let vote = MsgVote { proposal_id: 7, voter: "remoteXYZ".to_string(), option: 1 };
    let mut expected: Vec<u8> = vec![0x08, 7, 0x12, 9];
    expected.extend_from_slice(b"remoteXYZ");
    expected.extend_from_slice(&[0x18, 1]);
    assert_eq!(vote.encode_to_vec(), expected);
}

#[test]
fn vote_with_default_fields_is_empty() {
    let vote = MsgVote { proposal_id: 0, voter: String::new(), option: 0 };
    assert_eq!(vote.encode_to_vec(), Vec::<u8>::new());
}

#[test]
fn vote_proposal_above_one_byte_uses_continuation() {
    let vote = MsgVote { proposal_id: 300, voter: String::new(), option: 0 };
    assert_eq!(vote.encode_to_vec(), vec![0x08, 0xac, 0x02]);
    let vote = MsgVote { proposal_id: u64::MAX, voter: String::new(), option: 0 };
    assert_eq!(
        vote.encode_to_vec(),
        vec![0x08, 0xff, 0xff, 0xff, 0xff, 0xff, 0xff, 0xff, 0xff, 0xff, 0x01]
    );
}

#[test]
fn vote_negative_option_is_widened() {
    let vote = MsgVote { proposal_id: 0, voter: String::new(), option: -1 };
    assert_eq!(
        vote.encode_to_vec(),
        vec![0x18, 0xff, 0xff, 0xff, 0xff, 0xff, 0xff, 0xff, 0xff, 0xff, 0x01]
    );
    let vote = MsgVote { proposal_id: 0, voter: String::new(), option: i32::MIN };
    assert_eq!(
        vote.encode_to_vec(),
        vec![0x18, 0x80, 0x80, 0x80, 0x80, 0xf8, 0xff, 0xff, 0xff, 0xff, 0x01]
    );
}

#[test]
fn vote_voter_travels_as_utf8() {
    let vote = MsgVote { proposal_id: 0, voter: "é€".to_string(), option: 0 };
    assert_eq!(vote.encode_to_vec(), vec![0x12, 5, 0xc3, 0xa9, 0xe2, 0x82, 0xac]);
}

#[test]
fn vote_long_voter_has_two_length_bytes() {
    let voter = "a".repeat(200);
    let vote = MsgVote { proposal_id: 0, voter: voter.clone(), option: 0 };
    let mut expected: Vec<u8> = vec![0x12, 0xc8, 0x01];
    expected.extend_from_slice(voter.as_bytes());
    assert_eq!(vote.encode_to_vec(), expected);
}

#[test]
fn vote_is_wrapped_under_its_type_url() {
    let vote = MsgVote { proposal_id: 7, voter: "remoteXYZ".to_string(), option: 1 };
    let any = vote.to_any();
    assert_eq!(any.type_url, "/cosmos.gov.v1.MsgVote");
    assert_eq!(any.value, vote.encode_to_vec());
}

#[test]
fn register_request_skips_empty_fields() {
    let msg = MsgRegisterInterchainAccount {
        from_address: String::new(),
        connection_id: "c-1".to_string(),
    };
    let mut expected: Vec<u8> = vec![0x12, 3];
    expected.extend_from_slice(b"c-1");
    assert_eq!(msg.encode_to_vec(), expected);
}

#[test]
fn submission_embeds_each_message_in_order() {
    let first = Any { type_url: "/a".to_string(), value: vec![1, 2] };
    let second = Any { type_url: String::new(), value: Vec::new() };
    let third = Any { type_url: "/b".to_string(), value: Vec::new() };
    let tx = MsgSendTx {
        from_address: "me".to_string(),
        connection_id: String::new(),
        msgs: vec![first, second, third],
        memo: String::new(),
        timeout: 1,
    };
    let expected: Vec<u8> = vec![
        0x0a, 2, b'm', b'e', // sender
        0x1a, 8, 0x0a, 2, b'/', b'a', 0x12, 2, 1, 2, // first
        0x1a, 0, // second
        0x1a, 4, 0x0a, 2, b'/', b'b', // third
        0x28, 1, // deadline
    ];
    assert_eq!(tx.encode_to_vec(), expected);
}

#[test]
fn submission_without_messages_has_no_message_field() {
    let tx = MsgSendTx {
        from_address: String::new(),
        connection_id: String::new(),
        msgs: Vec::new(),
        memo: "m".to_string(),
        timeout: 0,
    };
    assert_eq!(tx.encode_to_vec(), vec![0x22, 1, b'm']);
}

#[test]
fn embedded_message_decodes_to_what_went_in() {
    let vote = MsgVote { proposal_id: 7, voter: "remoteXYZ".to_string(), option: 1 };
    let tx = MsgSubmitTx {
        from_address: String::new(),
        interchain_account_id: String::new(),
        connection_id: String::new(),
        msgs: vec![vote.to_any()],
        memo: String::new(),
        timeout: 0,
    };
    let bytes = tx.encode_to_vec();
    assert_eq!(bytes[0], 0x22);
    assert_eq!(bytes[1] as usize, bytes.len() - 2);
    let decoded = prost_types::Any::decode(&bytes[2..]).unwrap();
    assert_eq!(decoded.type_url, "/cosmos.gov.v1.MsgVote");
    assert_eq!(decoded.value, vote.encode_to_vec());
}

#[test]
fn custodian_submission_numbers_its_fields_one_to_six() {
    let tx = MsgSubmitTx {
        from_address: "a".to_string(),
        interchain_account_id: "b".to_string(),
        connection_id: "c".to_string(),
        msgs: vec![Any { type_url: "d".to_string(), value: vec![9] }],
        memo: "e".to_string(),
        timeout: 1209600,
    };
    let expected: Vec<u8> = vec![
        0x0a, 1, b'a', 0x12, 1, b'b', 0x1a, 1, b'c', 0x22, 6, 0x0a, 1, b'd', 0x12, 1, 9, 0x2a, 1,
        b'e', 0x30, 0x80, 0xea, 0x49,
    ];
    assert_eq!(tx.encode_to_vec(), expected);
}
