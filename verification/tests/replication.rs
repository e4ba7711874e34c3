use bytes::Bytes;
use postgres_replication::error::{ErrorKind, ParseError};
use postgres_replication::protocol::{
    ReplicationMessage, XLogDataBody, PRIMARY_KEEPALIVE_TAG, XLOG_DATA_TAG,
};

fn xlog_data(data: &[u8]) -> Vec<u8> {
    let mut input = vec![b'w'];
    input.extend_from_slice(&0x0102_0304_0506_0708u64.to_be_bytes());
    input.extend_from_slice(&u64::MAX.to_be_bytes());
    input.extend_from_slice(&(-5i64).to_be_bytes());
    input.extend_from_slice(data);
    input
}

fn keep_alive() -> Vec<u8> {
    let mut input = vec![b'k'];
    input.extend_from_slice(&0x0102_0304_0506_0708u64.to_be_bytes());
    input.extend_from_slice(&i64::MIN.to_be_bytes());
    input.push(1);
    input
}

fn parsed_body(input: Vec<u8>) -> XLogDataBody<Bytes> {
    match ReplicationMessage::parse(&Bytes::from(input)) {
        Ok(ReplicationMessage::XLogData(body)) => body,
        other => panic!("{:?}", other),
    }
}

#[test]
fn tags_are_their_letters() {
    assert_eq!(XLOG_DATA_TAG, b'w');
    assert_eq!(PRIMARY_KEEPALIVE_TAG, b'k');
}

#[test]
fn xlog_data_takes_all_that_follows() {
    let body = parsed_body(xlog_data(b"some\0data"));
    assert_eq!(body.wal_start(), 0x0102_0304_0506_0708);
    assert_eq!(body.wal_end(), u64::MAX);
    assert_eq!(body.timestamp(), -5);
    assert_eq!(&body.data()[..], b"some\0data");
    assert_eq!(&body.into_data()[..], b"some\0data");
}

#[test]
fn xlog_data_can_be_empty() {
    assert!(parsed_body(xlog_data(b"")).data().is_empty());
}

#[test]
fn more_bytes_are_more_data() {
    let mut input = xlog_data(b"some");
    input.extend_from_slice(b" more");
    assert_eq!(&parsed_body(input).data()[..], b"some more");
}

#[test]
fn map_data_replaces_the_data_alone() {
    let body = parsed_body(xlog_data(b"abc"));
    let mapped = body.map_data(|data: Bytes| Ok::<usize, ()>(data.len())).unwrap();
    assert_eq!(mapped.wal_start(), 0x0102_0304_0506_0708);
    assert_eq!(mapped.wal_end(), u64::MAX);
    assert_eq!(mapped.timestamp(), -5);
    assert_eq!(*mapped.data(), 3);
}

#[test]
fn map_data_hands_on_the_error() {
    let body = parsed_body(xlog_data(b"abc"));
    let error = body.map_data(|data: Bytes| Err::<(), String>(format!("{} bytes", data.len())));
    assert_eq!(error.unwrap_err(), "3 bytes");
}

#[test]
fn keep_alive_is_read_and_the_rest_passed_over() {
    let mut input = keep_alive();
    input.extend_from_slice(b"ignored");
    match ReplicationMessage::parse(&Bytes::from(input)) {
        Ok(ReplicationMessage::PrimaryKeepAlive(body)) => {
            assert_eq!(body.wal_end(), 0x0102_0304_0506_0708);
            assert_eq!(body.timestamp(), i64::MIN);
            assert_eq!(body.reply(), 1);
        }
        other => panic!("{:?}", other),
    }
}

#[test]
fn keep_alive_cut_off_anywhere_is_refused() {
    let input = keep_alive();
    assert_eq!(input.len(), 18);
    for at in 0..input.len() {
        let error = ReplicationMessage::parse(&Bytes::copy_from_slice(&input[..at])).unwrap_err();
        assert_eq!(error, ParseError::UnexpectedEof);
        assert_eq!(error.kind(), ErrorKind::UnexpectedEof);
        assert_eq!(error.message(), "unexpected EOF");
    }
}

#[test]
fn xlog_data_cut_off_within_its_numbers_is_refused() {
    let input = xlog_data(b"data");
    for at in 0..25 {
        let error = ReplicationMessage::parse(&Bytes::copy_from_slice(&input[..at])).unwrap_err();
        assert_eq!(error, ParseError::UnexpectedEof);
    }
    assert_eq!(&parsed_body(input[..27].to_vec()).data()[..], b"da");
}

#[test]
fn unknown_replication_tag_is_named_in_decimal() {
    let error = ReplicationMessage::parse(&Bytes::from_static(b"x")).unwrap_err();
    assert_eq!(error, ParseError::UnknownMessageTag(b'x'));
    assert_eq!(error.kind(), ErrorKind::InvalidInput);
    assert_eq!(error.message(), "unknown replication message tag `120`");
    let error = ReplicationMessage::parse(&Bytes::from_static(&[7])).unwrap_err();
    assert_eq!(error.message(), "unknown replication message tag `7`");
    let error = ReplicationMessage::parse(&Bytes::from_static(&[40])).unwrap_err();
    assert_eq!(error.message(), "unknown replication message tag `40`");
    let error = ReplicationMessage::parse(&Bytes::from_static(&[0])).unwrap_err();
    assert_eq!(error.message(), "unknown replication message tag `0`");
    let error = ReplicationMessage::parse(&Bytes::from_static(&[205])).unwrap_err();
    assert_eq!(error.message(), "unknown replication message tag `205`");
}

#[test]
fn input_stays_as_it_was() {
    let input = Bytes::from(xlog_data(b"data"));
    let copy = input.clone();
    let body = match ReplicationMessage::parse(&input) {
        Ok(ReplicationMessage::XLogData(body)) => body,
        other => panic!("{:?}", other),
    };
    assert_eq!(input, copy);
    assert_eq!(body.into_data(), input.slice(25..));
}
