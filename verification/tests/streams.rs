use bytes::Bytes;
use postgres_replication::error::ParseError;
use postgres_replication::protocol::LogicalReplicationMessage;

fn parse(
    input: &[u8],
    protocol_version: u8,
    streamed: &mut bool,
) -> Result<LogicalReplicationMessage, ParseError> {
    LogicalReplicationMessage::parse(&Bytes::copy_from_slice(input), protocol_version, streamed)
}

fn stream_start() -> Vec<u8> {
    vec![b'S', 0, 0, 2, 0xbc, 1]
}

fn stream_commit() -> Vec<u8> {
    let mut input = vec![b'c', 0, 0, 2, 0xbc, 0xfe];
    input.extend_from_slice(&21u64.to_be_bytes());
    input.extend_from_slice(&22u64.to_be_bytes());
    input.extend_from_slice(&23i64.to_be_bytes());
    input
}

fn stream_abort() -> Vec<u8> {
    vec![b'A', 0, 0, 2, 0xbc, 0, 0, 2, 0xbd]
}

fn insert_of(xid: Option<u32>) -> Vec<u8> {
    let mut input = vec![b'I'];
    if let Some(xid) = xid {
        input.extend_from_slice(&xid.to_be_bytes());
    }
    input.extend_from_slice(&[0, 0, 0, 9, b'N', 0, 0]);
    input
}

#[test]
fn stream_start_opens_a_streamed_transaction() {
    for before in [false, true] {
        let mut streamed = before;
        match parse(&stream_start(), 2, &mut streamed) {
            Ok(LogicalReplicationMessage::StreamStart(body)) => {
                assert_eq!(body.xid(), 700);
                assert_eq!(body.is_first_segment(), 1);
            }
            other => panic!("{:?}", other),
        }
        assert!(streamed);
    }
}

#[test]
fn stream_stop_closes_it() {
    for before in [false, true] {
        let mut streamed = before;
        let message = parse(b"E", 2, &mut streamed);
        assert!(matches!(message, Ok(LogicalReplicationMessage::StreamStop(_))));
        assert!(!streamed);
    }
}

#[test]
fn stream_commit_closes_it() {
    let mut streamed = true;
    match parse(&stream_commit(), 2, &mut streamed) {
        Ok(LogicalReplicationMessage::StreamCommit(body)) => {
            assert_eq!(body.xid(), 700);
            assert_eq!(body.flags(), -2);
            assert_eq!(body.commit_lsn(), 21);
            assert_eq!(body.end_lsn(), 22);
            assert_eq!(body.timestamp(), 23);
        }
        other => panic!("{:?}", other),
    }
    assert!(!streamed);
}

#[test]
fn stream_abort_closes_it() {
    let mut streamed = true;
    match parse(&stream_abort(), 2, &mut streamed) {
        Ok(LogicalReplicationMessage::StreamAbort(body)) => {
            assert_eq!(body.xid(), 700);
            assert_eq!(body.subxid(), 701);
        }
        other => panic!("{:?}", other),
    }
    assert!(!streamed);
}

#[test]
fn stream_messages_are_unknown_in_version_1() {
    for (input, tag) in
        [(stream_start(), b'S'), (vec![b'E'], b'E'), (stream_commit(), b'c'), (stream_abort(), b'A')]
    {
        for version in [0, 1] {
            for before in [false, true] {
                let mut streamed = before;
                let error = parse(&input, version, &mut streamed).unwrap_err();
                assert_eq!(error, ParseError::UnknownMessageTag(tag));
                assert_eq!(streamed, before);
            }
        }
    }
}

#[test]
fn later_versions_are_read_like_version_2() {
    for version in [2, 3, 4, 255] {
        let mut streamed = false;
        assert!(parse(&stream_start(), version, &mut streamed).is_ok());
        assert!(streamed);
        assert!(parse(&stream_abort(), version, &mut streamed).is_ok());
        assert!(!streamed);
    }
}

#[test]
fn tag_alone_decides_on_the_stream() {
    let mut streamed = false;
    assert_eq!(parse(b"S\0", 2, &mut streamed).unwrap_err(), ParseError::UnexpectedEof);
    assert!(streamed);
    assert_eq!(parse(b"c", 2, &mut streamed).unwrap_err(), ParseError::UnexpectedEof);
    assert!(!streamed);
    streamed = true;
    assert_eq!(parse(b"A\0", 2, &mut streamed).unwrap_err(), ParseError::UnexpectedEof);
    assert!(!streamed);
}

#[test]
fn other_messages_leave_the_stream_as_it_is() {
    let mut begin = vec![b'B'];
    begin.extend_from_slice(&[0; 20]);
    for before in [false, true] {
        let mut streamed = before;
        assert!(parse(&begin, 2, &mut streamed).is_ok());
        assert_eq!(streamed, before);
        assert_eq!(parse(b"", 2, &mut streamed).unwrap_err(), ParseError::UnexpectedEof);
        assert_eq!(streamed, before);
        let error = parse(b"?", 2, &mut streamed).unwrap_err();
        assert_eq!(error, ParseError::UnknownMessageTag(b'?'));
        assert_eq!(streamed, before);
    }
}

#[test]
fn whether_a_stream_is_open_does_not_change_other_messages() {
    let mut origin = vec![b'O'];
    origin.extend_from_slice(&5u64.to_be_bytes());
    origin.extend_from_slice(b"here\0");
    let mut open = true;
    let mut closed = false;
    assert_eq!(
        format!("{:?}", parse(&origin, 2, &mut open)),
        format!("{:?}", parse(&origin, 2, &mut closed))
    );
}

#[test]
fn changes_carry_the_xid_within_a_stream() {
    let mut streamed = false;
    parse(&stream_start(), 2, &mut streamed).unwrap();
    match parse(&insert_of(Some(700)), 2, &mut streamed) {
        Ok(LogicalReplicationMessage::Insert(body)) => {
            assert_eq!(body.xid(), Some(700));
            assert_eq!(body.rel_id(), 9);
        }
        other => panic!("{:?}", other),
    }
    parse(b"E", 2, &mut streamed).unwrap();
    match parse(&insert_of(None), 2, &mut streamed) {
        Ok(LogicalReplicationMessage::Insert(body)) => {
            assert_eq!(body.xid(), None);
            assert_eq!(body.rel_id(), 9);
        }
        other => panic!("{:?}", other),
    }
}

#[test]
fn every_kind_of_change_carries_the_xid() {
    let xid = [0, 0, 2, 0xbc];
    let rest: [(u8, &[u8]); 6] = [
        (b'R', &[0, 0, 0, 1, 0, 0, b'd', 0, 0]),
        (b'Y', &[0, 0, 0, 1, 0, 0]),
        (b'I', &[0, 0, 0, 1, b'N', 0, 0]),
        (b'U', &[0, 0, 0, 1, b'N', 0, 0]),
        (b'D', &[0, 0, 0, 1, b'K', 0, 0]),
        (b'T', &[0, 0, 0, 1, 2, 0, 0, 0, 8]),
    ];
    for (tag, body) in rest {
        let mut input = vec![tag];
        input.extend_from_slice(&xid);
        input.extend_from_slice(body);
        let mut streamed = true;
        let carried = match parse(&input, 2, &mut streamed).unwrap() {
            LogicalReplicationMessage::Relation(body) => body.xid(),
            LogicalReplicationMessage::Type(body) => body.xid(),
            LogicalReplicationMessage::Insert(body) => body.xid(),
            LogicalReplicationMessage::Update(body) => body.xid(),
            LogicalReplicationMessage::Delete(body) => body.xid(),
            LogicalReplicationMessage::Truncate(body) => body.xid(),
            other => panic!("{:?}", other),
        };
        assert_eq!(carried, Some(700));
        assert!(streamed);
        for at in 0..input.len() {
            assert_eq!(
                parse(&input[..at], 2, &mut streamed).unwrap_err(),
                ParseError::UnexpectedEof
            );
        }
    }
}

#[test]
fn last_stream_message_decides() {
    let mut streamed = false;
    let mut begin = vec![b'B'];
    begin.extend_from_slice(&[0; 20]);
    for input in [stream_start(), vec![b'E'], stream_start(), begin.clone(), begin.clone()] {
        parse(&input, 2, &mut streamed).unwrap();
    }
    assert!(streamed);
    for input in [stream_abort(), begin] {
        parse(&input, 2, &mut streamed).unwrap();
    }
    assert!(!streamed);
}

#[test]
fn stream_messages_cut_off_anywhere_are_refused() {
    for input in [stream_start(), stream_commit(), stream_abort()] {
        for at in 0..input.len() {
            let mut streamed = true;
            let error = parse(&input[..at], 2, &mut streamed).unwrap_err();
            assert_eq!(error, ParseError::UnexpectedEof);
        }
    }
}

#[test]
fn stream_flag_is_kept_where_a_count_is_negative() {
    let mut streamed = true;
    let input = Bytes::from_static(&[b'I', 0, 0, 2, 0xbc, 0, 0, 0, 1, b'N', 0xff, 0xff]);
    assert!(LogicalReplicationMessage::try_parse(&input, 2, &mut streamed).is_none());
    assert!(streamed);
}
