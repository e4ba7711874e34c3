use bytes::Bytes;
use postgres_replication::error::{ErrorKind, ParseError};
use postgres_replication::protocol::{
    LogicalReplicationMessage, ReplicaIdentity, Tuple, TupleData,
};

fn parse(input: &[u8]) -> Result<LogicalReplicationMessage, ParseError> {
    let mut streamed = false;
    let result =
        LogicalReplicationMessage::parse(&Bytes::copy_from_slice(input), 1, &mut streamed);
    assert!(!streamed);
    result
}

fn begin() -> Vec<u8> {
    let mut input = vec![b'B'];
    input.extend_from_slice(&0x8000_0000_0000_0001u64.to_be_bytes());
    input.extend_from_slice(&(-2i64).to_be_bytes());
    input.extend_from_slice(&0xfedc_ba98u32.to_be_bytes());
    input
}

fn commit() -> Vec<u8> {
    let mut input = vec![b'C', 0xff];
    input.extend_from_slice(&11u64.to_be_bytes());
    input.extend_from_slice(&12u64.to_be_bytes());
    input.extend_from_slice(&i64::MAX.to_be_bytes());
    input
}

fn origin() -> Vec<u8> {
    let mut input = vec![b'O'];
    input.extend_from_slice(&13u64.to_be_bytes());
    input.extend_from_slice(b"upstream\0");
    input
}

fn relation() -> Vec<u8> {
    let mut input = vec![b'R'];
    input.extend_from_slice(&16384u32.to_be_bytes());
    input.extend_from_slice(b"public\0users\0f");
    input.extend_from_slice(&2i16.to_be_bytes());
    input.push(1);
    input.extend_from_slice(b"id\0");
    input.extend_from_slice(&23i32.to_be_bytes());
    input.extend_from_slice(&(-1i32).to_be_bytes());
    input.push(0);
    input.extend_from_slice(b"name\0");
    input.extend_from_slice(&1043i32.to_be_bytes());
    input.extend_from_slice(&104i32.to_be_bytes());
    input
}

fn type_info() -> Vec<u8> {
    let mut input = vec![b'Y'];
    input.extend_from_slice(&0xffff_fffeu32.to_be_bytes());
    input.extend_from_slice(b"\0mood\0");
    input
}

fn null_row() -> Vec<u8> {
    vec![0, 1, b'n']
}

fn mixed_row() -> Vec<u8> {
    let mut row = vec![0, 3, b'n', b'u', b't'];
    row.extend_from_slice(&4i32.to_be_bytes());
    row.extend_from_slice(b"a\0\xffb");
    row
}

fn insert() -> Vec<u8> {
    let mut input = vec![b'I'];
    input.extend_from_slice(&16384u32.to_be_bytes());
    input.push(b'N');
    input.extend_from_slice(&mixed_row());
    input
}

fn update(previous: Option<u8>) -> Vec<u8> {
    let mut input = vec![b'U'];
    input.extend_from_slice(&16384u32.to_be_bytes());
    if let Some(tag) = previous {
        input.push(tag);
        input.extend_from_slice(&null_row());
    }
    input.push(b'N');
    input.extend_from_slice(&mixed_row());
    input
}

fn delete(tag: u8) -> Vec<u8> {
    let mut input = vec![b'D'];
    input.extend_from_slice(&16384u32.to_be_bytes());
    input.push(tag);
    input.extend_from_slice(&null_row());
    input
}

fn truncate() -> Vec<u8> {
    let mut input = vec![b'T'];
    input.extend_from_slice(&3i32.to_be_bytes());
    input.push(0x83);
    for rel_id in [1u32, 0xffff_ffff, 16384] {
        input.extend_from_slice(&rel_id.to_be_bytes());
    }
    input
}

fn assert_null_row(tuple: &Tuple) {
    assert_eq!(tuple.tuple_data().len(), 1);
    assert!(matches!(tuple.tuple_data()[0], TupleData::Null));
}

fn assert_mixed_row(tuple: &Tuple) {
    match tuple.tuple_data() {
        [TupleData::Null, TupleData::UnchangedToast, TupleData::Text(text)] => {
            assert_eq!(&text[..], b"a\0\xffb")
        }
        other => panic!("{:?}", other),
    }
}

#[test]
fn begin_is_read() {
    match parse(&begin()) {
        Ok(LogicalReplicationMessage::Begin(body)) => {
            assert_eq!(body.final_lsn(), 0x8000_0000_0000_0001);
            assert_eq!(body.timestamp(), -2);
            assert_eq!(body.xid(), 0xfedc_ba98);
        }
        other => panic!("{:?}", other),
    }
}

#[test]
fn commit_is_read() {
    match parse(&commit()) {
        Ok(LogicalReplicationMessage::Commit(body)) => {
            assert_eq!(body.flags(), -1);
            assert_eq!(body.commit_lsn(), 11);
            assert_eq!(body.end_lsn(), 12);
            assert_eq!(body.timestamp(), i64::MAX);
        }
        other => panic!("{:?}", other),
    }
}

#[test]
fn origin_is_read() {
    match parse(&origin()) {
        Ok(LogicalReplicationMessage::Origin(body)) => {
            assert_eq!(body.commit_lsn(), 13);
            assert_eq!(body.name(), Ok("upstream"));
        }
        other => panic!("{:?}", other),
    }
}

#[test]
fn relation_is_read() {
    match parse(&relation()) {
        Ok(LogicalReplicationMessage::Relation(body)) => {
            assert_eq!(body.xid(), None);
            assert_eq!(body.rel_id(), 16384);
            assert_eq!(body.namespace(), Ok("public"));
            assert_eq!(body.name(), Ok("users"));
            assert!(matches!(body.replica_identity(), ReplicaIdentity::Full));
            let columns = body.columns();
            assert_eq!(columns.len(), 2);
            assert_eq!(columns[0].flags(), 1);
            assert_eq!(columns[0].name(), Ok("id"));
            assert_eq!(columns[0].type_id(), 23);
            assert_eq!(columns[0].type_modifier(), -1);
            assert_eq!(columns[1].flags(), 0);
            assert_eq!(columns[1].name(), Ok("name"));
            assert_eq!(columns[1].type_id(), 1043);
            assert_eq!(columns[1].type_modifier(), 104);
        }
        other => panic!("{:?}", other),
    }
}

#[test]
fn replica_identities_have_their_tags() {
    for (tag, name) in [(b'd', "Default"), (b'n', "Nothing"), (b'f', "Full"), (b'i', "Index")] {
        let mut input = vec![b'R', 0, 0, 0, 1, 0, 0, tag];
        input.extend_from_slice(&0i16.to_be_bytes());
        match parse(&input) {
            Ok(LogicalReplicationMessage::Relation(body)) => {
                assert_eq!(format!("{:?}", body.replica_identity()), name);
                assert_eq!(body.namespace(), Ok(""));
                assert_eq!(body.name(), Ok(""));
                assert!(body.columns().is_empty());
            }
            other => panic!("{:?}", other),
        }
    }
}

#[test]
fn unknown_replica_identity_is_refused() {
    let error = parse(&[b'R', 0, 0, 0, 1, 0, 0, b'x', 0, 0]).unwrap_err();
    assert_eq!(error, ParseError::UnknownReplicaIdentityTag(b'x'));
    assert_eq!(error.kind(), ErrorKind::InvalidInput);
    assert_eq!(error.message(), "unknown replica identity tag `120`");
}

#[test]
fn type_is_read() {
    match parse(&type_info()) {
        Ok(LogicalReplicationMessage::Type(body)) => {
            assert_eq!(body.xid(), None);
            assert_eq!(body.id(), 0xffff_fffe);
            assert_eq!(body.namespace(), Ok(""));
            assert_eq!(body.name(), Ok("mood"));
        }
        other => panic!("{:?}", other),
    }
}

#[test]
fn insert_is_read() {
    match parse(&insert()) {
        Ok(LogicalReplicationMessage::Insert(body)) => {
            assert_eq!(body.xid(), None);
            assert_eq!(body.rel_id(), 16384);
            assert_mixed_row(body.tuple());
        }
        other => panic!("{:?}", other),
    }
}

#[test]
fn insert_of_anything_but_a_new_tuple_is_refused() {
    let mut input = insert();
    input[5] = b'O';
    let error = parse(&input).unwrap_err();
    assert_eq!(error, ParseError::UnexpectedTupleTag(b'O'));
    assert_eq!(error.kind(), ErrorKind::InvalidInput);
    assert_eq!(error.message(), "unexpected tuple tag `79`");
}

#[test]
fn update_is_read_without_the_row_as_it_was() {
    match parse(&update(None)) {
        Ok(LogicalReplicationMessage::Update(body)) => {
            assert_eq!(body.xid(), None);
            assert_eq!(body.rel_id(), 16384);
            assert!(body.key_tuple().is_none());
            assert!(body.old_tuple().is_none());
            assert_mixed_row(body.new_tuple());
        }
        other => panic!("{:?}", other),
    }
}

#[test]
fn update_is_read_with_the_old_tuple() {
    match parse(&update(Some(b'O'))) {
        Ok(LogicalReplicationMessage::Update(body)) => {
            assert!(body.key_tuple().is_none());
            assert_null_row(body.old_tuple().unwrap());
            assert_mixed_row(body.new_tuple());
        }
        other => panic!("{:?}", other),
    }
}

#[test]
fn update_is_read_with_the_key() {
    match parse(&update(Some(b'K'))) {
        Ok(LogicalReplicationMessage::Update(body)) => {
            assert_null_row(body.key_tuple().unwrap());
            assert!(body.old_tuple().is_none());
            assert_mixed_row(body.new_tuple());
        }
        other => panic!("{:?}", other),
    }
}

#[test]
fn update_with_an_unknown_tuple_is_refused() {
    let error = parse(&update(Some(b'x'))).unwrap_err();
    assert_eq!(error, ParseError::UnknownTupleTag(b'x'));
    assert_eq!(error.kind(), ErrorKind::InvalidInput);
    assert_eq!(error.message(), "unknown tuple tag `120`");
}

#[test]
fn update_with_two_previous_tuples_is_refused() {
    let mut input = vec![b'U', 0, 0, 0, 1, b'K', 0, 1, b'n'];
    input.push(b'O');
    assert_eq!(parse(&input).unwrap_err(), ParseError::UnexpectedTupleTag(b'O'));
}

#[test]
fn delete_is_read_with_the_old_tuple() {
    match parse(&delete(b'O')) {
        Ok(LogicalReplicationMessage::Delete(body)) => {
            assert_eq!(body.xid(), None);
            assert_eq!(body.rel_id(), 16384);
            assert_null_row(body.old_tuple().unwrap());
            assert!(body.key_tuple().is_none());
        }
        other => panic!("{:?}", other),
    }
}

#[test]
fn delete_is_read_with_the_key() {
    match parse(&delete(b'K')) {
        Ok(LogicalReplicationMessage::Delete(body)) => {
            assert!(body.old_tuple().is_none());
            assert_null_row(body.key_tuple().unwrap());
        }
        other => panic!("{:?}", other),
    }
}

#[test]
fn delete_with_a_new_tuple_is_refused() {
    assert_eq!(parse(&delete(b'N')).unwrap_err(), ParseError::UnknownTupleTag(b'N'));
}

#[test]
fn truncate_is_read() {
    match parse(&truncate()) {
        Ok(LogicalReplicationMessage::Truncate(body)) => {
            assert_eq!(body.xid(), None);
            assert_eq!(body.options(), -125);
            assert_eq!(body.rel_ids(), &[1, 0xffff_ffff, 16384]);
        }
        other => panic!("{:?}", other),
    }
}

#[test]
fn truncate_of_more_relations_than_there_are_is_refused() {
    let mut input = vec![b'T'];
    input.extend_from_slice(&i32::MAX.to_be_bytes());
    input.extend_from_slice(&[0, 0, 0, 0, 1]);
    assert_eq!(parse(&input).unwrap_err(), ParseError::UnexpectedEof);
}

#[test]
fn unknown_column_value_is_refused_as_a_message_tag() {
    let input = [b'I', 0, 0, 0, 1, b'N', 0, 1, b'b'];
    let error = parse(&input).unwrap_err();
    assert_eq!(error, ParseError::UnknownMessageTag(b'b'));
    assert_eq!(error.message(), "unknown replication message tag `98`");
}

#[test]
fn text_of_negative_length_is_cut_short() {
    let input = [b'I', 0, 0, 0, 1, b'N', 0, 1, b't', 0xff, 0xff, 0xff, 0xff, 1, 2, 3];
    assert_eq!(parse(&input).unwrap_err(), ParseError::UnexpectedEof);
}

#[test]
fn text_can_be_empty() {
    let input = [b'I', 0, 0, 0, 1, b'N', 0, 1, b't', 0, 0, 0, 0];
    match parse(&input) {
        Ok(LogicalReplicationMessage::Insert(body)) => match body.tuple().tuple_data() {
            [TupleData::Text(text)] => assert!(text.is_empty()),
            other => panic!("{:?}", other),
        },
        other => panic!("{:?}", other),
    }
}

#[test]
fn rows_can_be_empty() {
    match parse(&[b'I', 0, 0, 0, 1, b'N', 0, 0]) {
        Ok(LogicalReplicationMessage::Insert(body)) => {
            assert!(body.tuple().tuple_data().is_empty())
        }
        other => panic!("{:?}", other),
    }
}

#[test]
fn negative_counts_have_no_result() {
    let inputs: Vec<Vec<u8>> = vec![
        vec![b'R', 0, 0, 0, 1, 0, 0, b'd', 0xff, 0xff],
        vec![b'I', 0, 0, 0, 1, b'N', 0x80, 0],
        vec![b'U', 0, 0, 0, 1, b'O', 0xff, 0xfe],
        vec![b'U', 0, 0, 0, 1, b'K', 0, 0, b'N', 0xff, 0xfe],
        vec![b'D', 0, 0, 0, 1, b'K', 0xff, 0xff],
        vec![b'T', 0x80, 0, 0, 0, 3],
    ];
    for input in inputs {
        let mut streamed = false;
        let parsed = LogicalReplicationMessage::try_parse(&Bytes::from(input), 1, &mut streamed);
        assert!(parsed.is_none());
        assert!(!streamed);
    }
}

#[test]
fn negative_count_matters_only_once_it_is_reached() {
    let mut streamed = false;
    // The options of a truncate stand behind the number of relations.
    let input = Bytes::from_static(&[b'T', 0x80, 0, 0, 0]);
    let parsed = LogicalReplicationMessage::try_parse(&input, 1, &mut streamed);
    assert_eq!(parsed.unwrap().unwrap_err(), ParseError::UnexpectedEof);
    // An unknown replica identity stands in front of the number of columns.
    let input = Bytes::from_static(&[b'R', 0, 0, 0, 1, 0, 0, b'x', 0xff, 0xff]);
    let parsed = LogicalReplicationMessage::try_parse(&input, 1, &mut streamed);
    assert_eq!(parsed.unwrap().unwrap_err(), ParseError::UnknownReplicaIdentityTag(b'x'));
}

#[test]
fn try_parse_agrees_with_parse() {
    for input in [begin(), relation(), insert(), truncate(), vec![], vec![b'x']] {
        let mut streamed = false;
        let tried = LogicalReplicationMessage::try_parse(
            &Bytes::copy_from_slice(&input),
            1,
            &mut streamed,
        );
        assert_eq!(format!("{:?}", tried.unwrap()), format!("{:?}", parse(&input)));
    }
}

#[test]
fn names_that_are_not_utf8_are_refused_when_asked_for() {
    let mut input = vec![b'O'];
    input.extend_from_slice(&1u64.to_be_bytes());
    input.extend_from_slice(b"ab\xff\0");
    match parse(&input) {
        Ok(LogicalReplicationMessage::Origin(body)) => {
            let bytes: &[u8] = b"ab\xff";
            let expected = std::str::from_utf8(bytes).unwrap_err();
            let error = body.name().unwrap_err();
            assert_eq!(error, ParseError::InvalidUtf8(expected));
            assert_eq!(error.kind(), ErrorKind::InvalidInput);
            assert_eq!(error.message(), "invalid utf-8 sequence of 1 bytes from index 2");
            assert_eq!(body.commit_lsn(), 1);
        }
        other => panic!("{:?}", other),
    }
}

#[test]
fn every_name_is_checked_on_its_own() {
    let mut input = vec![b'R', 0, 0, 0, 1];
    input.extend_from_slice(b"\xc3\xa9t\xc3\xa9\0\x80\0d");
    input.extend_from_slice(&1i16.to_be_bytes());
    input.extend_from_slice(b"\x7f\xf0\0");
    input.extend_from_slice(&[0; 8]);
    match parse(&input) {
        Ok(LogicalReplicationMessage::Relation(body)) => {
            assert_eq!(body.namespace(), Ok("\u{e9}t\u{e9}"));
            assert!(matches!(body.name(), Err(ParseError::InvalidUtf8(_))));
            assert_eq!(body.columns()[0].flags(), 127);
            assert!(matches!(body.columns()[0].name(), Err(ParseError::InvalidUtf8(_))));
        }
        other => panic!("{:?}", other),
    }
    let mut input = vec![b'Y', 0, 0, 0, 1];
    input.extend_from_slice(b"\xff\0ok\0");
    match parse(&input) {
        Ok(LogicalReplicationMessage::Type(body)) => {
            assert!(matches!(body.namespace(), Err(ParseError::InvalidUtf8(_))));
            assert_eq!(body.name(), Ok("ok"));
        }
        other => panic!("{:?}", other),
    }
}

#[test]
fn name_without_an_end_is_cut_short() {
    let mut input = origin();
    input.pop();
    assert_eq!(parse(&input).unwrap_err(), ParseError::UnexpectedEof);
}

#[test]
fn unknown_logical_tag_is_refused() {
    let error = parse(b"w and more").unwrap_err();
    assert_eq!(error, ParseError::UnknownMessageTag(b'w'));
    assert_eq!(error.message(), "unknown replication message tag `119`");
}

#[test]
fn empty_logical_input_is_cut_short() {
    assert_eq!(parse(b"").unwrap_err(), ParseError::UnexpectedEof);
}

#[test]
fn messages_cut_off_anywhere_are_refused() {
    for input in [
        begin(),
        commit(),
        origin(),
        relation(),
        type_info(),
        insert(),
        update(None),
        update(Some(b'O')),
        update(Some(b'K')),
        delete(b'O'),
        delete(b'K'),
        truncate(),
    ] {
        assert!(parse(&input).is_ok());
        for at in 0..input.len() {
            assert_eq!(parse(&input[..at]).unwrap_err(), ParseError::UnexpectedEof);
        }
    }
}

#[test]
fn bytes_behind_a_message_change_nothing() {
    for input in [begin(), origin(), relation(), insert(), update(Some(b'K')), truncate()] {
        let mut longer = input.clone();
        longer.extend_from_slice(b"\0ignored");
        assert_eq!(format!("{:?}", parse(&longer)), format!("{:?}", parse(&input)));
    }
}

#[test]
fn different_messages_are_written_differently() {
    let inputs = [update(None), update(Some(b'O')), update(Some(b'K')), insert(), delete(b'O')];
    for (i, first) in inputs.iter().enumerate() {
        for (j, second) in inputs.iter().enumerate() {
            let alike = format!("{:?}", parse(first)) == format!("{:?}", parse(second));
            assert_eq!(alike, i == j);
        }
    }
}
