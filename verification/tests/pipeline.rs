use remits::commands::Command;
use remits::conn::{
    conn_step, encode_error, encode_success, format_response, ConnAction, ConnEvent, ConnState,
    FAILURE_MARKER, SUCCESS_MARKER,
};
use remits::db::DB;
use remits::errors::Error;

#[test]
fn markers_match_wire_protocol() {
    assert_eq!(SUCCESS_MARKER, b'+');
    assert_eq!(FAILURE_MARKER, b'!');
}

#[test]
fn success_response_is_marker_then_payload() {
    let r = encode_success(&vec![1u8, 2, 3]);
    assert_eq!(r, vec![b'+', 1, 2, 3]);
    assert_eq!(encode_success(&Vec::new()), vec![b'+']);
}

#[test]
fn error_response_is_marker_then_text() {
    let r = encode_error("bad frame");
    let mut expected = vec![b'!'];
    expected.extend_from_slice("bad frame".as_bytes());
    assert_eq!(r, expected);
}

#[test]
fn format_response_encodes_both_outcomes() {
    assert_eq!(format_response(Ok(vec![7u8])), vec![b'+', 7]);
    let err = format_response(Err(Error::ItrDoesNotExist));
    assert_eq!(err[0], b'!');
    assert_eq!(&err[1..], "itr does not exist".as_bytes());
}

#[test]
fn exec_dispatches_and_reports() {
    let mut db = DB::new();
    assert_eq!(db.exec(Command::LogAdd { name: "orders".into() }), Ok(vec![]));
    assert_eq!(
        db.exec(Command::ItrAdd {
            log: "orders".into(),
            name: "sum".into(),
            kind: "Map".into(),
            func: "f1".into(),
        }),
        Ok(vec![])
    );
    assert_eq!(
        db.exec(Command::ItrAdd {
            log: "orders".into(),
            name: "sum".into(),
            kind: "Map".into(),
            func: "f2".into(),
        }),
        Err(Error::ItrExistsWithSameName)
    );
    assert_eq!(
        db.exec(Command::ItrDel { log: "billing".into(), name: "sum".into() }),
        Err(Error::ItrDoesNotExist)
    );
    assert!(db.manifest().contains_itr("sum"));
    assert_eq!(db.exec(Command::LogDel { name: "orders".into() }), Ok(vec![]));
    assert!(!db.manifest().contains_log("orders"));
    assert!(!db.manifest().contains_itr("sum"));
}

#[test]
fn parse_failure_answers_without_touching_state() {
    let mut db = DB::new();
    let _ = db.exec(Command::LogAdd { name: "orders".into() });

    let (state, action) = conn_step(&mut db, ConnEvent::Received(Err("unknown command".into())));
    assert!(matches!(state, ConnState::Open));
    match action {
        ConnAction::Respond(out) => {
            assert_eq!(out[0], b'!');
            assert_eq!(&out[1..], "unknown command".as_bytes());
        }
        ConnAction::Nothing => panic!("a rejected frame must be answered"),
    }
    assert!(db.manifest().contains_log("orders"));
    assert_eq!(db.manifest().num_logs(), 1);
    assert_eq!(db.manifest().num_itrs(), 0);
}

#[test]
fn parsed_command_is_executed_and_answered() {
    let mut db = DB::new();
    let (state, action) =
        conn_step(&mut db, ConnEvent::Received(Ok(Command::LogAdd { name: "orders".into() })));
    assert!(matches!(state, ConnState::Open));
    match action {
        ConnAction::Respond(out) => assert_eq!(out, vec![b'+']),
        ConnAction::Nothing => panic!("a command must be answered"),
    }
    assert!(db.manifest().contains_log("orders"));
}

#[test]
fn failed_command_is_answered_with_its_error() {
    let mut db = DB::new();
    let (state, action) = conn_step(
        &mut db,
        ConnEvent::Received(Ok(Command::ItrDel { log: "orders".into(), name: "sum".into() })),
    );
    assert!(matches!(state, ConnState::Open));
    match action {
        ConnAction::Respond(out) => {
            assert_eq!(out[0], b'!');
            assert_eq!(&out[1..], "itr does not exist".as_bytes());
        }
        ConnAction::Nothing => panic!("a failed command must still be answered"),
    }
}

#[test]
fn read_error_closes_the_connection() {
    let mut db = DB::new();
    let (state, action) = conn_step(&mut db, ConnEvent::ReadError);
    assert!(matches!(state, ConnState::Closed));
    assert!(matches!(action, ConnAction::Nothing));
}

#[test]
fn end_of_stream_closes_the_connection() {
    let mut db = DB::new();
    let (state, action) = conn_step(&mut db, ConnEvent::EndOfStream);
    assert!(matches!(state, ConnState::Closed));
    assert!(matches!(action, ConnAction::Nothing));
}

#[test]
fn write_error_keeps_the_connection_open() {
    let mut db = DB::new();
    let (state, action) = conn_step(&mut db, ConnEvent::WriteError);
    assert!(matches!(state, ConnState::Open));
    assert!(matches!(action, ConnAction::Nothing));
}

#[test]
fn interleaved_connections_apply_commands_atomically() {
    // Two connections take turns against one database; every observation is
    // of a fully applied command, and the outcome equals some sequential
    // order of the commands.
    let mut db = DB::new();
    let (_, _) =
        conn_step(&mut db, ConnEvent::Received(Ok(Command::LogAdd { name: "orders".into() })));
    let (_, _) = conn_step(
        &mut db,
        ConnEvent::Received(Ok(Command::ItrAdd {
            log: "orders".into(),
            name: "sum".into(),
            kind: "Map".into(),
            func: "f1".into(),
        })),
    );
    let (_, _) =
        conn_step(&mut db, ConnEvent::Received(Ok(Command::LogDel { name: "orders".into() })));
    assert_eq!(db.manifest().num_logs(), 0);
    assert_eq!(db.manifest().num_itrs(), 0);
}
