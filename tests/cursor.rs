use neor::cursor::{Action, Cursor, CursorState, QueryError};
use neor::protocol::{ErrorType, ResponseType};

#[test]
fn partial_batches_then_sequence_keep_order() {
    let mut c = Cursor::new();
    let s1 = c.on_response(ResponseType::SuccessPartial, vec![1, 2], None);
    assert_eq!(s1.items, vec![1, 2]);
    assert_eq!(s1.action, Action::SendContinue);
    let s2 = c.on_response(ResponseType::SuccessPartial, vec![3], None);
    assert_eq!(s2.items, vec![3]);
    let s3 = c.on_response(ResponseType::SuccessSequence, vec![4, 5], None);
    assert_eq!(s3.items, vec![4, 5]);
    assert_eq!(s3.action, Action::Nothing);
    assert_eq!(c.state, CursorState::Done);
    let late = c.on_response(ResponseType::SuccessSequence, vec![6], None);
    assert!(late.items.is_empty());
}

#[test]
fn atom_finishes_at_once() {
    let mut c = Cursor::new();
    let s = c.on_response(ResponseType::SuccessAtom, vec!["doc"], None);
    assert_eq!(s.items, vec!["doc"]);
    assert_eq!(c.state, CursorState::Done);
}

#[test]
fn runtime_error_ends_the_stream() {
    let mut c = Cursor::new();
    let s = c.on_response(ResponseType::RuntimeError, vec!["boom"], Some(ErrorType::NonExistence));
    assert!(s.items.is_empty());
    assert_eq!(s.error, Some(QueryError::Runtime(Some(ErrorType::NonExistence))));
    assert_eq!(c.state, CursorState::Failed);
    assert_eq!(c.close(), Action::Nothing);
}

#[test]
fn compile_and_client_errors() {
    let mut c = Cursor::new();
    let s = c.on_response::<u8>(ResponseType::CompileError, vec![], None);
    assert_eq!(s.error, Some(QueryError::Compile));
    let mut d = Cursor::new();
    let s = d.on_response::<u8>(ResponseType::ClientError, vec![], None);
    assert_eq!(s.error, Some(QueryError::Client));
}

#[test]
fn closing_an_open_feed_sends_stop() {
    let mut c = Cursor::new();
    c.on_response(ResponseType::SuccessPartial, vec![1], None);
    assert_eq!(c.close(), Action::SendStop);
    assert_eq!(c.state, CursorState::Stopped);
    let s = c.on_response(ResponseType::SuccessPartial, vec![2], None);
    assert!(s.items.is_empty());
    assert_eq!(s.action, Action::Nothing);
    assert_eq!(c.close(), Action::Nothing);
}

#[test]
fn interleaved_tokens_keep_their_own_order() {
    let mut s = neor::session::Session::new("test");
    let t1 = s.connection().unwrap().token;
    let t2 = s.connection().unwrap().token;
    let mut c1 = Cursor::new();
    let mut c2 = Cursor::new();
    let frames: Vec<(u64, ResponseType, Vec<u32>)> = vec![
        (t1, ResponseType::SuccessPartial, (0..5000).collect()),
        (t2, ResponseType::SuccessPartial, (5000..7000).collect()),
        (t1, ResponseType::SuccessSequence, Vec::new()),
        (t2, ResponseType::SuccessPartial, (7000..9000).collect()),
        (t2, ResponseType::SuccessSequence, (9000..10000).collect()),
    ];
    let (mut out1, mut out2) = (Vec::new(), Vec::new());
    for (token, kind, items) in frames {
        assert!(s.accepts(token));
        if token == t1 {
            out1.extend(c1.on_response(kind, items, None).items);
        } else {
            out2.extend(c2.on_response(kind, items, None).items);
        }
    }
    assert_eq!(c1.state, CursorState::Done);
    assert_eq!(c2.state, CursorState::Done);
    assert_eq!(out1, (0..5000).collect::<Vec<u32>>());
    assert_eq!(out2, (5000..10000).collect::<Vec<u32>>());
}

#[test]
fn on_responses_concatenates_the_batches() {
    let mut c = Cursor::new();
    let out = c.on_responses(vec![
        (ResponseType::SuccessPartial, vec![1, 2]),
        (ResponseType::SuccessPartial, vec![]),
        (ResponseType::SuccessPartial, vec![3]),
        (ResponseType::SuccessSequence, vec![4]),
        (ResponseType::SuccessSequence, vec![5]),
    ]);
    assert_eq!(out, vec![1, 2, 3, 4]);
    assert_eq!(c.state, CursorState::Done);
}
