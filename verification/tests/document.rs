use cups_rs::provider::job::backend::MutationFailure;
use cups_rs::provider::job::document::{DocumentSend, SendAction, SubmitStop, WRITE_CHUNK_BYTES};
use cups_rs::provider::job::types::SubmitPhase;

fn lost() -> MutationFailure {
    MutationFailure::NoAnswer {
        detail: "lost".into(),
    }
}

#[test]
fn steps_come_once_and_in_order() {
    let length = 2 * WRITE_CHUNK_BYTES + 1;
    let mut send = DocumentSend::new(length);
    let mut actions = Vec::new();
    loop {
        let action = send.action();
        actions.push(action);
        if action == SendAction::Done {
            break;
        }
        send.answered(Ok(()));
    }
    assert_eq!(
        actions,
        vec![
            SendAction::Start,
            SendAction::Write {
                from: 0,
                to: WRITE_CHUNK_BYTES
            },
            SendAction::Write {
                from: WRITE_CHUNK_BYTES,
                to: 2 * WRITE_CHUNK_BYTES
            },
            SendAction::Write {
                from: 2 * WRITE_CHUNK_BYTES,
                to: length
            },
            SendAction::Finish,
            SendAction::Done,
        ]
    );
    assert_eq!(send.outcome(), Some(Ok(())));
}

#[test]
fn nothing_follows_a_failure() {
    for (successes, phase, bytes_sent) in [
        (0, SubmitPhase::Start, 0),
        (1, SubmitPhase::Write, 0),
        (2, SubmitPhase::Write, WRITE_CHUNK_BYTES as u64),
        (3, SubmitPhase::Finish, 100_000),
    ] {
        let mut send = DocumentSend::new(100_000);
        for _ in 0..successes {
            send.answered(Ok(()));
        }
        send.answered(Err(lost()));
        assert_eq!(send.action(), SendAction::Done);
        send.answered(Ok(()));
        assert_eq!(
            send.outcome(),
            Some(Err(SubmitStop {
                phase,
                bytes_sent,
                failure: lost(),
            }))
        );
    }
}

#[test]
fn an_empty_document_has_no_writes() {
    let mut send = DocumentSend::new(0);
    send.answered(Ok(()));
    assert_eq!(send.action(), SendAction::Finish);
    assert_eq!(send.outcome(), None);
}
