use clepsydra::forward::Forward;

fn run(outcomes: &[bool]) -> Vec<Forward> {
    let mut step = Forward::Receive;
    let mut out = vec![step];
    for ok in outcomes {
        if step.is_stop() {
            break;
        }
        step = step.next(*ok);
        out.push(step);
    }
    out
}

#[test]
fn messages_are_received_serialized_and_sent() {
    assert_eq!(
        run(&[true, true, true, true, true, true]),
        vec![
            Forward::Receive,
            Forward::Serialize,
            Forward::Send,
            Forward::Receive,
            Forward::Serialize,
            Forward::Send,
            Forward::Receive
        ]
    );
}

#[test]
fn unserializable_message_is_skipped() {
    assert_eq!(
        run(&[true, false, true, true, true]),
        vec![
            Forward::Receive,
            Forward::Serialize,
            Forward::Receive,
            Forward::Serialize,
            Forward::Send,
            Forward::Receive
        ]
    );
}

#[test]
fn failed_send_or_closed_channel_stops() {
    assert_eq!(run(&[true, true, false, true]), vec![Forward::Receive, Forward::Serialize, Forward::Send, Forward::Stop]);
    assert_eq!(run(&[false, true]), vec![Forward::Receive, Forward::Stop]);
    assert_eq!(Forward::Stop.next(true), Forward::Stop);
    assert!(Forward::Stop.is_stop());
    assert!(!Forward::Send.is_stop());
}
