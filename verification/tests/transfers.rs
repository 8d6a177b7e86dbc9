use mikanbako::filename::ResponseInfo;
use mikanbako::transfer::{response_event, Action, Event, Failure, FailureClass, Phase, Transfer};

fn responded(name: &str, content_length: Option<u64>) -> Event {
    Event::Responded { filename: name.to_string(), content_length }
}

/// Feeds the events to a new download and gives the actions back.
fn actions_for(events: Vec<Event>) -> (Transfer, Vec<Action>) {
    let mut transfer = Transfer::new();
    let mut actions = Vec::new();
    for event in events {
        actions.push(transfer.step(event));
    }
    (transfer, actions)
}

fn reported(actions: &[Action]) -> u64 {
    let mut sum = 0;
    for action in actions {
        if let Action::Report { bytes } = action {
            sum += bytes;
        }
    }
    sum
}

#[test]
fn new_download_waits_for_its_response() {
    let transfer = Transfer::new();
    assert_eq!(transfer.phase(), Phase::Requesting);
    assert_eq!(transfer.bytes_written(), 0);
    assert!(!transfer.has_ended());
}

#[test]
fn download_runs_from_response_to_completion() {
    let (transfer, actions) = actions_for(vec![
        responded("report.pdf", Some(10)),
        Event::Opened,
        Event::Chunk { len: 4 },
        Event::Written,
        Event::Chunk { len: 6 },
        Event::Written,
        Event::End,
    ]);
    assert_eq!(
        actions,
        vec![
            Action::Open { filename: "report.pdf".to_string(), total: Some(10) },
            Action::Read,
            Action::Write { len: 4 },
            Action::Report { bytes: 4 },
            Action::Write { len: 6 },
            Action::Report { bytes: 6 },
            Action::Complete,
        ]
    );
    assert_eq!(transfer.phase(), Phase::Completed);
    assert_eq!(transfer.bytes_written(), 10);
    assert_eq!(transfer.declared_total(), Some(10));
    assert!(transfer.has_ended());
}

#[test]
fn progress_sums_to_the_bytes_written() {
    let lens: Vec<usize> = vec![1, 0, 4096, 17, 65536, 3];
    let mut events = vec![responded("f", None), Event::Opened];
    for len in &lens {
        events.push(Event::Chunk { len: *len });
        events.push(Event::Written);
    }
    events.push(Event::End);
    let (transfer, actions) = actions_for(events);
    let written: usize = lens.iter().sum();
    assert_eq!(reported(&actions), written as u64);
    assert_eq!(transfer.bytes_written(), written as u64);
    assert_eq!(transfer.phase(), Phase::Completed);
}

#[test]
fn unknown_or_zero_length_announces_no_total() {
    let (_, actions) = actions_for(vec![responded("f", None)]);
    assert_eq!(actions, vec![Action::Open { filename: "f".to_string(), total: None }]);
    let (transfer, actions) = actions_for(vec![responded("f", Some(0))]);
    assert_eq!(actions, vec![Action::Open { filename: "f".to_string(), total: None }]);
    assert_eq!(transfer.declared_total(), None);
    let (_, actions) = actions_for(vec![responded("f", Some(1))]);
    assert_eq!(actions, vec![Action::Open { filename: "f".to_string(), total: Some(1) }]);
}

#[test]
fn empty_body_completes_with_nothing_written() {
    let (transfer, actions) = actions_for(vec![responded("f", None), Event::Opened, Event::End]);
    assert_eq!(actions[2], Action::Complete);
    assert_eq!(reported(&actions), 0);
    assert_eq!(transfer.bytes_written(), 0);
}

#[test]
fn request_that_fails_aborts() {
    let (transfer, actions) = actions_for(vec![Event::Failed]);
    assert_eq!(actions, vec![Action::Abort { failure: Failure::Request }]);
    assert_eq!(transfer.phase(), Phase::Aborted { failure: Failure::Request });
    assert!(transfer.has_ended());
}

#[test]
fn response_without_a_name_aborts() {
    let (transfer, actions) = actions_for(vec![Event::Unnamed]);
    assert_eq!(actions, vec![Action::Abort { failure: Failure::Filename }]);
    assert_eq!(transfer.phase(), Phase::Aborted { failure: Failure::Filename });
}

#[test]
fn file_that_does_not_open_aborts() {
    let (transfer, actions) = actions_for(vec![responded("f", Some(3)), Event::Failed]);
    assert_eq!(actions[1], Action::Abort { failure: Failure::Open });
    assert_eq!(transfer.phase(), Phase::Aborted { failure: Failure::Open });
}

#[test]
fn body_that_breaks_off_aborts_and_keeps_what_is_written() {
    let (transfer, actions) = actions_for(vec![
        responded("f", Some(100)),
        Event::Opened,
        Event::Chunk { len: 40 },
        Event::Written,
        Event::Failed,
    ]);
    assert_eq!(actions[4], Action::Abort { failure: Failure::Body });
    assert_eq!(transfer.phase(), Phase::Aborted { failure: Failure::Body });
    assert_eq!(transfer.bytes_written(), 40);
    assert_eq!(reported(&actions), 40);
}

#[test]
fn chunk_that_is_not_written_is_not_reported() {
    let (transfer, actions) = actions_for(vec![
        responded("f", None),
        Event::Opened,
        Event::Chunk { len: 8 },
        Event::Written,
        Event::Chunk { len: 5 },
        Event::Failed,
    ]);
    assert_eq!(actions[5], Action::Abort { failure: Failure::Write });
    assert_eq!(transfer.bytes_written(), 8);
    assert_eq!(reported(&actions), 8);
}

#[test]
fn event_out_of_turn_counts_as_failure() {
    let (_, actions) = actions_for(vec![Event::Opened]);
    assert_eq!(actions, vec![Action::Abort { failure: Failure::Request }]);
    let (_, actions) = actions_for(vec![responded("f", None), Event::Written]);
    assert_eq!(actions[1], Action::Abort { failure: Failure::Open });
    let (_, actions) = actions_for(vec![responded("f", None), Event::Opened, Event::Written]);
    assert_eq!(actions[2], Action::Abort { failure: Failure::Body });
    let (_, actions) = actions_for(vec![
        responded("f", None),
        Event::Opened,
        Event::Chunk { len: 1 },
        Event::End,
    ]);
    assert_eq!(actions[3], Action::Abort { failure: Failure::Write });
}

#[test]
fn ended_download_stays_as_it_is() {
    let (mut transfer, _) = actions_for(vec![responded("f", None), Event::Opened, Event::End]);
    assert_eq!(transfer.step(Event::Chunk { len: 9 }), Action::Complete);
    assert_eq!(transfer.step(Event::Failed), Action::Complete);
    assert_eq!(transfer.phase(), Phase::Completed);
    assert_eq!(transfer.bytes_written(), 0);
    let (mut transfer, _) = actions_for(vec![Event::Failed]);
    assert_eq!(transfer.step(Event::End), Action::Abort { failure: Failure::Request });
    assert_eq!(transfer.step(responded("f", None)), Action::Abort { failure: Failure::Request });
    assert_eq!(transfer.phase(), Phase::Aborted { failure: Failure::Request });
}

#[test]
fn more_bytes_than_a_u64_counts_are_refused() {
    if usize::MAX as u128 == u64::MAX as u128 {
        let (transfer, actions) = actions_for(vec![
            responded("f", None),
            Event::Opened,
            Event::Chunk { len: usize::MAX },
            Event::Written,
            Event::Chunk { len: 1 },
            Event::Written,
        ]);
        assert_eq!(actions[3], Action::Report { bytes: u64::MAX });
        assert_eq!(actions[5], Action::Abort { failure: Failure::Write });
        assert_eq!(transfer.bytes_written(), u64::MAX);
    }
}

#[test]
fn failures_fall_in_two_classes() {
    assert_eq!(Failure::Request.class(), FailureClass::Transfer);
    assert_eq!(Failure::Body.class(), FailureClass::Transfer);
    assert_eq!(Failure::Filename.class(), FailureClass::Persistence);
    assert_eq!(Failure::Open.class(), FailureClass::Persistence);
    assert_eq!(Failure::Write.class(), FailureClass::Persistence);
}

#[test]
fn response_event_names_the_file() {
    let info = ResponseInfo {
        content_length: Some(12),
        path_segments: Some(vec!["a".to_string(), "caf%C3%A9.txt".to_string()]),
    };
    assert_eq!(response_event(&info), responded("café.txt", Some(12)));
}

#[test]
fn response_event_without_segment_names_the_file_by_the_clock() {
    let info = ResponseInfo { content_length: None, path_segments: Some(vec!["".to_string()]) };
    match response_event(&info) {
        Event::Responded { filename, content_length } => {
            assert!(!filename.is_empty());
            assert!(filename.chars().all(|c| c.is_ascii_digit()));
            assert_eq!(content_length, None);
        }
        other => panic!("{:?}", other),
    }
}
