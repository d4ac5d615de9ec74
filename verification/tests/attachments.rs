use auto_sade::attachments::{
    ItemHarvest, ItemMove, ItemPhase, CLICK_PACE_MS, MARKER_GRACE_MS,
};
use auto_sade::policy::TimeoutPolicy;
use auto_sade::remote::{Command, Message, Reply, Selector, Step};

fn policy() -> TimeoutPolicy {
    TimeoutPolicy::standard()
}

/// Runs the work on an item against the given replies; returns the steps
/// it asked for after the first command, and its last move.
fn run(position: usize, advance: bool, replies: &[Reply]) -> (Vec<Step>, ItemMove) {
    let (mut item, first) = ItemHarvest::start(position, advance, policy());
    let mut steps = Vec::new();
    let mut last = ItemMove::Continue { step: Step { pause_ms: 0, report: None, command: first } };
    for reply in replies {
        last = item.advance(*reply);
        if let ItemMove::Continue { step } = last {
            steps.push(step);
        }
    }
    (steps, last)
}

fn commands(steps: &[Step]) -> Vec<Command> {
    steps.iter().map(|s| s.command).collect()
}

fn awaits(steps: &[Step]) -> usize {
    steps.iter().filter(|s| matches!(s.command, Command::AwaitDownloads { .. })).count()
}

#[test]
fn first_command_depends_on_the_advance() {
    let (item, first) = ItemHarvest::start(7, false, policy());
    assert_eq!(first, Command::Probe { selector: Selector::DetailIcon });
    assert_eq!(item.phase, ItemPhase::Locating);
    assert_eq!(item.position, 7);
    let (item, first) = ItemHarvest::start(0, true, policy());
    assert_eq!(first, Command::Probe { selector: Selector::PagingNext });
    assert_eq!(item.phase, ItemPhase::SeekingAdvance);
}

#[test]
fn item_without_attachments_completes_without_waiting() {
    let (steps, last) = run(
        3,
        false,
        &[
            Reply::Count { found: 100 },
            Reply::Done,
            Reply::Count { found: 0 },
            Reply::Count { found: 1 },
            Reply::Done,
        ],
    );
    assert_eq!(last, ItemMove::Finished { completed: true });
    assert_eq!(awaits(&steps), 0);
    assert_eq!(
        commands(&steps),
        vec![
            Command::Click { selector: Selector::DetailIcon, index: 3 },
            Command::Probe { selector: Selector::DownloadIcon },
            Command::Probe { selector: Selector::ViewButton },
            Command::Click { selector: Selector::ViewButton, index: 0 },
        ]
    );
}

#[test]
fn every_attachment_but_the_cover_is_clicked_in_order() {
    let (steps, last) = run(
        0,
        false,
        &[
            Reply::Count { found: 5 },
            Reply::Done,
            Reply::Count { found: 4 },
            Reply::Done,
            Reply::Done,
            Reply::Done,
            Reply::Downloads { stable: true },
            Reply::Count { found: 1 },
            Reply::Count { found: 2 },
            Reply::Done,
        ],
    );
    assert_eq!(last, ItemMove::Finished { completed: true });
    let cmds = commands(&steps);
    assert_eq!(
        &cmds[2..6],
        &[
            Command::Click { selector: Selector::DownloadIcon, index: 1 },
            Command::Click { selector: Selector::DownloadIcon, index: 2 },
            Command::Click { selector: Selector::DownloadIcon, index: 3 },
            Command::AwaitDownloads { timeout_secs: 15 },
        ]
    );
    assert!(!cmds.contains(&Command::Click { selector: Selector::DownloadIcon, index: 0 }));
    assert_eq!(steps[3].pause_ms, CLICK_PACE_MS);
    assert_eq!(steps[4].pause_ms, CLICK_PACE_MS);
    assert_eq!(steps[5].pause_ms, CLICK_PACE_MS + MARKER_GRACE_MS);
    assert_eq!(awaits(&steps), 1);
}

#[test]
fn cover_entry_alone_waits_with_the_floor() {
    let (steps, _) = run(
        0,
        false,
        &[Reply::Count { found: 1 }, Reply::Done, Reply::Count { found: 1 }],
    );
    let last = steps.last().unwrap();
    assert_eq!(last.command, Command::AwaitDownloads { timeout_secs: 10 });
    assert_eq!(last.pause_ms, MARKER_GRACE_MS);
}

#[test]
fn timeout_grows_with_the_number_of_files() {
    for (shown, expected) in [(2usize, 10u64), (4, 15), (9, 40), (13, 60), (40, 60)] {
        let mut replies = vec![Reply::Count { found: 1 }, Reply::Done, Reply::Count { found: shown }];
        for _ in 1..shown {
            replies.push(Reply::Done);
        }
        let (steps, _) = run(0, false, &replies);
        assert_eq!(
            steps.last().unwrap().command,
            Command::AwaitDownloads { timeout_secs: expected },
            "{} controls",
            shown
        );
    }
}

#[test]
fn failed_download_click_is_reported_and_passed_over() {
    let (steps, last) = run(
        0,
        false,
        &[
            Reply::Count { found: 1 },
            Reply::Done,
            Reply::Count { found: 3 },
            Reply::Failed,
            Reply::Failed,
            Reply::Downloads { stable: false },
            Reply::Count { found: 0 },
            Reply::Count { found: 1 },
            Reply::Done,
        ],
    );
    assert_eq!(last, ItemMove::Finished { completed: true });
    assert_eq!(steps[3].report, Some(Message::AttachmentFailed { index: 1 }));
    assert_eq!(steps[4].report, Some(Message::AttachmentFailed { index: 2 }));
    assert_eq!(steps[5].report, Some(Message::DownloadsUnconfirmed));
}

#[test]
fn further_attachment_pages_are_gone_through() {
    let (steps, last) = run(
        0,
        false,
        &[
            Reply::Count { found: 1 },
            Reply::Done,
            Reply::Count { found: 2 },
            Reply::Done,
            Reply::Downloads { stable: true },
            Reply::Count { found: 2 },
            Reply::Done,
            Reply::Count { found: 2 },
            Reply::Done,
            Reply::Downloads { stable: true },
            Reply::Count { found: 1 },
            Reply::Count { found: 1 },
            Reply::Done,
        ],
    );
    assert_eq!(last, ItemMove::Finished { completed: true });
    assert_eq!(awaits(&steps), 2);
    assert!(commands(&steps)
        .contains(&Command::Click { selector: Selector::PagingNext, index: 1 }));
}

#[test]
fn failed_page_turn_leaves_the_loop() {
    let (steps, last) = run(
        0,
        false,
        &[
            Reply::Count { found: 1 },
            Reply::Done,
            Reply::Count { found: 2 },
            Reply::Done,
            Reply::Downloads { stable: true },
            Reply::Count { found: 2 },
            Reply::Failed,
            Reply::Count { found: 1 },
            Reply::Done,
        ],
    );
    assert_eq!(last, ItemMove::Finished { completed: true });
    assert_eq!(awaits(&steps), 1);
}

#[test]
fn row_that_is_not_there_fails_the_item() {
    let (steps, last) = run(5, false, &[Reply::Count { found: 5 }]);
    assert_eq!(last, ItemMove::Finished { completed: false });
    assert!(steps.is_empty());
    let (_, last) = run(5, false, &[Reply::Failed]);
    assert_eq!(last, ItemMove::Finished { completed: false });
}

#[test]
fn failed_click_on_the_row_fails_the_item() {
    let (_, last) = run(5, false, &[Reply::Count { found: 6 }, Reply::Failed]);
    assert_eq!(last, ItemMove::Finished { completed: false });
}

#[test]
fn unavailable_advance_is_passed_over() {
    let (steps, _) = run(0, true, &[Reply::Count { found: 5 }]);
    assert_eq!(commands(&steps), vec![Command::Probe { selector: Selector::DetailIcon }]);
    assert_eq!(steps[0].pause_ms, 1000);
}

#[test]
fn available_advance_is_clicked_once() {
    let (steps, _) = run(0, true, &[Reply::Count { found: 6 }, Reply::Done]);
    assert_eq!(
        commands(&steps),
        vec![
            Command::Click { selector: Selector::PagingNext, index: 5 },
            Command::Probe { selector: Selector::DetailIcon },
        ]
    );
    assert_eq!(steps[1].pause_ms, 2000);
}

#[test]
fn failed_advance_fails_the_item() {
    let (_, last) = run(0, true, &[Reply::Count { found: 6 }, Reply::Failed]);
    assert_eq!(last, ItemMove::Finished { completed: false });
    let (_, last) = run(0, true, &[Reply::Failed]);
    assert_eq!(last, ItemMove::Finished { completed: false });
}

#[test]
fn failed_return_fails_the_item() {
    let (_, last) = run(
        0,
        false,
        &[
            Reply::Count { found: 1 },
            Reply::Done,
            Reply::Count { found: 0 },
            Reply::Count { found: 1 },
            Reply::Failed,
        ],
    );
    assert_eq!(last, ItemMove::Finished { completed: false });
}

#[test]
fn missing_back_control_still_completes() {
    let (_, last) = run(
        0,
        false,
        &[Reply::Count { found: 1 }, Reply::Done, Reply::Count { found: 0 }, Reply::Count { found: 0 }],
    );
    assert_eq!(last, ItemMove::Finished { completed: true });
}

#[test]
fn unreadable_attachment_list_fails_the_item_but_returns() {
    let (steps, last) = run(
        0,
        false,
        &[Reply::Count { found: 1 }, Reply::Done, Reply::Failed, Reply::Count { found: 1 }, Reply::Done],
    );
    assert_eq!(last, ItemMove::Finished { completed: false });
    assert_eq!(
        commands(&steps).last(),
        Some(&Command::Click { selector: Selector::ViewButton, index: 0 })
    );
}
