use auto_sade::config::{Config, Credenciales, Usuario};
use auto_sade::policy::TimeoutPolicy;
use auto_sade::remote::{Command, Message, Reply, Selector, Step};
use auto_sade::web_automation::{
    descargar_comunicaciones, Harvest, HarvestError, HarvestMove, ResultadoDescarga, Stage,
};

/// A portal that answers every command from a few figures.
struct Portal {
    profile_ok: bool,
    launch_ok: bool,
    login_fields: usize,
    sign_out_controls: usize,
    login_fields_after_sign_out: usize,
    signed_out: bool,
    rows_on_page: usize,
    paging_controls: usize,
    download_icons: usize,
    downloads_stable: bool,
    removal_failures: u32,
    failing_row: Option<usize>,
    navigation_ok: bool,
    tab_click_ok: bool,
    log: Vec<Step>,
}

impl Portal {
    fn new() -> Portal {
        Portal {
            profile_ok: true,
            launch_ok: true,
            login_fields: 2,
            sign_out_controls: 1,
            login_fields_after_sign_out: 2,
            signed_out: false,
            rows_on_page: 100,
            paging_controls: 6,
            download_icons: 3,
            downloads_stable: true,
            removal_failures: 0,
            failing_row: None,
            navigation_ok: true,
            tab_click_ok: true,
            log: Vec::new(),
        }
    }

    fn reply(&mut self, step: Step) -> Reply {
        self.log.push(step);
        match step.command {
            Command::CreateProfile => {
                if self.profile_ok {
                    Reply::Done
                } else {
                    Reply::Failed
                }
            }
            Command::Launch => {
                if self.launch_ok {
                    Reply::Done
                } else {
                    Reply::Failed
                }
            }
            Command::Probe { selector } => Reply::Count {
                found: match selector {
                    Selector::FormTextBox => {
                        if self.signed_out {
                            self.login_fields_after_sign_out
                        } else {
                            self.login_fields
                        }
                    }
                    Selector::SignOut => self.sign_out_controls,
                    Selector::SubmitButton => 1,
                    Selector::TabCaption => 5,
                    Selector::PlainButton => 30,
                    Selector::PagingNext => self.paging_controls,
                    Selector::DetailIcon => self.rows_on_page,
                    Selector::DownloadIcon => self.download_icons,
                    Selector::ViewButton => 1,
                    Selector::TextBox => 1,
                    Selector::Button => 3,
                },
            },
            Command::Navigate => {
                if self.navigation_ok {
                    Reply::Done
                } else {
                    Reply::Failed
                }
            }
            Command::Click { selector: Selector::TabCaption, .. } => {
                if self.tab_click_ok {
                    Reply::Done
                } else {
                    Reply::Failed
                }
            }
            Command::Click { selector: Selector::SignOut, .. } => {
                self.signed_out = true;
                Reply::Done
            }
            Command::Click { selector: Selector::DetailIcon, index } => {
                if self.failing_row == Some(index) {
                    Reply::Failed
                } else {
                    Reply::Done
                }
            }
            Command::Click { selector: Selector::PagingNext, index: 1 } => Reply::Failed,
            Command::AwaitDownloads { .. } => Reply::Downloads { stable: self.downloads_stable },
            Command::RemoveProfile => {
                if self.removal_failures > 0 {
                    self.removal_failures -= 1;
                    Reply::Failed
                } else {
                    Reply::Done
                }
            }
            _ => Reply::Done,
        }
    }

    fn count(&self, wanted: impl Fn(&Command) -> bool) -> usize {
        self.log.iter().filter(|s| wanted(&s.command)).count()
    }

    fn reports(&self) -> Vec<Message> {
        self.log.iter().filter_map(|s| s.report).collect()
    }
}

fn drive(begun: (Harvest, HarvestMove), portal: &mut Portal) -> Result<ResultadoDescarga, HarvestError> {
    let (mut harvest, mut next) = begun;
    let mut guard = 0;
    loop {
        guard += 1;
        assert!(guard < 1_000_000, "the run does not end");
        match next {
            HarvestMove::Finished { outcome } => return outcome,
            HarvestMove::Continue { step } => {
                let reply = portal.reply(step);
                next = harvest.advance(reply);
                assert!(harvest.completed <= harvest.done);
                assert!(harvest.done <= harvest.total);
            }
        }
    }
}

fn run(inicio: u32, final_: u32, portal: &mut Portal) -> Result<ResultadoDescarga, HarvestError> {
    drive(Harvest::begin(inicio, final_, true, TimeoutPolicy::standard()), portal)
}

fn config_with_user(clave: &str) -> Config {
    let mut config = Config::new("docs".to_string(), "docs/out.xlsx".to_string());
    config.usuarios.push(Usuario {
        clave: clave.to_string(),
        credenciales: Credenciales { usuario: "u".to_string(), password: "p".to_string() },
    });
    config
}

#[test]
fn empty_range_returns_zero_without_a_browser() {
    for (inicio, final_) in [(5u32, 4u32), (0, 0), (0, 10), (10, 1), (u32::MAX, 1)] {
        for credentials in [true, false] {
            let (harvest, next) =
                Harvest::begin(inicio, final_, credentials, TimeoutPolicy::standard());
            assert_eq!(
                next,
                HarvestMove::Finished {
                    outcome: Ok(ResultadoDescarga {
                        comunicaciones_procesadas: 0,
                        total_comunicaciones: 0
                    })
                }
            );
            assert_eq!(harvest.total, 0);
        }
    }
}

#[test]
fn missing_credentials_are_fatal_before_the_browser() {
    let (_, next) = Harvest::begin(1, 3, false, TimeoutPolicy::standard());
    assert_eq!(next, HarvestMove::Finished { outcome: Err(HarvestError::MissingCredentials) });
    let config = config_with_user("1");
    let (_, next) = descargar_comunicaciones(1, 3, "2", &config);
    assert_eq!(next, HarvestMove::Finished { outcome: Err(HarvestError::MissingCredentials) });
    let (_, next) = descargar_comunicaciones(1, 3, "1", &config);
    assert_eq!(
        next,
        HarvestMove::Continue {
            step: Step { pause_ms: 0, report: None, command: Command::CreateProfile }
        }
    );
}

#[test]
fn whole_range_is_harvested_in_order() {
    let mut portal = Portal::new();
    let outcome = run(1, 3, &mut portal);
    assert_eq!(
        outcome,
        Ok(ResultadoDescarga { comunicaciones_procesadas: 3, total_comunicaciones: 3 })
    );
    let rows: Vec<usize> = portal
        .log
        .iter()
        .filter_map(|s| match s.command {
            Command::Click { selector: Selector::DetailIcon, index } => Some(index),
            _ => None,
        })
        .collect();
    assert_eq!(rows, vec![0, 1, 2]);
    let announced: Vec<Message> = portal
        .reports()
        .into_iter()
        .filter(|m| matches!(m, Message::Downloading { .. }))
        .collect();
    assert_eq!(
        announced,
        vec![
            Message::Downloading { item: 1, ordinal: 1, total: 3 },
            Message::Downloading { item: 2, ordinal: 2, total: 3 },
            Message::Downloading { item: 3, ordinal: 3, total: 3 },
        ]
    );
}

#[test]
fn total_is_the_length_of_the_range() {
    for (inicio, final_) in [(1u32, 1u32), (7, 7), (98, 103), (250, 260), (1, 120)] {
        let mut portal = Portal::new();
        portal.download_icons = 0;
        let outcome = run(inicio, final_, &mut portal).unwrap();
        assert_eq!(outcome.total_comunicaciones, final_ - inicio + 1);
        assert_eq!(outcome.comunicaciones_procesadas, final_ - inicio + 1);
    }
}

#[test]
fn commands_come_in_the_order_of_the_stages() {
    let mut portal = Portal::new();
    run(1, 1, &mut portal).unwrap();
    let commands: Vec<Command> = portal.log.iter().map(|s| s.command).collect();
    let place = |c: Command| commands.iter().position(|x| *x == c).unwrap();
    let profile = place(Command::CreateProfile);
    let launch = place(Command::Launch);
    let navigate = place(Command::Navigate);
    let tab = place(Command::Click { selector: Selector::TabCaption, index: 3 });
    let resize = place(Command::Click { selector: Selector::PlainButton, index: 27 });
    let row = place(Command::Click { selector: Selector::DetailIcon, index: 0 });
    let drain = place(Command::AwaitDownloads { timeout_secs: 30 });
    let silence = place(Command::Silence);
    let close = place(Command::Close);
    let remove = place(Command::RemoveProfile);
    assert!(profile < launch && launch < navigate && navigate < tab && tab < resize);
    assert!(resize < row && row < drain && drain < silence && silence < close && close < remove);
    assert_eq!(remove, commands.len() - 1);
}

#[test]
fn starting_on_a_later_page_skips_pages_first() {
    let mut portal = Portal::new();
    let outcome = run(250, 251, &mut portal).unwrap();
    assert_eq!(outcome.comunicaciones_procesadas, 2);
    assert_eq!(portal.count(|c| *c == Command::Click { selector: Selector::PagingNext, index: 5 }), 2);
    assert!(portal.reports().contains(&Message::AdvancingToPage { page: 3 }));
    let rows: Vec<usize> = portal
        .log
        .iter()
        .filter_map(|s| match s.command {
            Command::Click { selector: Selector::DetailIcon, index } => Some(index),
            _ => None,
        })
        .collect();
    assert_eq!(rows, vec![49, 50]);
}

#[test]
fn crossing_a_page_end_advances_exactly_once() {
    let mut portal = Portal::new();
    let outcome = run(99, 102, &mut portal).unwrap();
    assert_eq!(outcome.comunicaciones_procesadas, 4);
    assert_eq!(portal.count(|c| *c == Command::Click { selector: Selector::PagingNext, index: 5 }), 1);
    let rows: Vec<usize> = portal
        .log
        .iter()
        .filter_map(|s| match s.command {
            Command::Click { selector: Selector::DetailIcon, index } => Some(index),
            _ => None,
        })
        .collect();
    assert_eq!(rows, vec![98, 99, 0, 1]);
}

#[test]
fn batch_that_starts_on_a_page_start_does_not_advance_for_it() {
    let mut portal = Portal::new();
    run(101, 101, &mut portal).unwrap();
    assert_eq!(portal.count(|c| *c == Command::Click { selector: Selector::PagingNext, index: 5 }), 1);
}

#[test]
fn item_that_cannot_be_opened_counts_towards_total_only() {
    let mut portal = Portal::new();
    portal.failing_row = Some(1);
    let outcome = run(1, 3, &mut portal);
    assert_eq!(
        outcome,
        Ok(ResultadoDescarga { comunicaciones_procesadas: 2, total_comunicaciones: 3 })
    );
    assert!(portal.reports().contains(&Message::ItemFailed { item: 2 }));
    assert!(portal.reports().contains(&Message::Downloading { item: 3, ordinal: 2, total: 3 }));
}

#[test]
fn missing_rows_fail_every_item_but_not_the_run() {
    let mut portal = Portal::new();
    portal.rows_on_page = 0;
    let outcome = run(1, 4, &mut portal);
    assert_eq!(
        outcome,
        Ok(ResultadoDescarga { comunicaciones_procesadas: 0, total_comunicaciones: 4 })
    );
    assert_eq!(portal.count(|c| matches!(c, Command::AwaitDownloads { .. })), 1);
}

#[test]
fn unsettled_downloads_do_not_exclude_items() {
    let mut portal = Portal::new();
    portal.downloads_stable = false;
    let outcome = run(1, 2, &mut portal);
    assert_eq!(
        outcome,
        Ok(ResultadoDescarga { comunicaciones_procesadas: 2, total_comunicaciones: 2 })
    );
    assert!(portal.reports().contains(&Message::DownloadsUnconfirmed));
}

#[test]
fn items_without_attachments_never_wait_before_the_drain() {
    let mut portal = Portal::new();
    portal.download_icons = 0;
    run(1, 5, &mut portal).unwrap();
    assert_eq!(portal.count(|c| matches!(c, Command::AwaitDownloads { .. })), 1);
    assert_eq!(portal.count(|c| *c == Command::AwaitDownloads { timeout_secs: 30 }), 1);
}

#[test]
fn open_session_is_signed_out_once() {
    let mut portal = Portal::new();
    portal.login_fields = 0;
    let outcome = run(1, 1, &mut portal);
    assert!(outcome.is_ok());
    assert_eq!(portal.count(|c| matches!(c, Command::Click { selector: Selector::SignOut, .. })), 1);
}

#[test]
fn missing_form_after_retry_aborts_the_run() {
    let mut portal = Portal::new();
    portal.login_fields = 0;
    portal.login_fields_after_sign_out = 1;
    assert_eq!(run(1, 9, &mut portal), Err(HarvestError::Authentication));
    assert_eq!(portal.count(|c| matches!(c, Command::Click { selector: Selector::SignOut, .. })), 1);
    assert_eq!(portal.count(|c| *c == Command::Close), 0);
}

#[test]
fn profile_and_launch_failures_are_fatal() {
    let mut portal = Portal::new();
    portal.profile_ok = false;
    assert_eq!(run(1, 2, &mut portal), Err(HarvestError::ProfileSetup));
    assert_eq!(portal.log.len(), 1);
    let mut portal = Portal::new();
    portal.launch_ok = false;
    assert_eq!(run(1, 2, &mut portal), Err(HarvestError::BrowserLaunch));
    assert_eq!(portal.log.len(), 2);
}

#[test]
fn profile_that_cannot_be_removed_does_not_fail_the_run() {
    let mut portal = Portal::new();
    portal.removal_failures = 99;
    let outcome = run(1, 1, &mut portal);
    assert_eq!(
        outcome,
        Ok(ResultadoDescarga { comunicaciones_procesadas: 1, total_comunicaciones: 1 })
    );
    assert_eq!(portal.count(|c| *c == Command::RemoveProfile), 5);
    assert_eq!(portal.reports().last(), Some(&Message::ProfileLeftBehind));
}

#[test]
fn removal_is_retried_until_it_succeeds() {
    let mut portal = Portal::new();
    portal.removal_failures = 2;
    run(1, 1, &mut portal).unwrap();
    assert_eq!(portal.count(|c| *c == Command::RemoveProfile), 3);
    assert!(!portal.reports().contains(&Message::ProfileLeftBehind));
}

#[test]
fn ended_run_repeats_its_outcome() {
    let (mut harvest, next) = Harvest::begin(3, 2, true, TimeoutPolicy::standard());
    assert_eq!(harvest.advance(Reply::Done), next);
    assert_eq!(harvest.advance(Reply::Failed), next);
    assert!(matches!(harvest.stage, Stage::Ended { .. }));
}

#[test]
fn range_up_to_the_largest_number_begins() {
    let (harvest, next) = Harvest::begin(1, u32::MAX, true, TimeoutPolicy::standard());
    assert_eq!(harvest.total, u32::MAX);
    assert!(matches!(next, HarvestMove::Continue { .. }));
    let (harvest, _) = Harvest::begin(u32::MAX, u32::MAX, true, TimeoutPolicy::standard());
    assert_eq!(harvest.total, 1);
    assert_eq!(harvest.first, u32::MAX);
}

#[test]
fn failures_on_the_way_to_the_list_are_remote_errors() {
    let mut portal = Portal::new();
    portal.navigation_ok = false;
    assert_eq!(run(1, 2, &mut portal), Err(HarvestError::Remote));
    let mut portal = Portal::new();
    portal.tab_click_ok = false;
    assert_eq!(run(1, 2, &mut portal), Err(HarvestError::Remote));
    assert_eq!(portal.count(|c| matches!(c, Command::Click { selector: Selector::DetailIcon, .. })), 0);
}

#[test]
fn state_of_a_run_is_well_formed_all_along() {
    let mut portal = Portal::new();
    portal.failing_row = Some(0);
    let (mut harvest, mut next) = Harvest::begin(1, 3, true, TimeoutPolicy::standard());
    assert!(harvest.is_wf());
    while let HarvestMove::Continue { step } = next {
        let reply = portal.reply(step);
        next = harvest.advance(reply);
        assert!(harvest.is_wf());
    }
    let broken = Harvest { completed: harvest.total + 1, ..harvest };
    assert!(!broken.is_wf());
}
