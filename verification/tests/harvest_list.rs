use auto_sade::busqueda_comunicaciones::{
    buscar_comunicaciones, comunicaciones_pendientes, obtener_comunicaciones_sin_organismo,
    recortar_celdas, ErrorExcel, ListHarvest, ListMove, ResultadoBusqueda,
};
use auto_sade::config::{Config, Credenciales, Usuario};
use auto_sade::listed::{ListedItem, ListedMove};
use auto_sade::policy::TimeoutPolicy;
use auto_sade::remote::{Command, Message, Reply, Selector, Step};
use auto_sade::web_automation::HarvestError;

struct Portal {
    text_boxes: usize,
    download_icons: usize,
    download_click_ok: bool,
    stable: bool,
    log: Vec<Step>,
}

impl Portal {
    fn new() -> Portal {
        Portal { text_boxes: 1, download_icons: 1, download_click_ok: true, stable: true, log: Vec::new() }
    }

    fn reply(&mut self, step: Step) -> Reply {
        self.log.push(step);
        match step.command {
            Command::Probe { selector } => Reply::Count {
                found: match selector {
                    Selector::FormTextBox => 2,
                    Selector::TextBox => self.text_boxes,
                    Selector::DownloadIcon => self.download_icons,
                    Selector::PlainButton => 30,
                    Selector::Button => 3,
                    _ => 1,
                },
            },
            Command::Click { selector: Selector::DownloadIcon, .. } => {
                if self.download_click_ok {
                    Reply::Done
                } else {
                    Reply::Failed
                }
            }
            Command::AwaitDownloads { .. } => Reply::Downloads { stable: self.stable },
            _ => Reply::Done,
        }
    }
}

fn drive(total: usize, portal: &mut Portal) -> Result<ResultadoBusqueda, HarvestError> {
    let (mut harvest, mut next) = ListHarvest::begin(total, true, TimeoutPolicy::single_file());
    loop {
        match next {
            ListMove::Finished { outcome } => return outcome,
            ListMove::Continue { step } => {
                let reply = portal.reply(step);
                next = harvest.advance(reply);
                assert!(harvest.completed <= harvest.done && harvest.done <= harvest.total);
            }
        }
    }
}

fn rows(cells: &[&[&str]]) -> Vec<Vec<String>> {
    cells.iter().map(|r| r.iter().map(|c| c.to_string()).collect()).collect()
}

#[test]
fn empty_list_returns_zero_without_a_browser() {
    for credentials in [true, false] {
        let (_, next) = ListHarvest::begin(0, credentials, TimeoutPolicy::single_file());
        assert_eq!(
            next,
            ListMove::Finished {
                outcome: Ok(ResultadoBusqueda {
                    comunicaciones_descargadas: 0,
                    total_comunicaciones: 0
                })
            }
        );
    }
    let config = Config::new(String::new(), String::new());
    let (_, next) = buscar_comunicaciones(&Vec::new(), "1", &config);
    assert!(matches!(next, ListMove::Finished { outcome: Ok(_) }));
}

#[test]
fn list_without_account_is_an_error() {
    let config = Config::new(String::new(), String::new());
    let ids = vec!["NO-2024-1".to_string()];
    let (_, next) = buscar_comunicaciones(&ids, "1", &config);
    assert_eq!(next, ListMove::Finished { outcome: Err(HarvestError::MissingCredentials) });
}

#[test]
fn list_with_account_begins_with_the_profile() {
    let mut config = Config::new(String::new(), String::new());
    config.usuarios.push(Usuario {
        clave: "2".to_string(),
        credenciales: Credenciales { usuario: "u".to_string(), password: "p".to_string() },
    });
    let ids = vec!["a".to_string(), "b".to_string()];
    let (harvest, next) = buscar_comunicaciones(&ids, "2", &config);
    assert_eq!(harvest.total, 2);
    assert_eq!(
        next,
        ListMove::Continue {
            step: Step { pause_ms: 0, report: None, command: Command::CreateProfile }
        }
    );
}

#[test]
fn every_listed_item_is_searched_in_order() {
    let mut portal = Portal::new();
    let outcome = drive(3, &mut portal);
    assert_eq!(
        outcome,
        Ok(ResultadoBusqueda { comunicaciones_descargadas: 3, total_comunicaciones: 3 })
    );
    let searched: Vec<usize> = portal
        .log
        .iter()
        .filter_map(|s| match s.command {
            Command::EnterSearch { position } => Some(position),
            _ => None,
        })
        .collect();
    assert_eq!(searched, vec![0, 1, 2]);
    let told: Vec<Message> = portal
        .log
        .iter()
        .filter_map(|s| s.report)
        .filter(|m| matches!(m, Message::DownloadingListed { .. }))
        .collect();
    assert_eq!(
        told,
        vec![
            Message::DownloadingListed { position: 0, number: 1, count: 3 },
            Message::DownloadingListed { position: 1, number: 2, count: 3 },
            Message::DownloadingListed { position: 2, number: 3, count: 3 },
        ]
    );
}

#[test]
fn listed_item_clicks_the_expected_controls() {
    let (mut item, first) = ListedItem::start(4, TimeoutPolicy::single_file());
    assert_eq!(first, Command::Probe { selector: Selector::TextBox });
    let mut commands = Vec::new();
    let replies = [
        Reply::Count { found: 1 },
        Reply::Done,
        Reply::Done,
        Reply::Count { found: 3 },
        Reply::Done,
        Reply::Count { found: 30 },
        Reply::Done,
        Reply::Count { found: 1 },
        Reply::Done,
        Reply::Downloads { stable: true },
        Reply::Count { found: 1 },
        Reply::Done,
    ];
    let mut last = None;
    for reply in replies {
        match item.advance(reply) {
            ListedMove::Continue { step } => commands.push(step.command),
            done => last = Some(done),
        }
    }
    assert_eq!(last, Some(ListedMove::Finished { completed: true }));
    assert_eq!(
        commands,
        vec![
            Command::Click { selector: Selector::TextBox, index: 0 },
            Command::EnterSearch { position: 4 },
            Command::Probe { selector: Selector::Button },
            Command::Click { selector: Selector::Button, index: 2 },
            Command::Probe { selector: Selector::PlainButton },
            Command::Click { selector: Selector::PlainButton, index: 29 },
            Command::Probe { selector: Selector::DownloadIcon },
            Command::Click { selector: Selector::DownloadIcon, index: 0 },
            Command::AwaitDownloads { timeout_secs: 30 },
            Command::Probe { selector: Selector::ViewButton },
            Command::Click { selector: Selector::ViewButton, index: 0 },
        ]
    );
}

#[test]
fn missing_search_box_fails_every_item() {
    let mut portal = Portal::new();
    portal.text_boxes = 0;
    let outcome = drive(2, &mut portal);
    assert_eq!(
        outcome,
        Ok(ResultadoBusqueda { comunicaciones_descargadas: 0, total_comunicaciones: 2 })
    );
    let failures: Vec<Message> = portal
        .log
        .iter()
        .filter_map(|s| s.report)
        .filter(|m| matches!(m, Message::ListedItemFailed { .. }))
        .collect();
    assert_eq!(
        failures,
        vec![Message::ListedItemFailed { position: 0 }, Message::ListedItemFailed { position: 1 }]
    );
}

#[test]
fn missing_download_control_fails_the_item() {
    let mut portal = Portal::new();
    portal.download_icons = 0;
    let outcome = drive(2, &mut portal).unwrap();
    assert_eq!(outcome.comunicaciones_descargadas, 0);
    assert_eq!(outcome.total_comunicaciones, 2);
}

#[test]
fn failed_download_click_fails_the_item() {
    let mut portal = Portal::new();
    portal.download_click_ok = false;
    let outcome = drive(1, &mut portal).unwrap();
    assert_eq!(outcome.comunicaciones_descargadas, 0);
}

#[test]
fn unsettled_download_still_completes_the_item() {
    let mut portal = Portal::new();
    portal.stable = false;
    let outcome = drive(2, &mut portal).unwrap();
    assert_eq!(outcome.comunicaciones_descargadas, 2);
}

#[test]
fn pending_communications_are_read_off_the_rows() {
    let sheet = rows(&[
        &[" CCOO N° ", "ORGANISMO", "Fecha"],
        &["NO-2024-1", "", "x"],
        &["NO-2024-2", "DGCG", "x"],
        &["  NO-2024-3  ", "   ", "x"],
        &["", "", "x"],
        &["   ", "", "x"],
        &["NO-2024-4"],
        &[],
    ]);
    assert_eq!(
        obtener_comunicaciones_sin_organismo(&sheet),
        Ok(vec!["NO-2024-1".to_string(), "NO-2024-3".to_string(), "NO-2024-4".to_string()])
    );
}

#[test]
fn columns_are_found_wherever_they_stand() {
    let sheet = rows(&[
        &["x", "ORGANISMO", "y", "CCOO N°", "CCOO N°"],
        &["1", "", "2", "tres", "cuatro"],
        &["1", "algo", "2", "cinco", "seis"],
    ]);
    assert_eq!(obtener_comunicaciones_sin_organismo(&sheet), Ok(vec!["tres".to_string()]));
}

#[test]
fn sheet_errors() {
    assert_eq!(obtener_comunicaciones_sin_organismo(&Vec::new()), Err(ErrorExcel::Vacio));
    assert_eq!(
        obtener_comunicaciones_sin_organismo(&rows(&[&["ORGANISMO"]])),
        Err(ErrorExcel::SinColumnaCcoo)
    );
    assert_eq!(
        obtener_comunicaciones_sin_organismo(&rows(&[&["a", "b"]])),
        Err(ErrorExcel::SinColumnaCcoo)
    );
    assert_eq!(
        obtener_comunicaciones_sin_organismo(&rows(&[&["CCOO N°", "organismo"]])),
        Err(ErrorExcel::SinColumnaOrganismo)
    );
    assert_eq!(
        obtener_comunicaciones_sin_organismo(&rows(&[&["CCOO N°", "ORGANISMO"]])),
        Ok(Vec::new())
    );
}

#[test]
fn cells_are_trimmed() {
    let sheet = rows(&[&[" a ", "b\t", "\u{a0}c"], &[], &["  ", "d e"]]);
    assert_eq!(recortar_celdas(&sheet), rows(&[&["a", "b", "c"], &[], &["", "d e"]]));
}

#[test]
fn trimmed_rows_are_read_as_they_stand() {
    let sheet = rows(&[
        &["CCOO N°", "ORGANISMO"],
        &["uno", ""],
        &["dos", " "],
        &[" ", ""],
        &["", ""],
        &["tres"],
    ]);
    assert_eq!(
        comunicaciones_pendientes(&sheet),
        Ok(vec!["uno".to_string(), " ".to_string(), "tres".to_string()])
    );
    assert_eq!(
        comunicaciones_pendientes(&rows(&[&[" CCOO N°", "ORGANISMO"]])),
        Err(ErrorExcel::SinColumnaCcoo)
    );
    assert_eq!(comunicaciones_pendientes(&Vec::new()), Err(ErrorExcel::Vacio));
}

#[test]
fn state_of_a_list_run_is_well_formed_all_along() {
    let mut portal = Portal::new();
    let (mut harvest, mut next) = ListHarvest::begin(2, true, TimeoutPolicy::single_file());
    assert!(harvest.is_wf());
    while let ListMove::Continue { step } = next {
        let reply = portal.reply(step);
        next = harvest.advance(reply);
        assert!(harvest.is_wf());
    }
    assert_eq!(
        next,
        ListMove::Finished {
            outcome: Ok(ResultadoBusqueda {
                comunicaciones_descargadas: 2,
                total_comunicaciones: 2
            })
        }
    );
    let broken = ListHarvest { done: 3, ..harvest };
    assert!(!broken.is_wf());
}

#[test]
fn list_run_shuts_down_in_order() {
    let mut portal = Portal::new();
    drive(1, &mut portal).unwrap();
    let commands: Vec<Command> = portal.log.iter().map(|s| s.command).collect();
    let place = |c: Command| commands.iter().position(|x| *x == c).unwrap();
    let drain = commands
        .iter()
        .rposition(|c| matches!(c, Command::AwaitDownloads { .. }))
        .unwrap();
    assert!(drain < place(Command::Silence));
    assert!(place(Command::Silence) < place(Command::Close));
    assert!(place(Command::Close) < place(Command::RemoveProfile));
}
