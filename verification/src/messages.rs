//! The words in which progress, warnings and errors are told, and the
//! script that enters an identifier into the portal's search.

use vstd::prelude::*;
use crate::remote::Message;
use crate::text::{decimal, spec_decimal};
use crate::web_automation::HarvestError;

verus! {

/// The identifier at `position` of the list, or the empty text where the
/// list is too short.
pub open spec fn spec_identifier(items: Seq<String>, position: usize) -> Seq<char> {
    if position < items.len() {
        items[position as int]@
    } else {
        Seq::empty()
    }
}

/// The words for a message. `items` is the list of identifiers of a run
/// over a list; a run over a range has none.
pub open spec fn spec_words(message: Message, items: Seq<String>) -> Seq<char> {
    match message {
        Message::StartingBrowser => "Iniciando navegador..."@,
        Message::NavigatingToPortal => "Navegando a SADE..."@,
        Message::SigningIn => "Iniciando sesión..."@,
        Message::ExistingSession => "Sesión existente detectada, cerrando sesión..."@,
        Message::NavigatingAgain => "Navegando a SADE nuevamente..."@,
        Message::EnteringCredentials => "Ingresando credenciales..."@,
        Message::OpeningInbox => "Navegando a Bandeja CO..."@,
        Message::DownloadsUnconfirmed => "Advertencia: Algunas descargas pueden no haber terminado"@,
        Message::Finishing => "Finalizando..."@,
        Message::ClosingBrowser => "Cerrando navegador..."@,
        Message::ProfileLeftBehind => "Advertencia: No se pudo limpiar el perfil temporal tras varios intentos"@,
        Message::AdvancingToPage { page } => "Avanzando a página "@ + spec_decimal(page as nat)
            + "..."@,
        Message::Downloading { item, ordinal, total } => "Descargando comunicación "@
            + spec_decimal(item as nat) + " ("@ + spec_decimal(ordinal as nat) + " de "@
            + spec_decimal(total as nat) + ")"@,
        Message::DownloadingListed { position, number, count } => "Descargando comunicación "@
            + spec_decimal(number as nat) + " de "@ + spec_decimal(count as nat) + ": "@
            + spec_identifier(items, position),
        Message::ItemFailed { item } => "Error al hacer clic en comunicación "@ + spec_decimal(
            item as nat,
        ),
        Message::ListedItemFailed { position } => "Error al descargar comunicación "@
            + spec_identifier(items, position),
        Message::AttachmentFailed { index } => "Error descargando archivo "@ + spec_decimal(
            index as nat,
        ),
    }
}

fn identifier(items: &Vec<String>, position: usize) -> (id: String)
    ensures
        id@ == spec_identifier(items@, position),
{
    if position < items.len() {
        items[position].clone()
    } else {
        String::new()
    }
}

/// Puts a message into words.
pub fn words(message: Message, items: &Vec<String>) -> (text: String)
    ensures
        text@ == spec_words(message, items@),
{
    match message {
        Message::StartingBrowser => String::from_str("Iniciando navegador..."),
        Message::NavigatingToPortal => String::from_str("Navegando a SADE..."),
        Message::SigningIn => String::from_str("Iniciando sesión..."),
        Message::ExistingSession => String::from_str("Sesión existente detectada, cerrando sesión..."),
        Message::NavigatingAgain => String::from_str("Navegando a SADE nuevamente..."),
        Message::EnteringCredentials => String::from_str("Ingresando credenciales..."),
        Message::OpeningInbox => String::from_str("Navegando a Bandeja CO..."),
        Message::DownloadsUnconfirmed => String::from_str("Advertencia: Algunas descargas pueden no haber terminado"),
        Message::Finishing => String::from_str("Finalizando..."),
        Message::ClosingBrowser => String::from_str("Cerrando navegador..."),
        Message::ProfileLeftBehind => String::from_str("Advertencia: No se pudo limpiar el perfil temporal tras varios intentos"),
        Message::AdvancingToPage { page } => String::from_str("Avanzando a página ").concat(
            decimal(page as u128).as_str(),
        ).concat("..."),
        Message::Downloading { item, ordinal, total } => String::from_str(
            "Descargando comunicación ",
        ).concat(decimal(item as u128).as_str()).concat(" (").concat(
            decimal(ordinal as u128).as_str(),
        ).concat(" de ").concat(decimal(total as u128).as_str()).concat(")"),
        Message::DownloadingListed { position, number, count } => String::from_str(
            "Descargando comunicación ",
        ).concat(decimal(number as u128).as_str()).concat(" de ").concat(
            decimal(count as u128).as_str(),
        ).concat(": ").concat(identifier(items, position).as_str()),
        Message::ItemFailed { item } => String::from_str(
            "Error al hacer clic en comunicación ",
        ).concat(decimal(item as u128).as_str()),
        Message::ListedItemFailed { position } => String::from_str(
            "Error al descargar comunicación ",
        ).concat(identifier(items, position).as_str()),
        Message::AttachmentFailed { index } => String::from_str(
            "Error descargando archivo ",
        ).concat(decimal(index as u128).as_str()),
    }
}

/// Whether a message tells of something that went wrong, rather than of
/// progress.
pub open spec fn spec_is_warning(message: Message) -> bool {
    message is ItemFailed || message is ListedItemFailed || message is AttachmentFailed
        || message is DownloadsUnconfirmed || message is ProfileLeftBehind
}

/// Tests whether a message tells of something that went wrong.
pub fn is_warning(message: Message) -> (warning: bool)
    ensures
        warning == spec_is_warning(message),
{
    match message {
        Message::ItemFailed { .. } => true,
        Message::ListedItemFailed { .. } => true,
        Message::AttachmentFailed { .. } => true,
        Message::DownloadsUnconfirmed => true,
        Message::ProfileLeftBehind => true,
        _ => false,
    }
}

/// The words for an error that ends a run.
pub open spec fn spec_error_words(error: HarvestError) -> Seq<char> {
    match error {
        HarvestError::MissingCredentials => "Credenciales de usuario no encontradas"@,
        HarvestError::ProfileSetup => "No se pudo crear directorio del perfil"@,
        HarvestError::BrowserLaunch => "Error al iniciar navegador"@,
        HarvestError::Authentication => "No se encontraron los campos de login después de intentar logout"@,
        HarvestError::Remote => "Error al navegar a SADE"@,
    }
}

/// Puts an error that ends a run into words.
pub fn error_words(error: HarvestError) -> (text: &'static str)
    ensures
        text@ == spec_error_words(error),
{
    match error {
        HarvestError::MissingCredentials => "Credenciales de usuario no encontradas",
        HarvestError::ProfileSetup => "No se pudo crear directorio del perfil",
        HarvestError::BrowserLaunch => "Error al iniciar navegador",
        HarvestError::Authentication => "No se encontraron los campos de login después de intentar logout",
        HarvestError::Remote => "Error al navegar a SADE",
    }
}

/// The script that puts `id` into the first text input of the page and
/// tells the page that the input has changed.
pub open spec fn spec_search_script(id: Seq<char>) -> Seq<char> {
    "(function() { var input = document.querySelectorAll('.z-textbox')[0]; if (input) { input.value = '"@
        + id
        + "'; input.dispatchEvent(new Event('input', { bubbles: true })); input.dispatchEvent(new Event('change', { bubbles: true })); } })();"@
}

/// The script that enters the identifier `id` into the portal's search.
pub fn search_script(id: &str) -> (script: String)
    ensures
        script@ == spec_search_script(id@),
{
    String::from_str(
        "(function() { var input = document.querySelectorAll('.z-textbox')[0]; if (input) { input.value = '",
    ).concat(id).concat(
        "'; input.dispatchEvent(new Event('input', { bubbles: true })); input.dispatchEvent(new Event('change', { bubbles: true })); } })();",
    )
}

} // verus!
