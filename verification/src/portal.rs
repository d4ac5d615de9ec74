//! The portal's user-interface map.
//!
//! Every positional constant that ties this crate to one version of the
//! portal stands here: the entry address, the class strings behind each
//! selector, and the place of each control among the elements of its class.

use vstd::prelude::*;
use crate::remote::Selector;

verus! {

/// Place of the user-name input among the sign-in form's text inputs.
pub const USERNAME_FIELD: usize = 0;

/// Place of the password input among the sign-in form's text inputs.
pub const PASSWORD_FIELD: usize = 1;

/// Text inputs that the sign-in form shows.
pub const LOGIN_FIELDS: usize = 2;

/// Place of the sign-out control among the elements of its class.
pub const SIGN_OUT: usize = 0;

/// Place of the submit button among the elements of its class.
pub const SUBMIT: usize = 0;

/// Place of the inbox tab among the tab captions.
pub const INBOX_TAB: usize = 3;

/// Place, among the borderless buttons, of the one that makes the list show
/// a hundred items per page.
pub const PAGE_SIZE_BUTTON: usize = 27;

/// Place of the item list's "next page" control among the paging controls.
pub const LIST_NEXT: usize = 5;

/// Place of the attachment list's "next page" control among them.
pub const ATTACHMENTS_NEXT: usize = 1;

/// Place of the first download control that stands for a file: the control
/// before it belongs to the cover entry and downloads nothing.
pub const FIRST_ATTACHMENT: usize = 1;

/// Place of the "back to the list" control among the detail view's buttons.
pub const BACK_BUTTON: usize = 0;

/// Place of the search input among all text inputs.
pub const SEARCH_BOX: usize = 0;

/// Place of the search button among all buttons.
pub const SEARCH_BUTTON: usize = 2;

/// Place, among the borderless buttons, of the one that opens the detail
/// view of a search result.
pub const RESULT_DETAIL_BUTTON: usize = 29;

/// Place of the download control that a search result's detail view offers.
pub const RESULT_DOWNLOAD: usize = 0;

/// The address at which the portal is entered.
pub fn entry_url() -> (url: &'static str)
    ensures
        url@ == "http://euc.gcba.gob.ar/ccoo-web/"@,
{
    "http://euc.gcba.gob.ar/ccoo-web/"
}

/// The class string of each selector.
pub open spec fn spec_css(selector: Selector) -> Seq<char> {
    match selector {
        Selector::FormTextBox => ".form-control.z-textbox"@,
        Selector::SignOut => ".z-icon-sign-out.texto-header-unificado.z-span"@,
        Selector::SubmitButton => ".btn.btn-default.z-button"@,
        Selector::TabCaption => ".z-tab-text"@,
        Selector::PlainButton => ".boton-sin-caja.z-button"@,
        Selector::PagingNext => ".z-paging-button.z-paging-next"@,
        Selector::DetailIcon => ".z-icon-search.z-span"@,
        Selector::DownloadIcon => ".z-icon-download"@,
        Selector::ViewButton => ".btn.z-button"@,
        Selector::TextBox => ".z-textbox"@,
        Selector::Button => ".z-button"@,
    }
}

/// The class string by which the elements of a selector are found.
pub fn css(selector: Selector) -> (class: &'static str)
    ensures
        class@ == spec_css(selector),
{
    match selector {
        Selector::FormTextBox => ".form-control.z-textbox",
        Selector::SignOut => ".z-icon-sign-out.texto-header-unificado.z-span",
        Selector::SubmitButton => ".btn.btn-default.z-button",
        Selector::TabCaption => ".z-tab-text",
        Selector::PlainButton => ".boton-sin-caja.z-button",
        Selector::PagingNext => ".z-paging-button.z-paging-next",
        Selector::DetailIcon => ".z-icon-search.z-span",
        Selector::DownloadIcon => ".z-icon-download",
        Selector::ViewButton => ".btn.z-button",
        Selector::TextBox => ".z-textbox",
        Selector::Button => ".z-button",
    }
}

} // verus!
