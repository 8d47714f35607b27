//! The pages the harness visits and the selectors by which it finds the
//! extension's elements on them. All of it is fixed configuration.

use vstd::prelude::*;

verus! {

/// The container that the extension injects its diagram into.
pub const DIAGRAM_CONTAINER: &'static str =
    "#main-content > div.docblock.item-decl > div > div > div.railroad_container, #main > div.docblock.type-decl > div > div > div.railroad_container";

/// The control that opens the options panel.
pub const OPTIONS: &'static str =
    "#main-content > div.docblock.item-decl > div > div > div.railroad_container > div > div > img, #main > div.docblock.type-decl > div > div > div.railroad_container";

/// The control that shows the diagram on the full screen.
pub const OPT_FULLSCREEN: &'static str =
    "#main-content > div.docblock.item-decl > div > div > div.railroad_container > div > img, #main > div.docblock.type-decl > div > div > div.railroad_container";

/// The label of a declaration that is shown collapsed; clicking it expands
/// the declaration.
pub const COLLAPSED_TOGGLE: &'static str = "#main > div.toggle-wrapper.collapsed > a > span.toggle-label";

/// The legend drawn into the diagram.
pub const LEGEND: &'static str =
    "#main-content > div.docblock.item-decl > div > div > div.railroad_container > svg > g > g.legend, #main > div.docblock.type-decl > div > div > div.railroad_container > svg > g > g.legend";

/// The main content region of a documentation page.
pub const MAIN: &'static str = "#main-content, #main";

/// The container of the full-screen view.
pub const MODAL_CONTAINER: &'static str =
    "#main-content > div.docblock.item-decl > div > div > div.railroad_modal, #main > div.docblock.type-decl > div > div > div.railroad_modal";

/// The entry of the options panel that switches the legend on and off.
pub const OPT_LEGEND: &'static str =
    "#main-content > div.docblock.item-decl > div > div > div.railroad_container > div.railroad_dropdown_content.railroad_dropdown_show > ul > li:nth-child(4) > label, #main > div.docblock.type-decl > div > div > div.railroad_container > div.railroad_dropdown_content.railroad_dropdown_show > ul > li:nth-child(4) > label";

/// The block that shows the macro's declaration as text.
pub const MACRO_BLOCK: &'static str =
    "#main-content > div.docblock.item-decl > div > div > pre, #main > div.docblock.type-decl > div > div > pre";

/// The diagram container, as the placement checks look it up.
pub const RAILROAD_CONTAINER: &'static str =
    "#main-content > div.docblock.item-decl > div > div > div.railroad_container, #main > div.docblock.type-decl > div > div > div.railroad_container";

/// The options panel while it is open.
pub const DROPDOWN_CONTAINER: &'static str =
    "#main-content > div.docblock.item-decl > div > div > div.railroad_container > div.railroad_dropdown_content.railroad_dropdown_show, #main > div.docblock.type-decl > div > div > div.railroad_container > div.railroad_dropdown_content.railroad_dropdown_show";

/// The page of the macro `named_attr` of `nom`.
pub const URL_NAMED: &'static str = "https://docs.rs/nom/4.2.2/nom/macro.named_attr.html";

/// The reference page: the macro `panic` of the standard library.
pub const URL_PANIC: &'static str = "https://doc.rust-lang.org/std/macro.panic.html";

/// The page of the macro `info` of `tracing`.
pub const URL_INFO: &'static str = "https://docs.rs/tracing/0.1.36/tracing/macro.info.html";

/// The page of the macro `bitflags` of `bitflags`.
pub const URL_BITFLAGS: &'static str = "https://docs.rs/bitflags/1.1.0/bitflags/macro.bitflags.html";

/// What a documentation page that is ready looks like: its address, and the
/// selector of the element whose presence makes it ready.
#[derive(Clone, Copy, Debug, PartialEq, Eq)]
pub struct PageTarget<'a> {
    pub url: &'a str,
    pub ready: &'a str,
}

/// The page at `url`, ready once the diagram container is there.
pub open spec fn macro_page<'a>(url: &'a str) -> PageTarget<'a> {
    PageTarget { url, ready: DIAGRAM_CONTAINER }
}

impl<'a> PageTarget<'a> {
    /// The page at `url`, ready once the diagram container is there.
    pub fn macro_page(url: &'a str) -> (r: PageTarget<'a>)
        ensures
            r == macro_page(url),
    {
        PageTarget { url, ready: DIAGRAM_CONTAINER }
    }
}

} // verus!
