//! The static installation guides — one embed per browser — and the selector
//! control offered alongside them. All of it is fixed at compile time.
use vstd::prelude::*;
use vstd::string::StringExecFns;

use crate::browser::Browser;
use crate::browser::all_browsers;
use crate::browser::browser_label;
use crate::browser::browser_label_spec;
use crate::browser::browser_list;
use crate::browser::browser_value;
use crate::browser::browser_value_spec;

verus! {

/// The displayed content of a guide message: a rich embed with a title, a
/// body, and an author byline with icon and link.
pub struct Embed {
    pub title: String,
    pub body: String,
    pub author_name: String,
    pub author_icon_url: String,
    pub author_url: String,
}

/// One option of the dropdown selector.
pub struct SelectorOption {
    pub label: String,
    pub value: String,
}

/// The dropdown selector attached to a guide message. Its tag identifies the
/// control in selection events.
pub struct Selector {
    pub tag: String,
    pub placeholder: String,
    pub options: Vec<SelectorOption>,
}

pub open spec fn author_name_spec() -> Seq<char> {
    "Installation Guide"@
}

pub open spec fn author_icon_url_spec() -> Seq<char> {
    "https://github.com/schooltape/schooltape/raw/main/assets/schooltape-logo.png"@
}

pub open spec fn author_url_spec() -> Seq<char> {
    "https://github.com/schooltape/schooltape/wiki/Getting-Started#installation"@
}

/// The embed title shown for a browser.
pub open spec fn guide_title_spec(b: Browser) -> Seq<char> {
    match b {
        Browser::Chromium => "<:chromium:1246037483192582175> Chromium"@,
        Browser::Firefox => "<:firefox:1246037481975971870> Firefox"@,
        Browser::Edge => "<:edge:1246037472761217065> Edge"@,
        Browser::Safari => "<:safari:1246037470840094720> Safari"@,
    }
}

/// The static instructional text shown for a browser.
pub open spec fn guide_body_spec(b: Browser) -> Seq<char> {
    match b {
        Browser::Chromium => "\n1. Download the `Source code (zip)` from the [releases page](https://github.com/schooltape/schooltape/releases/latest).\n2. Unzip the file.\n3. Navigate to `chrome://extensions`\n4. Turn on __Developer Mode__ at the top right.\n5. Click the __Load Unpacked__ button near the top left, select the folder you downloaded and navigate to `/schooltape/src` and click ok.\n6. Done! Options can be found in the right click context menu, and use left click to toggle.\n        "@,
        Browser::Firefox => "\n1. Download the `schooltape-X.X.X.xpi` from the [releases page](https://github.com/schooltape/schooltape/releases/latest).\n2. Click install\n3. Done! Options can be found in the right click context menu, and use left click to toggle.\n        "@,
        Browser::Edge => "\n1. Download the `Source code (zip)` from the [releases page](https://github.com/schooltape/schooltape/releases/latest).\n2. Unzip the file.\n3. Navigate to `edge://extensions`\n4. Turn on __Developer Mode__ near the bottom left.\n5. Click the __Load Unpacked__ button near the top right, select the folder you downloaded and navigate to `/schooltape/src` and click ok.\n6. Scroll down until you find a heading that says __From other sources__.\n7. Done! Options can be found in the right click context menu, and use left click to toggle.\n        "@,
        Browser::Safari => "\nSorry, Safari is not supported at this time.\n        "@,
    }
}

/// What it means for an embed to display exactly the guide of a browser.
pub open spec fn embed_matches(e: Embed, b: Browser) -> bool {
    &&& e.title@ == guide_title_spec(b)
    &&& e.body@ == guide_body_spec(b)
    &&& e.author_name@ == author_name_spec()
    &&& e.author_icon_url@ == author_icon_url_spec()
    &&& e.author_url@ == author_url_spec()
}

/// The embed title shown for a browser.
fn guide_title(b: Browser) -> (r: &'static str)
    ensures
        r@ == guide_title_spec(b),
{
    match b {
        Browser::Chromium => "<:chromium:1246037483192582175> Chromium",
        Browser::Firefox => "<:firefox:1246037481975971870> Firefox",
        Browser::Edge => "<:edge:1246037472761217065> Edge",
        Browser::Safari => "<:safari:1246037470840094720> Safari",
    }
}

/// The static instructional text shown for a browser.
pub fn guide_body(b: Browser) -> (r: &'static str)
    ensures
        r@ == guide_body_spec(b),
{
    match b {
        Browser::Chromium => "\n1. Download the `Source code (zip)` from the [releases page](https://github.com/schooltape/schooltape/releases/latest).\n2. Unzip the file.\n3. Navigate to `chrome://extensions`\n4. Turn on __Developer Mode__ at the top right.\n5. Click the __Load Unpacked__ button near the top left, select the folder you downloaded and navigate to `/schooltape/src` and click ok.\n6. Done! Options can be found in the right click context menu, and use left click to toggle.\n        ",
        Browser::Firefox => "\n1. Download the `schooltape-X.X.X.xpi` from the [releases page](https://github.com/schooltape/schooltape/releases/latest).\n2. Click install\n3. Done! Options can be found in the right click context menu, and use left click to toggle.\n        ",
        Browser::Edge => "\n1. Download the `Source code (zip)` from the [releases page](https://github.com/schooltape/schooltape/releases/latest).\n2. Unzip the file.\n3. Navigate to `edge://extensions`\n4. Turn on __Developer Mode__ near the bottom left.\n5. Click the __Load Unpacked__ button near the top right, select the folder you downloaded and navigate to `/schooltape/src` and click ok.\n6. Scroll down until you find a heading that says __From other sources__.\n7. Done! Options can be found in the right click context menu, and use left click to toggle.\n        ",
        Browser::Safari => "\nSorry, Safari is not supported at this time.\n        ",
    }
}

/// Builds the embed that displays a browser's guide.
pub fn embed_for(b: Browser) -> (e: Embed)
    ensures
        embed_matches(e, b),
{
    Embed {
        title: guide_title(b).to_owned(),
        body: guide_body(b).to_owned(),
        author_name: "Installation Guide".to_owned(),
        author_icon_url: "https://github.com/schooltape/schooltape/raw/main/assets/schooltape-logo.png".to_owned(),
        author_url: "https://github.com/schooltape/schooltape/wiki/Getting-Started#installation".to_owned(),
    }
}

/// The tag every selector carries, and that valid selection events must match.
pub open spec fn selector_tag_spec() -> Seq<char> {
    "browsers"@
}

/// What it means for a selector to be the full browser selector: the right
/// tag and placeholder, and one option per browser, in order, labelled and
/// valued by the enumeration.
pub open spec fn selector_wf(s: Selector) -> bool {
    &&& s.tag@ == selector_tag_spec()
    &&& s.placeholder@ == "Select a browser"@
    &&& s.options@.len() == all_browsers().len()
    &&& forall|i: int|
        0 <= i < all_browsers().len() ==> {
            &&& (#[trigger] s.options@[i]).label@ == browser_label_spec(all_browsers()[i])
            &&& s.options@[i].value@ == browser_value_spec(all_browsers()[i])
        }
}

/// Builds the browser selector offered with every guide message.
pub fn selector_new() -> (s: Selector)
    ensures
        selector_wf(s),
{
    let browsers = browser_list();
    let mut options: Vec<SelectorOption> = Vec::new();
    let mut i: usize = 0;
    while i < browsers.len()
        invariant
            browsers@ == all_browsers(),
            i <= browsers@.len(),
            options@.len() == i,
            forall|j: int|
                0 <= j < i ==> {
                    &&& (#[trigger] options@[j]).label@ == browser_label_spec(all_browsers()[j])
                    &&& options@[j].value@ == browser_value_spec(all_browsers()[j])
                },
        decreases browsers@.len() - i,
    {
        let b = browsers[i];
        options.push(SelectorOption {
            label: browser_label(b).to_owned(),
            value: browser_value(b).to_owned(),
        });
        i += 1;
    }
    Selector {
        tag: "browsers".to_owned(),
        placeholder: "Select a browser".to_owned(),
        options,
    }
}

} // verus!
