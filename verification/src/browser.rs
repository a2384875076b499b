//! The closed enumeration of browsers that installation guides exist for,
//! with the wire values and display labels used by the selector control.
use vstd::prelude::*;
use vstd::string::StrSliceExecFns;

verus! {

/// A browser from the closed enumeration. The set is fixed at compile time;
/// every guide, selector option and selection value refers to one of these.
#[derive(Clone, Copy, PartialEq, Eq, Structural, Debug)]
pub enum Browser {
    Chromium,
    Firefox,
    Edge,
    Safari,
}

/// The machine-readable value a selector option carries for a browser; the
/// same value is accepted as the optional command argument.
pub open spec fn browser_value_spec(b: Browser) -> Seq<char> {
    match b {
        Browser::Chromium => "chromium"@,
        Browser::Firefox => "firefox"@,
        Browser::Edge => "edge"@,
        Browser::Safari => "safari"@,
    }
}

/// The human-readable label a selector option shows for a browser.
pub open spec fn browser_label_spec(b: Browser) -> Seq<char> {
    match b {
        Browser::Chromium => "Chromium"@,
        Browser::Firefox => "Firefox"@,
        Browser::Edge => "Microsoft Edge"@,
        Browser::Safari => "Safari"@,
    }
}

/// Which browser, if any, a free-form name denotes: exactly the four wire
/// values are recognized, anything else is not.
pub open spec fn parse_browser_spec(s: Seq<char>) -> Option<Browser> {
    if s == "chromium"@ {
        Some(Browser::Chromium)
    } else if s == "firefox"@ {
        Some(Browser::Firefox)
    } else if s == "edge"@ {
        Some(Browser::Edge)
    } else if s == "safari"@ {
        Some(Browser::Safari)
    } else {
        None
    }
}

/// All browsers, in the order the selector offers them; the first one is the
/// default when no browser is requested.
pub open spec fn all_browsers() -> Seq<Browser> {
    seq![Browser::Chromium, Browser::Firefox, Browser::Edge, Browser::Safari]
}

/// Character-by-character string comparison, so that equality of the views
/// is decided in executable code.
pub(crate) fn str_eq(a: &str, b: &str) -> (r: bool)
    ensures
        r == (a@ == b@),
{
    let n = a.unicode_len();
    let m = b.unicode_len();
    if n != m {
        assert(a@ != b@) by {
            assert(a@.len() != b@.len());
        }
        return false;
    }
    let mut i: usize = 0;
    while i < n
        invariant
            n == a@.len(),
            n == b@.len(),
            i <= n,
            forall|j: int| 0 <= j < i ==> a@[j] == b@[j],
        decreases n - i,
    {
        if a.get_char(i) != b.get_char(i) {
            assert(a@ != b@) by {
                assert(a@[i as int] != b@[i as int]);
            }
            return false;
        }
        i += 1;
    }
    assert(a@ =~= b@);
    true
}

/// Recognizes a browser name, or rejects it.
pub fn parse_browser(s: &str) -> (r: Option<Browser>)
    ensures
        r == parse_browser_spec(s@),
{
    if str_eq(s, "chromium") {
        Some(Browser::Chromium)
    } else if str_eq(s, "firefox") {
        Some(Browser::Firefox)
    } else if str_eq(s, "edge") {
        Some(Browser::Edge)
    } else if str_eq(s, "safari") {
        Some(Browser::Safari)
    } else {
        None
    }
}

/// The wire value of a browser.
pub fn browser_value(b: Browser) -> (r: &'static str)
    ensures
        r@ == browser_value_spec(b),
{
    match b {
        Browser::Chromium => "chromium",
        Browser::Firefox => "firefox",
        Browser::Edge => "edge",
        Browser::Safari => "safari",
    }
}

/// The display label of a browser.
pub fn browser_label(b: Browser) -> (r: &'static str)
    ensures
        r@ == browser_label_spec(b),
{
    match b {
        Browser::Chromium => "Chromium",
        Browser::Firefox => "Firefox",
        Browser::Edge => "Microsoft Edge",
        Browser::Safari => "Safari",
    }
}

/// All browsers, in selector order.
pub fn browser_list() -> (r: Vec<Browser>)
    ensures
        r@ == all_browsers(),
{
    let mut v: Vec<Browser> = Vec::new();
    v.push(Browser::Chromium);
    v.push(Browser::Firefox);
    v.push(Browser::Edge);
    v.push(Browser::Safari);
    assert(v@ =~= all_browsers());
    v
}

/// Every browser's wire value is recognized, and denotes that browser: the
/// selector options and the parser agree by construction.
pub proof fn lemma_browser_value_round_trip(b: Browser)
    ensures
        parse_browser_spec(browser_value_spec(b)) == Some(b),
{
    reveal_strlit("chromium");
    reveal_strlit("firefox");
    reveal_strlit("edge");
    reveal_strlit("safari");
    assert("chromium"@.len() == 8);
    assert("firefox"@.len() == 7);
    assert("edge"@.len() == 4);
    assert("safari"@.len() == 6);
}

} // verus!
