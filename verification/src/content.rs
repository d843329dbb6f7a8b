//! The fixed display content: the title bar text, the key-binding legend
//! for the hint bar, the command-line prompt, and the built-in feed list
//! shown at startup.

use crate::feed::{Emphasis, FeedEntry};
use vstd::prelude::*;

verus! {

/// One key-binding legend entry: a key label and the action it stands for.
/// Purely cosmetic; dispatching keys to actions is the driver's job.
#[derive(Debug)]
pub struct HintBinding {
    pub key: String,
    pub action: String,
}

/// The title-bar text.
pub fn title_text() -> (s: String)
    ensures
        s@ == "Newsboat r2.xx - Your feeds"@,
{
    "Newsboat r2.xx - Your feeds".to_owned()
}

/// The command-line prompt.
pub fn command_prompt() -> (s: String)
    ensures
        s@ == ":"@,
{
    ":".to_owned()
}

/// The fixed key-binding legend shown in the hint bar, in display order.
pub fn hint_bindings() -> (v: Vec<HintBinding>)
    ensures
        v@.len() == 9,
        v@[0].key@ == "q"@ && v@[0].action@ == "Quit"@,
        v@[1].key@ == "ENTER"@ && v@[1].action@ == "Open"@,
        v@[2].key@ == "n"@ && v@[2].action@ == "Next unread"@,
        v@[3].key@ == "r"@ && v@[3].action@ == "Reload"@,
        v@[4].key@ == "R"@ && v@[4].action@ == "Reload All"@,
        v@[5].key@ == "A"@ && v@[5].action@ == "Mark Read"@,
        v@[6].key@ == "C"@ && v@[6].action@ == "Mark All Read"@,
        v@[7].key@ == "?"@ && v@[7].action@ == "Search"@,
        v@[8].key@ == "h"@ && v@[8].action@ == "Help"@,
{
    let mut v: Vec<HintBinding> = Vec::new();
    v.push(HintBinding { key: "q".to_owned(), action: "Quit".to_owned() });
    v.push(HintBinding { key: "ENTER".to_owned(), action: "Open".to_owned() });
    v.push(HintBinding { key: "n".to_owned(), action: "Next unread".to_owned() });
    v.push(HintBinding { key: "r".to_owned(), action: "Reload".to_owned() });
    v.push(HintBinding { key: "R".to_owned(), action: "Reload All".to_owned() });
    v.push(HintBinding { key: "A".to_owned(), action: "Mark Read".to_owned() });
    v.push(HintBinding { key: "C".to_owned(), action: "Mark All Read".to_owned() });
    v.push(HintBinding { key: "?".to_owned(), action: "Search".to_owned() });
    v.push(HintBinding { key: "h".to_owned(), action: "Help".to_owned() });
    v
}

/// The built-in demonstration feed list shown at startup: five feeds with
/// pre-formatted unread counters, the unread one bold and the first one
/// accented.
pub fn default_entries() -> (v: Vec<FeedEntry>)
    ensures
        v@.len() == 5,
        v@[0].label@ == "   1     (0/37) Newsboat"@ && v@[0].emphasis == Emphasis::Accent,
        v@[1].label@ == "   2 N  (2/902) xkcd.com"@ && v@[1].emphasis == Emphasis::Bold,
        v@[2].label@ == "   3     (0/11) Software Defeined Radio with HackRF"@ && v@[2].emphasis
            == Emphasis::Plain,
        v@[3].label@ == "   4     (0/23) Debiania"@ && v@[3].emphasis == Emphasis::Plain,
        v@[4].label@ == "   5    (0/190) Ctrl blog"@ && v@[4].emphasis == Emphasis::Plain,
{
    let mut v: Vec<FeedEntry> = Vec::new();
    v.push(FeedEntry {
        label: "   1     (0/37) Newsboat".to_owned(),
        emphasis: Emphasis::Accent,
    });
    v.push(FeedEntry {
        label: "   2 N  (2/902) xkcd.com".to_owned(),
        emphasis: Emphasis::Bold,
    });
    v.push(FeedEntry {
        label: "   3     (0/11) Software Defeined Radio with HackRF".to_owned(),
        emphasis: Emphasis::Plain,
    });
    v.push(FeedEntry {
        label: "   4     (0/23) Debiania".to_owned(),
        emphasis: Emphasis::Plain,
    });
    v.push(FeedEntry {
        label: "   5    (0/190) Ctrl blog".to_owned(),
        emphasis: Emphasis::Plain,
    });
    v
}

} // verus!
