//! The session state the browser persists between runs: open tabs with
//! their histories, the selected tab, the theme, and the toggles. The
//! application reads and writes the state file; this module says what a
//! fresh state is and when a stored one is sound enough to use.

use vstd::prelude::*;
use crate::downloads::Download;

verus! {

/// Everything the browser persists between runs.
#[derive(Debug, Clone)]
pub struct AppState {
    pub tabs: Vec<TabState>,
    pub current_tab: usize,
    pub theme: ThemeMode,
    pub adblock_enabled: bool,
    pub vpn_enabled: bool,
    pub downloads: Vec<Download>,
}

/// One open tab: its address, its per-tab history, and where in that
/// history it stands.
#[derive(Debug, Clone)]
pub struct TabState {
    pub url: String,
    pub title: String,
    pub pinned: bool,
    pub incognito: bool,
    pub history: Vec<String>,
    pub history_pos: usize,
}

/// The colour scheme the UI follows.
#[derive(Debug, Clone, Copy, PartialEq, Eq, Structural)]
pub enum ThemeMode {
    Light,
    Dark,
    System,
}

impl TabState {
    /// A tab is sound when its history position names an entry of its
    /// history.
    pub open spec fn wf(self) -> bool {
        self.history_pos < self.history@.len()
    }
}

impl AppState {
    /// A state is sound when the selected tab exists (or there is no tab to
    /// select) and every tab is sound.
    pub open spec fn wf(self) -> bool {
        &&& self.current_tab < self.tabs@.len() || (self.tabs@.len() == 0 && self.current_tab
            == 0)
        &&& forall|i: int| 0 <= i < self.tabs@.len() ==> self.tabs@[i].wf()
    }

    /// Decide [`AppState::wf`], so that the application can fall back to a
    /// fresh state when a stored one is unsound.
    pub fn is_wf(&self) -> (r: bool)
        ensures
            r == self.wf(),
    {
        if !(self.current_tab < self.tabs.len() || (self.tabs.len() == 0 && self.current_tab
            == 0)) {
            return false;
        }
        let mut i: usize = 0;
        while i < self.tabs.len()
            invariant
                i <= self.tabs@.len(),
                forall|j: int| 0 <= j < i ==> self.tabs@[j].wf(),
            decreases self.tabs@.len() - i,
        {
            if !(self.tabs[i].history_pos < self.tabs[i].history.len()) {
                return false;
            }
            i = i + 1;
        }
        true
    }
}

impl Default for AppState {
    /// The state of a first run: one tab on the default search page, with
    /// that page as its whole history, the system theme, the ad blocker on,
    /// and nothing downloaded.
    fn default() -> (r: AppState)
        ensures
            r.tabs@.len() == 1,
            r.tabs@[0].url@ == "https://www.google.com"@,
            r.tabs@[0].title@ == "Google"@,
            !r.tabs@[0].pinned,
            !r.tabs@[0].incognito,
            r.tabs@[0].history@.len() == 1,
            r.tabs@[0].history@[0]@ == "https://www.google.com"@,
            r.tabs@[0].history_pos == 0,
            r.current_tab == 0,
            r.theme == ThemeMode::System,
            r.adblock_enabled,
            !r.vpn_enabled,
            r.downloads@.len() == 0,
            r.wf(),
    {
        let mut history: Vec<String> = Vec::new();
        history.push(String::from_str("https://www.google.com"));
        let mut tabs: Vec<TabState> = Vec::new();
        tabs.push(
            TabState {
                url: String::from_str("https://www.google.com"),
                title: String::from_str("Google"),
                pinned: false,
                incognito: false,
                history,
                history_pos: 0,
            },
        );
        AppState {
            tabs,
            current_tab: 0,
            theme: ThemeMode::System,
            adblock_enabled: true,
            vpn_enabled: false,
            downloads: Vec::new(),
        }
    }
}

} // verus!
