use hyprbrowser::downloads::{Download, DownloadStatus};
use hyprbrowser::modules::Module;
use hyprbrowser::state::{AppState, TabState, ThemeMode};

#[test]
fn fresh_state_is_the_documented_one() {
    let state = AppState::default();
    assert_eq!(state.tabs.len(), 1);
    assert_eq!(state.tabs[0].url, "https://www.google.com");
    assert_eq!(state.tabs[0].title, "Google");
    assert!(!state.tabs[0].pinned);
    assert!(!state.tabs[0].incognito);
    assert_eq!(state.tabs[0].history, vec!["https://www.google.com".to_string()]);
    assert_eq!(state.tabs[0].history_pos, 0);
    assert_eq!(state.current_tab, 0);
    assert!(matches!(state.theme, ThemeMode::System));
    assert!(state.adblock_enabled);
    assert!(!state.vpn_enabled);
    assert!(state.downloads.is_empty());
}

#[test]
fn fresh_state_is_sound() {
    assert!(AppState::default().is_wf());
}

fn tab(history: Vec<&str>, pos: usize) -> TabState {
    TabState {
        url: "https://example.com".to_string(),
        title: "Example".to_string(),
        pinned: false,
        incognito: false,
        history: history.into_iter().map(|s| s.to_string()).collect(),
        history_pos: pos,
    }
}

#[test]
fn selected_tab_must_exist() {
    let mut state = AppState::default();
    state.current_tab = 1;
    assert!(!state.is_wf());
}

#[test]
fn empty_state_is_sound() {
    let mut state = AppState::default();
    state.tabs = vec![];
    assert!(state.is_wf());
    state.current_tab = 1;
    assert!(!state.is_wf());
}

#[test]
fn history_position_must_name_an_entry() {
    let mut state = AppState::default();
    state.tabs = vec![tab(vec!["https://a", "https://b"], 1)];
    assert!(state.is_wf());
    state.tabs = vec![tab(vec!["https://a"], 1)];
    assert!(!state.is_wf());
    state.tabs = vec![tab(vec![], 0)];
    assert!(!state.is_wf());
}

#[test]
fn unsound_tab_anywhere_is_found() {
    let mut state = AppState::default();
    state.tabs = vec![
        tab(vec!["https://a"], 0),
        tab(vec!["https://a", "https://b"], 2),
    ];
    assert!(!state.is_wf());
}

#[test]
fn download_record_holds_plain_values() {
    let d = Download {
        id: "7".to_string(),
        url: "https://example.com/file.bin".to_string(),
        filename: "file.bin".to_string(),
        status: DownloadStatus::Downloading,
        progress: 4250,
        size: 1000,
        downloaded: 425,
        started_at: "2024-01-01T00:00:00".to_string(),
    };
    assert_eq!(d.status, DownloadStatus::Downloading);
    assert_ne!(d.status, DownloadStatus::Completed);
    assert_eq!(d.clone().filename, "file.bin");
}

#[test]
fn installation_record_is_built_from_owner_and_repo() {
    let m = Module::from_repo("octocat", "spoon-knife");
    assert_eq!(m.name, "spoon-knife");
    assert_eq!(m.version, "1.0.0");
    assert_eq!(m.repo, "octocat/spoon-knife");
    assert!(m.enabled);
    assert!(m.installed);
    assert_eq!(m.author, "octocat");
    assert_eq!(m.description, "Module from octocat/spoon-knife");
}
