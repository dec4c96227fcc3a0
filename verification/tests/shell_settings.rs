//! Tests of the settings overlay navigation and of the shell driver's
//! construction and per-frame pumping.

use bladvak::app::{
    descriptors_of, Bladvak, BladvakApp, BladvakPanel, BladvakSavedState, PanelDescriptor,
    PanelEntry, PanelLayoutState, PanelOpen, PanelState,
};
use bladvak::errors::AppError;
use bladvak::file_handler::{DroppedFile, File, FileState};
use bladvak::settings::{apply_sidebar_support, settings_nav, SelectedSetting, Settings};

fn desc(name: &str, has_ui: bool, has_settings: bool) -> PanelDescriptor {
    PanelDescriptor { name: name.to_string(), has_settings, has_ui }
}

fn entry(name: &str, open: PanelOpen) -> PanelEntry {
    PanelEntry { name: name.to_string(), state: PanelState { open } }
}

/// A minimal host: accepts every file except empty ones.
#[derive(Debug, Default)]
struct TestApp {
    ingested: Vec<String>,
}

impl BladvakApp for TestApp {
    fn handle_file(&mut self, file: File) -> Result<(), AppError> {
        if file.data.is_empty() {
            Err(AppError::new("empty file".to_string()))
        } else {
            self.ingested.push(file.path);
            Ok(())
        }
    }

    fn is_open_button(&self) -> bool {
        true
    }

    fn is_side_panel(&self) -> bool {
        true
    }

    fn name() -> String {
        "TestApp".to_string()
    }

    fn version() -> String {
        "0.0.1".to_string()
    }

    fn repo_url() -> String {
        "https://example.invalid/repo".to_string()
    }

    fn icon() -> &'static [u8] {
        b"icon"
    }
}

struct TestPanel {
    name: &'static str,
    has_settings: bool,
    has_ui: bool,
}

impl BladvakPanel for TestPanel {
    fn name(&self) -> String {
        self.name.to_string()
    }

    fn has_settings(&self) -> bool {
        self.has_settings
    }

    fn has_ui(&self) -> bool {
        self.has_ui
    }
}

#[test]
fn settings_defaults() {
    let s = Settings::default();
    assert!(!s.open);
    assert_eq!(s.min_width_sidebar, 200);
    assert!(s.right_panel);
    assert!(!s.show_inspection);
    assert!(matches!(s.selected_setting, SelectedSetting::General));
}

#[test]
fn closing_the_modal_retains_the_selection() {
    let mut s = Settings::default();
    s.open_settings();
    assert!(s.open);
    s.select_setting(SelectedSetting::Named("Graph".to_string()));
    s.close_settings();
    assert!(!s.open);
    match &s.selected_setting {
        SelectedSetting::Named(n) => assert_eq!(n, "Graph"),
        other => panic!("selection was not retained: {:?}", other),
    }
}

#[test]
fn nav_lists_fixed_entries_then_panels_with_settings() {
    let panels = vec![desc("Log", true, false), desc("Graph", true, true)];
    let nav = settings_nav(&panels);
    assert_eq!(nav.len(), 3);
    assert!(matches!(nav[0], SelectedSetting::General));
    assert!(matches!(nav[1], SelectedSetting::Panel));
    match &nav[2] {
        SelectedSetting::Named(n) => assert_eq!(n, "Graph"),
        other => panic!("expected the Graph entry, got {:?}", other),
    }
}

#[test]
fn sidebar_support_coercion() {
    let panels = vec![desc("Log", true, false), desc("Silent", false, false)];
    let mut layout = PanelLayoutState {
        entries: vec![entry("Log", PanelOpen::AsSidebar), entry("Silent", PanelOpen::AsSidebar)],
    };
    // with the side region supported nothing changes
    apply_sidebar_support(&mut layout, &panels, true);
    assert_eq!(layout.get_open(&"Log".to_string()), Some(PanelOpen::AsSidebar));

    // without it, sidebar placements of panels with a UI become hidden;
    // panels without a UI are left alone
    apply_sidebar_support(&mut layout, &panels, false);
    assert_eq!(layout.get_open(&"Log".to_string()), Some(PanelOpen::Hidden));
    assert_eq!(layout.get_open(&"Silent".to_string()), Some(PanelOpen::AsSidebar));
}

#[test]
fn shell_reuses_a_matching_persisted_record() {
    let panels = vec![desc("Log", true, false), desc("Graph", true, true)];
    let saved = BladvakSavedState {
        settings: Settings::default(),
        panel_state: PanelLayoutState {
            entries: vec![entry("Log", PanelOpen::AsSidebar), entry("Graph", PanelOpen::Hidden)],
        },
    };
    let shell = Bladvak::new_shell(TestApp::default(), Some(saved), &panels);

    // reconciliation reused the persisted placements
    let layout = &shell.internal.panel_state;
    assert_eq!(layout.get_open(&"Log".to_string()), Some(PanelOpen::AsSidebar));
    assert_eq!(layout.get_open(&"Graph".to_string()), Some(PanelOpen::Hidden));

    // the side region renders only "Log"
    let sidebar =
        bladvak::app::panels_with_placement(&panels, layout, PanelOpen::AsSidebar);
    assert_eq!(sidebar, vec!["Log".to_string()]);
    assert!(layout.any_panel_in_sidebar());

    // the settings navigation lists General, the panel page, and "Graph"
    let nav = settings_nav(&panels);
    assert_eq!(nav.len(), 3);
    assert!(matches!(nav[0], SelectedSetting::General));
    assert!(matches!(nav[1], SelectedSetting::Panel));
    assert!(matches!(&nav[2], SelectedSetting::Named(n) if n == "Graph"));
}

#[test]
fn shell_discards_a_mismatched_persisted_record() {
    let panels = vec![desc("Log", true, false), desc("Graph", true, true)];
    let saved = BladvakSavedState {
        settings: Settings { show_inspection: true, ..Settings::default() },
        panel_state: PanelLayoutState { entries: vec![entry("Log", PanelOpen::Hidden)] },
    };
    let shell = Bladvak::new_shell(TestApp::default(), Some(saved), &panels);
    // every panel defaulted, settings reset with the record
    assert_eq!(shell.internal.panel_state.entries.len(), 2);
    assert_eq!(
        shell.internal.panel_state.get_open(&"Log".to_string()),
        Some(PanelOpen::AsWindow)
    );
    assert!(!shell.internal.settings.show_inspection);
    assert!(!shell.error_manager.has_pending());
}

#[test]
fn pump_routes_pipeline_errors_into_the_queue() {
    let panels = vec![desc("Log", true, false)];
    let mut shell = Bladvak::new_shell(TestApp::default(), None, &panels);
    shell.file_handler.handle_file_open();
    let r = shell.pump_files(Some(Err(AppError::new("dialog failed".to_string()))), None);
    assert!(r.is_none());
    let shown = shell.error_manager.drain_for_display();
    assert_eq!(shown.len(), 1);
    assert_eq!(shown[0].message, "dialog failed");
}

#[test]
fn pump_delivers_the_dialog_result_and_keeps_the_drop() {
    let panels = vec![desc("Log", true, false)];
    let mut shell = Bladvak::new_shell(TestApp::default(), None, &panels);
    shell.file_handler.handle_file_open();
    shell.file_handler.ingest_drops(vec![DroppedFile {
        name: "dropped.txt".to_string(),
        path: None,
        bytes: Some(b"drop".to_vec()),
    }]);
    let picked = File { data: b"picked".to_vec(), path: "picked.txt".to_string() };
    let r = shell.pump_files(Some(Ok(FileState::Ready(picked))), None);
    match r {
        Some(file) => assert_eq!(file.path, "picked.txt"),
        None => panic!("expected the dialog result"),
    }
    assert_eq!(shell.file_handler.dropped_files.len(), 1);
    assert!(!shell.error_manager.has_pending());
}

#[test]
fn deliver_hands_the_file_to_the_host_and_records_failures() {
    let panels = vec![desc("Log", true, false)];
    let mut shell = Bladvak::new_shell(TestApp::default(), None, &panels);

    let good = File { data: b"x".to_vec(), path: "good.txt".to_string() };
    assert!(shell.deliver_file(good));
    assert_eq!(shell.app.ingested, vec!["good.txt".to_string()]);
    assert!(!shell.error_manager.has_pending());

    let bad = File { data: Vec::new(), path: "bad.txt".to_string() };
    assert!(shell.deliver_file(bad));
    let shown = shell.error_manager.drain_for_display();
    assert_eq!(shown.len(), 1);
    assert_eq!(shown[0].message, "empty file");
}

#[test]
fn descriptors_snapshot_the_registry_in_order() {
    let panels = vec![
        TestPanel { name: "Log", has_settings: false, has_ui: true },
        TestPanel { name: "Graph", has_settings: true, has_ui: true },
    ];
    let snapshot = descriptors_of(&panels);
    assert_eq!(snapshot.len(), 2);
    assert_eq!(snapshot[0].name, "Log");
    assert!(!snapshot[0].has_settings);
    assert!(snapshot[0].has_ui);
    assert_eq!(snapshot[1].name, "Graph");
    assert!(snapshot[1].has_settings);
}

#[test]
fn host_identity_is_exposed() {
    assert_eq!(TestApp::name(), "TestApp");
    assert_eq!(TestApp::version(), "0.0.1");
    assert_eq!(TestApp::repo_url(), "https://example.invalid/repo");
    assert_eq!(TestApp::icon(), b"icon");
}
