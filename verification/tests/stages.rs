use quickbridge::labels::{workspace_source, workspace_version_line};
use quickbridge::terminal::{RenderMode, StageProgress, StepLabels};
use quickbridge::ui::AppState;

fn labels() -> Vec<StepLabels> {
    vec![
        StepLabels::new("Source URL", "Checking source URL", "Checked source URL"),
        StepLabels::with_warn("Time jumps", "Checking time jumps", "Time jumps work", "No time jumps"),
        StepLabels::new("Tracks", "Finding tracks", "Found tracks"),
    ]
}

#[test]
fn stage_lines_show_markers_labels_and_details() {
    let mut stage = StageProgress::new("Inspect source", &labels(), true, RenderMode::Plain);
    stage.complete(0);
    stage.warn(1, vec![String::from("ranges missing")]);
    stage.activate(2, vec![String::from("ffprobe -i x"), String::from("second")]);
    assert_eq!(
        stage.render_lines(),
        vec![
            String::from("Inspect source"),
            String::from("✓ Checked source URL"),
            String::from("! No time jumps"),
            String::from("      ranges missing"),
            String::from("⠋ Finding tracks"),
            String::from("      ffprobe -i x"),
            String::from("      second"),
        ]
    );
}

#[test]
fn stage_lines_hide_details_unless_verbose_and_spin_in_ansi() {
    let mut stage = StageProgress::new("Start session", &labels(), false, RenderMode::Ansi);
    stage.activate(0, vec![String::from("hidden")]);
    stage.tick();
    assert_eq!(
        stage.render_lines(),
        vec![
            String::from("\x1b[1mStart session\x1b[0m"),
            String::from("⠙ Checking source URL"),
            String::from("○ Time jumps"),
            String::from("○ Tracks"),
        ]
    );
}

#[test]
fn workspace_version_and_source_lines() {
    let state = AppState::new(None);
    assert_eq!(workspace_version_line(&state), "quickbridge v0.1.0");
    assert_eq!(workspace_source(&state), "Enter a direct media URL below");
    let mut typing = AppState::new(None);
    typing.append_input("https://example.com/a.mkv");
    assert_eq!(workspace_source(&typing), "https://example.com/a.mkv");
    let mut other = AppState::new(None);
    other.version = String::from("0.2.0");
    assert_eq!(workspace_version_line(&other), "quickbridge v0.2.0");
    let given = AppState::new(Some(String::from("https://example.com/b.mkv")));
    assert_eq!(workspace_source(&given), "https://example.com/b.mkv");
}
