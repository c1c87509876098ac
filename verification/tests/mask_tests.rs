use embystream::mask::{mask_line, mask_toml_secrets};
use embystream::wizard::pattern_matches;

#[test]
fn secret_values_are_masked() {
    let text = "[Emby]\nurl = \"http://127.0.0.1\"\ntoken = \"abc\"\n[General]\nencipher_key=\"k\"\n";
    assert_eq!(
        mask_toml_secrets(text),
        "[Emby]\nurl = \"http://127.0.0.1\"\ntoken = \"******\"\n[General]\nencipher_key= \"******\"\n"
    );
}

#[test]
fn other_lines_are_shown_unchanged() {
    let text = "[Log]\nlevel = \"info\"\n\n# token is set below\n";
    assert_eq!(mask_toml_secrets(text), text);
    assert_eq!(mask_toml_secrets(""), "");
    assert_eq!(mask_line("  password = \"p\""), "  password = \"******\"");
    assert_eq!(mask_line("tokens = 1"), "tokens = 1");
}

#[test]
fn sample_paths_are_tried_against_patterns() {
    assert_eq!(pattern_matches("^/mnt/", "/mnt/a.mkv"), Some(true));
    assert_eq!(pattern_matches("^/mnt/", "/media/a.mkv"), Some(false));
    assert_eq!(pattern_matches("(", "/mnt"), None);
}
