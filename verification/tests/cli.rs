use copper::cli::{library_and_schema_paths, library_path};

fn args(v: &[&str]) -> Vec<String> {
    v.iter().map(|s| s.to_string()).collect()
}

#[test]
fn schema_viewer_takes_two_paths() {
    assert_eq!(
        library_and_schema_paths(&args(&["viewer", "a.lib", "b.sch"])),
        Some(("a.lib".to_string(), "b.sch".to_string()))
    );
    assert_eq!(library_and_schema_paths(&args(&["viewer", "a.lib"])), None);
    assert_eq!(library_and_schema_paths(&args(&["viewer", "a", "b", "c"])), None);
}

#[test]
fn component_viewer_takes_one_path() {
    assert_eq!(library_path(&args(&["viewer", "a.lib"])), Some("a.lib".to_string()));
    assert_eq!(library_path(&args(&["viewer"])), None);
    assert_eq!(library_path(&args(&["viewer", "a.lib", "b"])), None);
}
