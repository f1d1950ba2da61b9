use clavy::service::{agent_plist_path, join};

#[test]
fn test_join() {
    let parts: Vec<String> = ["foo", "baar", "bz", "", "5"].iter().map(|s| s.to_string()).collect();
    assert_eq!(join(&parts, ","), "foo,baar,bz,,5");
}

#[test]
fn test_join_empty() {
    let parts: Vec<String> = Vec::new();
    assert_eq!(join(&parts, ","), "");
}

#[test]
fn test_join_single() {
    let parts: Vec<String> = vec!["only".to_string()];
    assert_eq!(join(&parts, ", "), "only");
}

#[test]
fn test_agent_plist_path() {
    assert_eq!(
        agent_plist_path("/Users/u", "io.github.rami3l.clavy"),
        "/Users/u/Library/LaunchAgents/io.github.rami3l.clavy.plist"
    );
}
