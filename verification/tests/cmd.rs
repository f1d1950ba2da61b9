use clavy::cmd::{Clavy, Subcmd};

#[test]
fn missing_subcommand_launches_the_daemon() {
    let opts = Clavy { subcmd: None, no_color: false };
    assert_eq!(opts.effective_subcmd(), Subcmd::Launch);
}

#[test]
fn given_subcommand_is_kept() {
    let opts = Clavy { subcmd: Some(Subcmd::Restart), no_color: true };
    assert_eq!(opts.effective_subcmd(), Subcmd::Restart);
}

#[test]
fn default_subcommand_is_launch() {
    assert_eq!(Subcmd::default(), Subcmd::Launch);
}
