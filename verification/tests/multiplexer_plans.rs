use gh_ghq_cd::errors::Error;
use gh_ghq_cd::multiplexer::validate_mode;
use gh_ghq_cd::multiplexer::Command;
use gh_ghq_cd::multiplexer::Multiplexer;
use gh_ghq_cd::multiplexer::NoopClient;
use gh_ghq_cd::multiplexer::TmuxClient;
use gh_ghq_cd::multiplexer::TmuxMode;
use gh_ghq_cd::multiplexer::WindowConfig;
use gh_ghq_cd::multiplexer::ZellijClient;

fn cfg() -> WindowConfig {
    WindowConfig::new("r".to_string(), "/home/u/ghq/github.com/o/r".to_string())
}

fn as_pairs(plan: &[Command]) -> Vec<(String, Vec<String>)> {
    plan.iter().map(|c| (c.program.clone(), c.args.clone())).collect()
}

fn tmux(args: &[&str]) -> (String, Vec<String>) {
    ("tmux".to_string(), args.iter().map(|a| a.to_string()).collect())
}

fn zellij(args: &[&str]) -> (String, Vec<String>) {
    ("zellij".to_string(), args.iter().map(|a| a.to_string()).collect())
}

#[test]
fn tmux_new_window_single_pane_is_one_command() {
    let plan = TmuxClient.new_window(&cfg(), 0, false);
    assert_eq!(
        as_pairs(&plan),
        vec![tmux(&["new-window", "-n", "r", "-c", "/home/u/ghq/github.com/o/r"])]
    );
    let plan1 = TmuxClient.new_window(&cfg(), 1, true);
    assert_eq!(as_pairs(&plan1).len(), 1);
}

#[test]
fn tmux_new_window_two_panes_vertical_exact_sequence() {
    let plan = TmuxClient.new_window(&cfg(), 2, false);
    let dir = "/home/u/ghq/github.com/o/r";
    assert_eq!(
        as_pairs(&plan),
        vec![
            tmux(&["new-window", "-n", "r", "-c", dir]),
            tmux(&["split-window", "-v", "-c", dir]),
            tmux(&["select-pane", "-U"]),
            tmux(&["select-pane", "-T", "r"]),
            tmux(&["select-pane", "-D"]),
            tmux(&["select-pane", "-T", "r"]),
            tmux(&["select-pane", "-U"]),
            tmux(&["select-layout", "-E"]),
        ]
    );
}

#[test]
fn tmux_new_window_two_panes_horizontal_mirrors_vertical() {
    let plan_h = TmuxClient.new_window(&cfg(), 2, true);
    let plan_v = TmuxClient.new_window(&cfg(), 2, false);
    assert_eq!(plan_h.len(), plan_v.len());
    assert_eq!(plan_h[1].args[1], "-h");
    assert_eq!(plan_v[1].args[1], "-v");
    assert_eq!(plan_h[2].args[1], "-L");
    assert_eq!(plan_v[2].args[1], "-U");
    assert_eq!(plan_h[4].args[1], "-R");
    assert_eq!(plan_v[4].args[1], "-D");
    // everything apart from the axis tokens agrees
    for (h, v) in as_pairs(&plan_h).iter().zip(as_pairs(&plan_v).iter()) {
        assert_eq!(h.0, v.0);
        assert_eq!(h.1.len(), v.1.len());
    }
    assert_eq!(plan_h[0].args, plan_v[0].args);
    assert_eq!(plan_h[3].args, plan_v[3].args);
    assert_eq!(plan_h[7].args, plan_v[7].args);
}

#[test]
fn tmux_new_pane_always_carves_then_equalizes() {
    let dir = "/home/u/ghq/github.com/o/r";
    let plan = TmuxClient.new_pane(&cfg(), 1, false);
    assert_eq!(
        as_pairs(&plan),
        vec![
            tmux(&["split-window", "-hf", "-c", dir]),
            tmux(&["select-pane", "-T", "r"]),
            tmux(&["select-layout", "-E"]),
        ]
    );
    let plan_h = TmuxClient.new_pane(&cfg(), 1, true);
    assert_eq!(plan_h[0].args[1], "-vf");
}

#[test]
fn tmux_new_pane_two_panes_exact_sequence() {
    let dir = "/home/u/ghq/github.com/o/r";
    let plan = TmuxClient.new_pane(&cfg(), 2, false);
    assert_eq!(
        as_pairs(&plan),
        vec![
            tmux(&["split-window", "-hf", "-c", dir]),
            tmux(&["select-pane", "-T", "r"]),
            tmux(&["split-window", "-v", "-c", dir]),
            tmux(&["select-pane", "-U"]),
            tmux(&["select-pane", "-T", "r"]),
            tmux(&["select-pane", "-D"]),
            tmux(&["select-pane", "-T", "r"]),
            tmux(&["select-pane", "-U"]),
            tmux(&["select-layout", "-E"]),
        ]
    );
}

#[test]
fn tmux_rename_and_send_keys_plans() {
    let plan = TmuxClient.rename_window("r");
    assert_eq!(as_pairs(&plan), vec![tmux(&["rename-window", "r"])]);
    let keys = TmuxClient.send_keys("make test");
    assert_eq!(as_pairs(&keys), vec![tmux(&["send-keys", "make test", "Enter"])]);
}

#[test]
fn zellij_new_window_single_pane() {
    let dir = "/home/u/ghq/github.com/o/r";
    let plan = ZellijClient.new_window(&cfg(), 0, false);
    assert_eq!(
        as_pairs(&plan),
        vec![
            zellij(&["action", "new-tab", "--name", "r", "--cwd", dir]),
            zellij(&["action", "rename-pane", "r"]),
        ]
    );
}

#[test]
fn zellij_new_window_two_panes_exact_sequence() {
    let dir = "/home/u/ghq/github.com/o/r";
    let plan = ZellijClient.new_window(&cfg(), 2, false);
    assert_eq!(
        as_pairs(&plan),
        vec![
            zellij(&["action", "new-tab", "--name", "r", "--cwd", dir]),
            zellij(&["action", "rename-pane", "r"]),
            zellij(&["action", "new-pane", "--direction", "down", "--cwd", dir]),
            zellij(&["action", "rename-pane", "r"]),
            zellij(&["action", "move-focus", "up"]),
        ]
    );
    let plan_h = ZellijClient.new_window(&cfg(), 2, true);
    assert_eq!(plan_h[2].args[3], "right");
    assert_eq!(plan_h[4].args[2], "left");
    assert_eq!(plan_h.len(), plan.len());
}

#[test]
fn zellij_new_pane_inverts_the_primary_direction() {
    let dir = "/home/u/ghq/github.com/o/r";
    let plan = ZellijClient.new_pane(&cfg(), 1, false);
    assert_eq!(
        as_pairs(&plan),
        vec![
            zellij(&["action", "new-pane", "--direction", "right", "--cwd", dir]),
            zellij(&["action", "rename-pane", "r"]),
        ]
    );
    let plan_h = ZellijClient.new_pane(&cfg(), 1, true);
    assert_eq!(plan_h[0].args[3], "down");
}

#[test]
fn zellij_new_pane_two_panes_exact_sequence() {
    let dir = "/home/u/ghq/github.com/o/r";
    let plan = ZellijClient.new_pane(&cfg(), 2, false);
    assert_eq!(
        as_pairs(&plan),
        vec![
            zellij(&["action", "new-pane", "--direction", "right", "--cwd", dir]),
            zellij(&["action", "rename-pane", "r"]),
            zellij(&["action", "new-pane", "--direction", "down", "--cwd", dir]),
            zellij(&["action", "rename-pane", "r"]),
            zellij(&["action", "move-focus", "up"]),
        ]
    );
}

#[test]
fn zellij_rename_and_send_keys_plans() {
    let plan = ZellijClient.rename_window("r");
    assert_eq!(as_pairs(&plan), vec![zellij(&["action", "rename-tab", "r"])]);
    let keys = ZellijClient.send_keys("make test");
    assert_eq!(
        as_pairs(&keys),
        vec![zellij(&["action", "write-chars", "make test"]), zellij(&["action", "write", "10"])]
    );
}

#[test]
fn noop_client_plans_nothing() {
    assert!(NoopClient.new_window(&cfg(), 2, true).is_empty());
    assert!(NoopClient.rename_window("r").is_empty());
    assert!(NoopClient.new_pane(&cfg(), 2, false).is_empty());
    assert!(NoopClient.send_keys("x").is_empty());
}

#[test]
fn mode_resolution_collapses_outside_a_session() {
    let requested = TmuxMode::NewWindow { pane_count: 2, horizontal: false };
    assert_eq!(requested.resolve(false), TmuxMode::CurrentPane);
    assert_eq!(requested.resolve(true), requested);
    let pane = TmuxMode::NewPane { pane_count: 1, horizontal: true };
    assert_eq!(pane.resolve(false), TmuxMode::CurrentPane);
    assert_eq!(pane.resolve(true), pane);
    assert_eq!(TmuxMode::CurrentPane.resolve(false), TmuxMode::CurrentPane);
}

#[test]
fn scenario_injection_with_two_panes_is_rejected() {
    let mode = TmuxMode::NewPane { pane_count: 2, horizontal: false };
    let r = validate_mode(&mode, Some("cargo watch"));
    assert!(matches!(r, Err(Error::InvalidFlagCombination(_))));
}

#[test]
fn injection_without_a_split_is_accepted() {
    let single = TmuxMode::NewPane { pane_count: 1, horizontal: false };
    assert!(validate_mode(&single, Some("cargo watch")).is_ok());
    assert!(validate_mode(&TmuxMode::CurrentPane, Some("cargo watch")).is_ok());
    let two = TmuxMode::NewWindow { pane_count: 2, horizontal: false };
    assert!(validate_mode(&two, None).is_ok());
    assert!(matches!(
        validate_mode(&two, Some("x")),
        Err(Error::InvalidFlagCombination(_))
    ));
}
