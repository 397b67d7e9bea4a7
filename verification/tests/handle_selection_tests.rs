use std::cell::RefCell;
use std::collections::HashMap;

use gh_ghq_cd::app::handle_selection;
use gh_ghq_cd::app::plan_selection;
use gh_ghq_cd::app::SelectionPlan;
use gh_ghq_cd::environment::Environment;
use gh_ghq_cd::errors::Error;
use gh_ghq_cd::selection::select_repository;
use gh_ghq_cd::selection::FuzzyFinder;
use gh_ghq_cd::selection::SelectableItem;
use gh_ghq_cd::shell::ShellExecutor;
use gh_ghq_cd::tmux::TmuxClient;
use gh_ghq_cd::tmux::WindowConfig;

struct MockEnvironment {
    vars: HashMap<String, String>,
    set_dir_calls: RefCell<Vec<String>>,
}

impl MockEnvironment {
    fn new() -> Self {
        Self { vars: HashMap::new(), set_dir_calls: RefCell::new(Vec::new()) }
    }

    fn with_var(mut self, key: &str, value: &str) -> Self {
        self.vars.insert(key.to_string(), value.to_string());
        self
    }
}

impl Environment for MockEnvironment {
    fn var(&self, key: &str) -> Option<String> {
        self.vars.get(key).cloned()
    }

    fn set_current_dir(&self, path: &str) -> Result<(), Error> {
        self.set_dir_calls.borrow_mut().push(path.to_string());
        Ok(())
    }
}

struct MockTmuxClient {
    new_window_calls: RefCell<Vec<String>>,
    rename_window_calls: RefCell<Vec<String>>,
}

impl MockTmuxClient {
    fn new() -> Self {
        Self {
            new_window_calls: RefCell::new(Vec::new()),
            rename_window_calls: RefCell::new(Vec::new()),
        }
    }
}

impl TmuxClient for MockTmuxClient {
    fn new_window(&self, cfg: &WindowConfig) -> Result<(), Error> {
        self.new_window_calls.borrow_mut().push(cfg.name.clone());
        Ok(())
    }

    fn rename_window(&self, name: &str) -> Result<(), Error> {
        self.rename_window_calls.borrow_mut().push(name.to_string());
        Ok(())
    }
}

struct MockShellExecutor {
    exec_calls: RefCell<Vec<String>>,
}

impl MockShellExecutor {
    fn new() -> Self {
        Self { exec_calls: RefCell::new(Vec::new()) }
    }
}

impl ShellExecutor for MockShellExecutor {
    fn exec(&self, shell: &str) -> Result<(), Error> {
        self.exec_calls.borrow_mut().push(shell.to_string());
        Ok(())
    }
}

struct IndexFinder {
    index: usize,
    calls: RefCell<usize>,
}

impl FuzzyFinder for IndexFinder {
    fn pick(&self, _items: &Vec<SelectableItem>) -> Option<usize> {
        *self.calls.borrow_mut() += 1;
        Some(self.index)
    }
}

#[test]
fn test_handle_selection_new_window_in_tmux() {
    let env = MockEnvironment::new();
    let tmux = MockTmuxClient::new();
    let shell = MockShellExecutor::new();

    let result = handle_selection(
        "/home/user/ghq/github.com/owner/repo",
        true, // new_window_flag
        true, // use_tmux
        &env,
        &tmux,
        &shell,
    );

    assert!(result.is_ok());
    assert_eq!(tmux.new_window_calls.borrow().len(), 1);
    assert_eq!(tmux.new_window_calls.borrow()[0], "repo");
    assert!(env.set_dir_calls.borrow().is_empty());
    assert!(shell.exec_calls.borrow().is_empty());
}

#[test]
fn test_handle_selection_cd_in_tmux() {
    let env = MockEnvironment::new().with_var("SHELL", "/bin/zsh");
    let tmux = MockTmuxClient::new();
    let shell = MockShellExecutor::new();

    let result = handle_selection(
        "/home/user/ghq/github.com/owner/repo",
        false, // new_window_flag
        true,  // use_tmux
        &env,
        &tmux,
        &shell,
    );

    assert!(result.is_ok());
    assert!(tmux.new_window_calls.borrow().is_empty());
    assert_eq!(tmux.rename_window_calls.borrow().len(), 1);
    assert_eq!(tmux.rename_window_calls.borrow()[0], "repo");
    assert_eq!(env.set_dir_calls.borrow().len(), 1);
    assert_eq!(env.set_dir_calls.borrow()[0], "/home/user/ghq/github.com/owner/repo");
    assert_eq!(shell.exec_calls.borrow().len(), 1);
    assert_eq!(shell.exec_calls.borrow()[0], "/bin/zsh");
}

#[test]
fn test_handle_selection_cd_outside_tmux() {
    let env = MockEnvironment::new();
    let tmux = MockTmuxClient::new();
    let shell = MockShellExecutor::new();

    let result = handle_selection(
        "/home/user/ghq/github.com/owner/repo",
        false, // new_window_flag
        false, // use_tmux
        &env,
        &tmux,
        &shell,
    );

    assert!(result.is_ok());
    assert!(tmux.new_window_calls.borrow().is_empty());
    assert!(tmux.rename_window_calls.borrow().is_empty());
    assert_eq!(env.set_dir_calls.borrow().len(), 1);
    assert_eq!(shell.exec_calls.borrow().len(), 1);
    assert_eq!(shell.exec_calls.borrow()[0], "/bin/sh"); // default shell
}

#[test]
fn test_handle_selection_new_window_flag_ignored_outside_tmux() {
    let env = MockEnvironment::new();
    let tmux = MockTmuxClient::new();
    let shell = MockShellExecutor::new();

    let result = handle_selection(
        "/home/user/ghq/github.com/owner/repo",
        true,  // new_window_flag - should be ignored
        false, // use_tmux
        &env,
        &tmux,
        &shell,
    );

    assert!(result.is_ok());
    // new_window should NOT be called because use_tmux is false
    assert!(tmux.new_window_calls.borrow().is_empty());
    assert_eq!(env.set_dir_calls.borrow().len(), 1);
    assert_eq!(shell.exec_calls.borrow().len(), 1);
}

#[test]
fn handle_selection_returns_the_new_window_decision() {
    let env = MockEnvironment::new();
    let tmux = MockTmuxClient::new();
    let shell = MockShellExecutor::new();

    let result = handle_selection("/home/u/ghq/github.com/o/r", true, true, &env, &tmux, &shell);
    match result {
        Ok(SelectionPlan::OpenNewWindow { name, start_dir }) => {
            assert_eq!(name, "r");
            assert_eq!(start_dir, "/home/u/ghq/github.com/o/r");
        }
        _ => panic!("expected the new-window decision"),
    }
}

#[test]
fn handle_selection_returns_the_current_pane_decision() {
    let env = MockEnvironment::new().with_var("SHELL", "/bin/zsh");
    let tmux = MockTmuxClient::new();
    let shell = MockShellExecutor::new();

    let result = handle_selection("/home/u/ghq/github.com/o/r", false, true, &env, &tmux, &shell);
    match result {
        Ok(SelectionPlan::ChangeDirectory { path, rename_to, shell: shell_path }) => {
            assert_eq!(path, "/home/u/ghq/github.com/o/r");
            assert_eq!(rename_to, Some("r".to_string()));
            assert_eq!(shell_path, "/bin/zsh");
        }
        _ => panic!("expected the current-pane decision"),
    }
}

#[test]
fn plan_selection_defaults_the_shell_and_skips_the_rename() {
    let plan = plan_selection("/g/o/r", false, false, None);
    match plan {
        SelectionPlan::ChangeDirectory { path, rename_to, shell } => {
            assert_eq!(path, "/g/o/r");
            assert_eq!(rename_to, None);
            assert_eq!(shell, "/bin/sh");
        }
        _ => panic!("expected the current-pane decision"),
    }
}

#[test]
fn scenario_current_pane_end_to_end() {
    // One root, one repository; the user confirms the single candidate and
    // stays in the current pane of an active session.
    let roots = vec!["/home/u/ghq".to_string()];
    let repos = vec!["/home/u/ghq/github.com/o/r".to_string()];
    let finder = IndexFinder { index: 0, calls: RefCell::new(0) };

    let selected = select_repository(&finder, &roots, &repos);
    assert_eq!(selected, Some("/home/u/ghq/github.com/o/r".to_string()));

    let env = MockEnvironment::new().with_var("SHELL", "/bin/zsh");
    let tmux = MockTmuxClient::new();
    let shell = MockShellExecutor::new();
    let result = handle_selection(selected.as_deref().unwrap(), false, true, &env, &tmux, &shell);

    assert!(result.is_ok());
    assert_eq!(env.set_dir_calls.borrow().as_slice(), ["/home/u/ghq/github.com/o/r"]);
    assert_eq!(tmux.rename_window_calls.borrow().as_slice(), ["r"]);
    assert_eq!(shell.exec_calls.borrow().as_slice(), ["/bin/zsh"]);
}

#[test]
fn scenario_new_window_no_cd_no_shell() {
    // Same inputs, but the selection opens in a new window: the calling
    // process neither changes directory nor replaces its image.
    let roots = vec!["/home/u/ghq".to_string()];
    let repos = vec!["/home/u/ghq/github.com/o/r".to_string()];
    let finder = IndexFinder { index: 0, calls: RefCell::new(0) };
    let selected = select_repository(&finder, &roots, &repos).unwrap();

    let env = MockEnvironment::new();
    let tmux = MockTmuxClient::new();
    let shell = MockShellExecutor::new();
    let result = handle_selection(&selected, true, true, &env, &tmux, &shell);

    assert!(result.is_ok());
    assert_eq!(tmux.new_window_calls.borrow().as_slice(), ["r"]);
    assert!(env.set_dir_calls.borrow().is_empty());
    assert!(shell.exec_calls.borrow().is_empty());
}

#[test]
fn scenario_zero_repositories_skips_finder() {
    // The tracker reports nothing: the selector answers empty without even
    // invoking the interactive finder, and that is not an error.
    let roots = vec!["/home/u/ghq".to_string()];
    let repos: Vec<String> = Vec::new();
    let finder = IndexFinder { index: 0, calls: RefCell::new(0) };

    let selected = select_repository(&finder, &roots, &repos);
    assert_eq!(selected, None);
    assert_eq!(*finder.calls.borrow(), 0);
}
