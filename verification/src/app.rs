use vstd::prelude::*;

use crate::environment::Environment;
use crate::errors::Error;
use crate::shell::ShellExecutor;
use crate::text::last_segment;
use crate::text::last_segment_of;
use crate::tmux::TmuxClient;
use crate::tmux::WindowConfig;

verus! {

/// The decision taken for a confirmed selection: open it in a new
/// multiplexer window, or enter it in the current pane — change directory,
/// rename the window where a session surrounds us, and hand the process
/// over to the user's shell.
pub enum SelectionPlan {
    OpenNewWindow { name: String, start_dir: String },
    ChangeDirectory { path: String, rename_to: Option<String>, shell: String },
}

/// The mathematical shape of a selection decision.
#[verifier::ext_equal]
pub ghost enum SelectionPlanSpec {
    OpenNewWindow { name: Seq<char>, start_dir: Seq<char> },
    ChangeDirectory { path: Seq<char>, rename_to: Option<Seq<char>>, shell: Seq<char> },
}

impl View for SelectionPlan {
    type V = SelectionPlanSpec;

    open spec fn view(&self) -> SelectionPlanSpec {
        match self {
            SelectionPlan::OpenNewWindow { name, start_dir } => SelectionPlanSpec::OpenNewWindow {
                name: name@,
                start_dir: start_dir@,
            },
            SelectionPlan::ChangeDirectory { path, rename_to, shell } => {
                SelectionPlanSpec::ChangeDirectory {
                    path: path@,
                    rename_to: match rename_to {
                        Some(n) => Some(n@),
                        None => None,
                    },
                    shell: shell@,
                }
            },
        }
    }
}

/// The environment's shell variable, as a value of the specification world.
pub open spec fn shell_var_view(shell_var: Option<String>) -> Option<Seq<char>> {
    match shell_var {
        Some(s) => Some(s@),
        None => None,
    }
}

/// The decision for a selected path: a new window — titled after the last
/// path segment and rooted at the selection — exactly when the flag asks
/// for one and a multiplexer session surrounds us; otherwise the
/// current-pane flow, which renames the window exactly when a session
/// surrounds us and hands over to the configured shell, or to the system
/// default when none is configured.
pub open spec fn selection_plan_spec(
    selected: Seq<char>,
    new_window_flag: bool,
    use_tmux: bool,
    shell_var: Option<Seq<char>>,
) -> SelectionPlanSpec {
    if new_window_flag && use_tmux {
        SelectionPlanSpec::OpenNewWindow { name: last_segment_of(selected), start_dir: selected }
    } else {
        SelectionPlanSpec::ChangeDirectory {
            path: selected,
            rename_to: if use_tmux {
                Some(last_segment_of(selected))
            } else {
                None
            },
            shell: match shell_var {
                Some(s) => s,
                None => "/bin/sh"@,
            },
        }
    }
}

/// Decides what to do with the selected path, exactly as
/// `selection_plan_spec` describes it.
pub fn plan_selection(
    selected: &str,
    new_window_flag: bool,
    use_tmux: bool,
    shell_var: Option<String>,
) -> (r: SelectionPlan)
    ensures
        r@ == selection_plan_spec(selected@, new_window_flag, use_tmux, shell_var_view(shell_var)),
{
    let ghost sv = shell_var_view(shell_var);
    let repo_name = last_segment(selected);
    if new_window_flag && use_tmux {
        let r = SelectionPlan::OpenNewWindow {
            name: repo_name,
            start_dir: selected.to_owned(),
        };
        proof {
            assert(r@ =~= selection_plan_spec(selected@, new_window_flag, use_tmux, sv));
        }
        r
    } else {
        let shell = match shell_var {
            Some(s) => s,
            None => "/bin/sh".to_owned(),
        };
        let rename_to = if use_tmux {
            Some(repo_name)
        } else {
            None
        };
        let r = SelectionPlan::ChangeDirectory { path: selected.to_owned(), rename_to, shell };
        proof {
            assert(r@ =~= selection_plan_spec(selected@, new_window_flag, use_tmux, sv));
        }
        r
    }
}

/// Carries out the user's selection and returns the decision it carried
/// out: a new window titled after the last path segment, or a directory
/// change followed by a best-effort window rename and the handover to the
/// user's shell. The first failing step is returned as the error. The
/// returned plan is `selection_plan_spec` for these arguments and the
/// shell the environment reported.
pub fn handle_selection<E: Environment, T: TmuxClient, S: ShellExecutor>(
    selected: &str,
    new_window_flag: bool,
    use_tmux: bool,
    env: &E,
    tmux: &T,
    shell: &S,
) -> (r: Result<SelectionPlan, Error>)
    ensures
        r matches Ok(p) ==> exists|sv: Option<Seq<char>>|
            p@ == selection_plan_spec(selected@, new_window_flag, use_tmux, sv),
{
    let shell_var = env.var("SHELL");
    let ghost sv = shell_var_view(shell_var);
    let plan = plan_selection(selected, new_window_flag, use_tmux, shell_var);
    match &plan {
        SelectionPlan::OpenNewWindow { name, start_dir } => {
            let cfg = WindowConfig::new(name.clone(), start_dir.clone());
            tmux.new_window(&cfg)?;
        },
        SelectionPlan::ChangeDirectory { path, rename_to, shell: shell_path } => {
            env.set_current_dir(path.as_str())?;
            match rename_to {
                Some(n) => {
                    tmux.rename_window(n.as_str())?;
                },
                None => {},
            }
            shell.exec(shell_path.as_str())?;
        },
    }
    proof {
        assert(plan@ == selection_plan_spec(selected@, new_window_flag, use_tmux, sv));
    }
    Ok(plan)
}

} // verus!
