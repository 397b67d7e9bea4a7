use vstd::prelude::*;

use crate::errors::Error;

verus! {

/// The mathematical shape of one external command: the program to invoke
/// and its argument list.
#[verifier::ext_equal]
pub ghost struct CommandSpec {
    pub program: Seq<char>,
    pub args: Seq<Seq<char>>,
}

/// One external command of a multiplexer plan, ready to be spawned.
pub struct Command {
    pub program: String,
    pub args: Vec<String>,
}

impl View for Command {
    type V = CommandSpec;

    open spec fn view(&self) -> CommandSpec {
        CommandSpec { program: self.program@, args: self.args.deep_view() }
    }
}

/// The commands of a plan, as their mathematical shapes.
pub open spec fn plan_view(plan: Seq<Command>) -> Seq<CommandSpec> {
    plan.map_values(|c: Command| c@)
}

/// The mathematical shape of a window configuration.
#[verifier::ext_equal]
pub ghost struct WindowConfigSpec {
    pub name: Seq<char>,
    pub start_dir: Seq<char>,
}

/// What a new window or pane is made of: its title and the directory its
/// shell starts in.
pub struct WindowConfig {
    pub name: String,
    pub start_dir: String,
}

impl View for WindowConfig {
    type V = WindowConfigSpec;

    open spec fn view(&self) -> WindowConfigSpec {
        WindowConfigSpec { name: self.name@, start_dir: self.start_dir@ }
    }
}

impl WindowConfig {
    pub fn new(name: String, start_dir: String) -> (r: WindowConfig)
        ensures
            r@ == (WindowConfigSpec { name: name@, start_dir: start_dir@ }),
    {
        WindowConfig { name, start_dir }
    }
}

/// How the selection is opened: in the current pane (the default), in a new
/// window, or in a new pane of the current window. `pane_count` below 2
/// leaves the new region whole; 2 splits it once.
#[derive(Debug, Clone, Copy, PartialEq, Eq, Structural)]
pub enum TmuxMode {
    CurrentPane,
    NewWindow { pane_count: u8, horizontal: bool },
    NewPane { pane_count: u8, horizontal: bool },
}

/// The pane count a mode asks for; the current pane asks for none.
pub open spec fn mode_pane_count(mode: TmuxMode) -> u8 {
    match mode {
        TmuxMode::CurrentPane => 0,
        TmuxMode::NewWindow { pane_count, .. } => pane_count,
        TmuxMode::NewPane { pane_count, .. } => pane_count,
    }
}

impl TmuxMode {
    /// The mode that actually takes effect: outside an active multiplexer
    /// session every request collapses to the current pane.
    pub fn resolve(self, inside_session: bool) -> (r: TmuxMode)
        ensures
            inside_session ==> r == self,
            !inside_session ==> r == TmuxMode::CurrentPane,
    {
        if inside_session {
            self
        } else {
            TmuxMode::CurrentPane
        }
    }

    /// The pane count this mode asks for.
    pub fn pane_count(&self) -> (r: u8)
        ensures
            r == mode_pane_count(*self),
    {
        match self {
            TmuxMode::CurrentPane => 0,
            TmuxMode::NewWindow { pane_count, .. } => *pane_count,
            TmuxMode::NewPane { pane_count, .. } => *pane_count,
        }
    }
}

/// Rejects the one contradictory flag combination: text to inject into a
/// pane together with a two-pane split, which would leave the target pane
/// ambiguous. Accepts everything else.
pub fn validate_mode(mode: &TmuxMode, send_text: Option<&str>) -> (r: Result<(), Error>)
    ensures
        r is Err <==> (send_text is Some && mode_pane_count(*mode) >= 2),
        r matches Err(e) ==> e is InvalidFlagCombination,
{
    if send_text.is_some() && mode.pane_count() >= 2 {
        Err(
            Error::InvalidFlagCombination(
                "a command to inject cannot be combined with a two-pane split".to_owned(),
            ),
        )
    } else {
        Ok(())
    }
}

/// A multiplexer backend: each operation synthesizes the exact sequence of
/// external commands that produces the requested layout, as the backend's
/// plan functions describe it. The commands are returned, not run; running
/// them is the caller's business.
pub trait Multiplexer {
    spec fn new_window_plan(cfg: WindowConfigSpec, pane_count: u8, horizontal: bool) -> Seq<
        CommandSpec,
    >;

    spec fn rename_window_plan(name: Seq<char>) -> Seq<CommandSpec>;

    spec fn new_pane_plan(cfg: WindowConfigSpec, pane_count: u8, horizontal: bool) -> Seq<
        CommandSpec,
    >;

    spec fn send_keys_plan(keys: Seq<char>) -> Seq<CommandSpec>;

    fn new_window(&self, cfg: &WindowConfig, pane_count: u8, horizontal: bool) -> (r: Vec<Command>)
        ensures
            plan_view(r@) == Self::new_window_plan(cfg@, pane_count, horizontal),
    ;

    fn rename_window(&self, name: &str) -> (r: Vec<Command>)
        ensures
            plan_view(r@) == Self::rename_window_plan(name@),
    ;

    fn new_pane(&self, cfg: &WindowConfig, pane_count: u8, horizontal: bool) -> (r: Vec<Command>)
        ensures
            plan_view(r@) == Self::new_pane_plan(cfg@, pane_count, horizontal),
    ;

    fn send_keys(&self, keys: &str) -> (r: Vec<Command>)
        ensures
            plan_view(r@) == Self::send_keys_plan(keys@),
    ;
}

/// Drives a real tmux server through its command-line control interface.
pub struct TmuxClient;

/// Drives a zellij session through its action subcommands, producing the
/// same observable layouts as the tmux backend.
pub struct ZellijClient;

/// The stand-in for running outside any multiplexer session: every
/// operation succeeds immediately by planning no command at all.
pub struct NoopClient;

/// A command of the tmux control interface.
pub open spec fn tmux_cmd(args: Seq<Seq<char>>) -> CommandSpec {
    CommandSpec { program: "tmux"@, args }
}

/// A command of the zellij control interface.
pub open spec fn zellij_cmd(args: Seq<Seq<char>>) -> CommandSpec {
    CommandSpec { program: "zellij"@, args }
}

/// The tmux flag that splits an existing window: left/right when
/// horizontal, top/bottom otherwise.
pub open spec fn tmux_window_split_axis(horizontal: bool) -> Seq<char> {
    if horizontal {
        "-h"@
    } else {
        "-v"@
    }
}

/// The tmux flag that selects the first (far) pane of a split.
pub open spec fn tmux_nav_first(horizontal: bool) -> Seq<char> {
    if horizontal {
        "-L"@
    } else {
        "-U"@
    }
}

/// The tmux flag that selects the second (near) pane of a split.
pub open spec fn tmux_nav_second(horizontal: bool) -> Seq<char> {
    if horizontal {
        "-R"@
    } else {
        "-D"@
    }
}

/// The tmux flag of the primary full-span split that carves out a new
/// pane. Its default orientation is the opposite of the window split's,
/// because it divides the whole window rather than a fresh single pane.
pub open spec fn tmux_pane_primary_axis(horizontal: bool) -> Seq<char> {
    if horizontal {
        "-vf"@
    } else {
        "-hf"@
    }
}

/// The tmux commands that create a window titled `cfg.name` rooted at
/// `cfg.start_dir`, and split it once into two equal, identically titled
/// panes when two panes are asked for.
pub open spec fn tmux_new_window_plan(
    cfg: WindowConfigSpec,
    pane_count: u8,
    horizontal: bool,
) -> Seq<CommandSpec> {
    let create = seq![
        tmux_cmd(seq!["new-window"@, "-n"@, cfg.name, "-c"@, cfg.start_dir]),
    ];
    if pane_count >= 2 {
        create + seq![
            tmux_cmd(
                seq!["split-window"@, tmux_window_split_axis(horizontal), "-c"@, cfg.start_dir],
            ),
            tmux_cmd(seq!["select-pane"@, tmux_nav_first(horizontal)]),
            tmux_cmd(seq!["select-pane"@, "-T"@, cfg.name]),
            tmux_cmd(seq!["select-pane"@, tmux_nav_second(horizontal)]),
            tmux_cmd(seq!["select-pane"@, "-T"@, cfg.name]),
            tmux_cmd(seq!["select-pane"@, tmux_nav_first(horizontal)]),
            tmux_cmd(seq!["select-layout"@, "-E"@]),
        ]
    } else {
        create
    }
}

/// The tmux command that renames the active window.
pub open spec fn tmux_rename_window_plan(name: Seq<char>) -> Seq<CommandSpec> {
    seq![tmux_cmd(seq!["rename-window"@, name])]
}

/// The tmux commands that carve a new pane out of the current window with a
/// full-span primary split, title it, subdivide it once more when two panes
/// are asked for, and finally equalize all pane sizes.
pub open spec fn tmux_new_pane_plan(
    cfg: WindowConfigSpec,
    pane_count: u8,
    horizontal: bool,
) -> Seq<CommandSpec> {
    let head = seq![
        tmux_cmd(
            seq!["split-window"@, tmux_pane_primary_axis(horizontal), "-c"@, cfg.start_dir],
        ),
        tmux_cmd(seq!["select-pane"@, "-T"@, cfg.name]),
    ];
    let tail = seq![tmux_cmd(seq!["select-layout"@, "-E"@])];
    if pane_count >= 2 {
        head + seq![
            tmux_cmd(
                seq!["split-window"@, tmux_window_split_axis(horizontal), "-c"@, cfg.start_dir],
            ),
            tmux_cmd(seq!["select-pane"@, tmux_nav_first(horizontal)]),
            tmux_cmd(seq!["select-pane"@, "-T"@, cfg.name]),
            tmux_cmd(seq!["select-pane"@, tmux_nav_second(horizontal)]),
            tmux_cmd(seq!["select-pane"@, "-T"@, cfg.name]),
            tmux_cmd(seq!["select-pane"@, tmux_nav_first(horizontal)]),
        ] + tail
    } else {
        head + tail
    }
}

/// The tmux command that types the given text into the active pane and
/// submits it with an Enter keystroke.
pub open spec fn tmux_send_keys_plan(keys: Seq<char>) -> Seq<CommandSpec> {
    seq![tmux_cmd(seq!["send-keys"@, keys, "Enter"@])]
}

/// The zellij direction that matches the tmux window split axis.
pub open spec fn zellij_window_split_direction(horizontal: bool) -> Seq<char> {
    if horizontal {
        "right"@
    } else {
        "down"@
    }
}

/// The zellij direction of the primary split that carves out a new pane.
pub open spec fn zellij_pane_primary_direction(horizontal: bool) -> Seq<char> {
    if horizontal {
        "down"@
    } else {
        "right"@
    }
}

/// The zellij direction that returns focus to the first pane of a split.
pub open spec fn zellij_focus_back(horizontal: bool) -> Seq<char> {
    if horizontal {
        "left"@
    } else {
        "up"@
    }
}

/// The zellij commands that produce the same observable layout as the tmux
/// new-window plan: a new tab with a titled pane, split once when two panes
/// are asked for, with focus returned to the first pane.
pub open spec fn zellij_new_window_plan(
    cfg: WindowConfigSpec,
    pane_count: u8,
    horizontal: bool,
) -> Seq<CommandSpec> {
    let create = seq![
        zellij_cmd(seq!["action"@, "new-tab"@, "--name"@, cfg.name, "--cwd"@, cfg.start_dir]),
        zellij_cmd(seq!["action"@, "rename-pane"@, cfg.name]),
    ];
    if pane_count >= 2 {
        create + seq![
            zellij_cmd(
                seq![
                    "action"@,
                    "new-pane"@,
                    "--direction"@,
                    zellij_window_split_direction(horizontal),
                    "--cwd"@,
                    cfg.start_dir,
                ],
            ),
            zellij_cmd(seq!["action"@, "rename-pane"@, cfg.name]),
            zellij_cmd(seq!["action"@, "move-focus"@, zellij_focus_back(horizontal)]),
        ]
    } else {
        create
    }
}

/// The zellij command that renames the active tab.
pub open spec fn zellij_rename_window_plan(name: Seq<char>) -> Seq<CommandSpec> {
    seq![zellij_cmd(seq!["action"@, "rename-tab"@, name])]
}

/// The zellij commands that carve out and title a new pane, subdivide it
/// once more when two panes are asked for, and return focus to the first.
pub open spec fn zellij_new_pane_plan(
    cfg: WindowConfigSpec,
    pane_count: u8,
    horizontal: bool,
) -> Seq<CommandSpec> {
    let head = seq![
        zellij_cmd(
            seq![
                "action"@,
                "new-pane"@,
                "--direction"@,
                zellij_pane_primary_direction(horizontal),
                "--cwd"@,
                cfg.start_dir,
            ],
        ),
        zellij_cmd(seq!["action"@, "rename-pane"@, cfg.name]),
    ];
    if pane_count >= 2 {
        head + seq![
            zellij_cmd(
                seq![
                    "action"@,
                    "new-pane"@,
                    "--direction"@,
                    zellij_window_split_direction(horizontal),
                    "--cwd"@,
                    cfg.start_dir,
                ],
            ),
            zellij_cmd(seq!["action"@, "rename-pane"@, cfg.name]),
            zellij_cmd(seq!["action"@, "move-focus"@, zellij_focus_back(horizontal)]),
        ]
    } else {
        head
    }
}

/// The zellij commands that type the given text into the active pane and
/// submit it: the characters first, then the newline key code.
pub open spec fn zellij_send_keys_plan(keys: Seq<char>) -> Seq<CommandSpec> {
    seq![
        zellij_cmd(seq!["action"@, "write-chars"@, keys]),
        zellij_cmd(seq!["action"@, "write"@, "10"@]),
    ]
}

fn cmd2(program: &str, a0: &str, a1: &str) -> (c: Command)
    ensures
        c@ == (CommandSpec { program: program@, args: seq![a0@, a1@] }),
{
    let mut args: Vec<String> = Vec::new();
    args.push(a0.to_owned());
    args.push(a1.to_owned());
    let c = Command { program: program.to_owned(), args };
    proof {
        assert(c@.args =~= seq![a0@, a1@]);
        assert(c@ =~= (CommandSpec { program: program@, args: seq![a0@, a1@] }));
    }
    c
}

fn cmd3(program: &str, a0: &str, a1: &str, a2: &str) -> (c: Command)
    ensures
        c@ == (CommandSpec { program: program@, args: seq![a0@, a1@, a2@] }),
{
    let mut args: Vec<String> = Vec::new();
    args.push(a0.to_owned());
    args.push(a1.to_owned());
    args.push(a2.to_owned());
    let c = Command { program: program.to_owned(), args };
    proof {
        assert(c@.args =~= seq![a0@, a1@, a2@]);
        assert(c@ =~= (CommandSpec { program: program@, args: seq![a0@, a1@, a2@] }));
    }
    c
}

fn cmd4(program: &str, a0: &str, a1: &str, a2: &str, a3: &str) -> (c: Command)
    ensures
        c@ == (CommandSpec { program: program@, args: seq![a0@, a1@, a2@, a3@] }),
{
    let mut args: Vec<String> = Vec::new();
    args.push(a0.to_owned());
    args.push(a1.to_owned());
    args.push(a2.to_owned());
    args.push(a3.to_owned());
    let c = Command { program: program.to_owned(), args };
    proof {
        assert(c@.args =~= seq![a0@, a1@, a2@, a3@]);
        assert(c@ =~= (CommandSpec { program: program@, args: seq![a0@, a1@, a2@, a3@] }));
    }
    c
}

fn cmd5(program: &str, a0: &str, a1: &str, a2: &str, a3: &str, a4: &str) -> (c: Command)
    ensures
        c@ == (CommandSpec { program: program@, args: seq![a0@, a1@, a2@, a3@, a4@] }),
{
    let mut args: Vec<String> = Vec::new();
    args.push(a0.to_owned());
    args.push(a1.to_owned());
    args.push(a2.to_owned());
    args.push(a3.to_owned());
    args.push(a4.to_owned());
    let c = Command { program: program.to_owned(), args };
    proof {
        assert(c@.args =~= seq![a0@, a1@, a2@, a3@, a4@]);
        assert(c@ =~= (CommandSpec { program: program@, args: seq![a0@, a1@, a2@, a3@, a4@] }));
    }
    c
}

fn cmd6(program: &str, a0: &str, a1: &str, a2: &str, a3: &str, a4: &str, a5: &str) -> (c: Command)
    ensures
        c@ == (CommandSpec { program: program@, args: seq![a0@, a1@, a2@, a3@, a4@, a5@] }),
{
    let mut args: Vec<String> = Vec::new();
    args.push(a0.to_owned());
    args.push(a1.to_owned());
    args.push(a2.to_owned());
    args.push(a3.to_owned());
    args.push(a4.to_owned());
    args.push(a5.to_owned());
    let c = Command { program: program.to_owned(), args };
    proof {
        assert(c@.args =~= seq![a0@, a1@, a2@, a3@, a4@, a5@]);
        assert(c@ =~= (CommandSpec {
            program: program@,
            args: seq![a0@, a1@, a2@, a3@, a4@, a5@],
        }));
    }
    c
}

impl Multiplexer for TmuxClient {
    open spec fn new_window_plan(cfg: WindowConfigSpec, pane_count: u8, horizontal: bool) -> Seq<
        CommandSpec,
    > {
        tmux_new_window_plan(cfg, pane_count, horizontal)
    }

    open spec fn rename_window_plan(name: Seq<char>) -> Seq<CommandSpec> {
        tmux_rename_window_plan(name)
    }

    open spec fn new_pane_plan(cfg: WindowConfigSpec, pane_count: u8, horizontal: bool) -> Seq<
        CommandSpec,
    > {
        tmux_new_pane_plan(cfg, pane_count, horizontal)
    }

    open spec fn send_keys_plan(keys: Seq<char>) -> Seq<CommandSpec> {
        tmux_send_keys_plan(keys)
    }

    fn new_window(&self, cfg: &WindowConfig, pane_count: u8, horizontal: bool) -> (r: Vec<
        Command,
    >) {
        let mut r: Vec<Command> = Vec::new();
        r.push(cmd5("tmux", "new-window", "-n", cfg.name.as_str(), "-c", cfg.start_dir.as_str()));
        if pane_count >= 2 {
            let split = if horizontal {
                "-h"
            } else {
                "-v"
            };
            let nav_to_first = if horizontal {
                "-L"
            } else {
                "-U"
            };
            let nav_to_second = if horizontal {
                "-R"
            } else {
                "-D"
            };
            r.push(cmd4("tmux", "split-window", split, "-c", cfg.start_dir.as_str()));
            r.push(cmd2("tmux", "select-pane", nav_to_first));
            r.push(cmd3("tmux", "select-pane", "-T", cfg.name.as_str()));
            r.push(cmd2("tmux", "select-pane", nav_to_second));
            r.push(cmd3("tmux", "select-pane", "-T", cfg.name.as_str()));
            r.push(cmd2("tmux", "select-pane", nav_to_first));
            r.push(cmd2("tmux", "select-layout", "-E"));
        }
        proof {
            assert(plan_view(r@) =~= tmux_new_window_plan(cfg@, pane_count, horizontal));
        }
        r
    }

    fn rename_window(&self, name: &str) -> (r: Vec<Command>) {
        let mut r: Vec<Command> = Vec::new();
        r.push(cmd2("tmux", "rename-window", name));
        proof {
            assert(plan_view(r@) =~= tmux_rename_window_plan(name@));
        }
        r
    }

    fn new_pane(&self, cfg: &WindowConfig, pane_count: u8, horizontal: bool) -> (r: Vec<Command>) {
        let mut r: Vec<Command> = Vec::new();
        let primary_split = if horizontal {
            "-vf"
        } else {
            "-hf"
        };
        r.push(cmd4("tmux", "split-window", primary_split, "-c", cfg.start_dir.as_str()));
        r.push(cmd3("tmux", "select-pane", "-T", cfg.name.as_str()));
        if pane_count >= 2 {
            let secondary_split = if horizontal {
                "-h"
            } else {
                "-v"
            };
            let nav_to_first = if horizontal {
                "-L"
            } else {
                "-U"
            };
            let nav_to_second = if horizontal {
                "-R"
            } else {
                "-D"
            };
            r.push(cmd4("tmux", "split-window", secondary_split, "-c", cfg.start_dir.as_str()));
            r.push(cmd2("tmux", "select-pane", nav_to_first));
            r.push(cmd3("tmux", "select-pane", "-T", cfg.name.as_str()));
            r.push(cmd2("tmux", "select-pane", nav_to_second));
            r.push(cmd3("tmux", "select-pane", "-T", cfg.name.as_str()));
            r.push(cmd2("tmux", "select-pane", nav_to_first));
        }
        r.push(cmd2("tmux", "select-layout", "-E"));
        proof {
            assert(plan_view(r@) =~= tmux_new_pane_plan(cfg@, pane_count, horizontal));
        }
        r
    }

    fn send_keys(&self, keys: &str) -> (r: Vec<Command>) {
        let mut r: Vec<Command> = Vec::new();
        r.push(cmd3("tmux", "send-keys", keys, "Enter"));
        proof {
            assert(plan_view(r@) =~= tmux_send_keys_plan(keys@));
        }
        r
    }
}

impl Multiplexer for ZellijClient {
    open spec fn new_window_plan(cfg: WindowConfigSpec, pane_count: u8, horizontal: bool) -> Seq<
        CommandSpec,
    > {
        zellij_new_window_plan(cfg, pane_count, horizontal)
    }

    open spec fn rename_window_plan(name: Seq<char>) -> Seq<CommandSpec> {
        zellij_rename_window_plan(name)
    }

    open spec fn new_pane_plan(cfg: WindowConfigSpec, pane_count: u8, horizontal: bool) -> Seq<
        CommandSpec,
    > {
        zellij_new_pane_plan(cfg, pane_count, horizontal)
    }

    open spec fn send_keys_plan(keys: Seq<char>) -> Seq<CommandSpec> {
        zellij_send_keys_plan(keys)
    }

    fn new_window(&self, cfg: &WindowConfig, pane_count: u8, horizontal: bool) -> (r: Vec<
        Command,
    >) {
        let mut r: Vec<Command> = Vec::new();
        r.push(
            cmd6(
                "zellij",
                "action",
                "new-tab",
                "--name",
                cfg.name.as_str(),
                "--cwd",
                cfg.start_dir.as_str(),
            ),
        );
        r.push(cmd3("zellij", "action", "rename-pane", cfg.name.as_str()));
        if pane_count >= 2 {
            let direction = if horizontal {
                "right"
            } else {
                "down"
            };
            let focus_direction = if horizontal {
                "left"
            } else {
                "up"
            };
            r.push(
                cmd6(
                    "zellij",
                    "action",
                    "new-pane",
                    "--direction",
                    direction,
                    "--cwd",
                    cfg.start_dir.as_str(),
                ),
            );
            r.push(cmd3("zellij", "action", "rename-pane", cfg.name.as_str()));
            r.push(cmd3("zellij", "action", "move-focus", focus_direction));
        }
        proof {
            assert(plan_view(r@) =~= zellij_new_window_plan(cfg@, pane_count, horizontal));
        }
        r
    }

    fn rename_window(&self, name: &str) -> (r: Vec<Command>) {
        let mut r: Vec<Command> = Vec::new();
        r.push(cmd3("zellij", "action", "rename-tab", name));
        proof {
            assert(plan_view(r@) =~= zellij_rename_window_plan(name@));
        }
        r
    }

    fn new_pane(&self, cfg: &WindowConfig, pane_count: u8, horizontal: bool) -> (r: Vec<Command>) {
        let mut r: Vec<Command> = Vec::new();
        let primary_direction = if horizontal {
            "down"
        } else {
            "right"
        };
        r.push(
            cmd6(
                "zellij",
                "action",
                "new-pane",
                "--direction",
                primary_direction,
                "--cwd",
                cfg.start_dir.as_str(),
            ),
        );
        r.push(cmd3("zellij", "action", "rename-pane", cfg.name.as_str()));
        if pane_count >= 2 {
            let secondary_direction = if horizontal {
                "right"
            } else {
                "down"
            };
            let focus_direction = if horizontal {
                "left"
            } else {
                "up"
            };
            r.push(
                cmd6(
                    "zellij",
                    "action",
                    "new-pane",
                    "--direction",
                    secondary_direction,
                    "--cwd",
                    cfg.start_dir.as_str(),
                ),
            );
            r.push(cmd3("zellij", "action", "rename-pane", cfg.name.as_str()));
            r.push(cmd3("zellij", "action", "move-focus", focus_direction));
        }
        proof {
            assert(plan_view(r@) =~= zellij_new_pane_plan(cfg@, pane_count, horizontal));
        }
        r
    }

    fn send_keys(&self, keys: &str) -> (r: Vec<Command>) {
        let mut r: Vec<Command> = Vec::new();
        r.push(cmd3("zellij", "action", "write-chars", keys));
        r.push(cmd3("zellij", "action", "write", "10"));
        proof {
            assert(plan_view(r@) =~= zellij_send_keys_plan(keys@));
        }
        r
    }
}

impl Multiplexer for NoopClient {
    open spec fn new_window_plan(cfg: WindowConfigSpec, pane_count: u8, horizontal: bool) -> Seq<
        CommandSpec,
    > {
        Seq::empty()
    }

    open spec fn rename_window_plan(name: Seq<char>) -> Seq<CommandSpec> {
        Seq::empty()
    }

    open spec fn new_pane_plan(cfg: WindowConfigSpec, pane_count: u8, horizontal: bool) -> Seq<
        CommandSpec,
    > {
        Seq::empty()
    }

    open spec fn send_keys_plan(keys: Seq<char>) -> Seq<CommandSpec> {
        Seq::empty()
    }

    fn new_window(&self, cfg: &WindowConfig, pane_count: u8, horizontal: bool) -> (r: Vec<
        Command,
    >) {
        let r: Vec<Command> = Vec::new();
        proof {
            assert(plan_view(r@) =~= Seq::<CommandSpec>::empty());
        }
        r
    }

    fn rename_window(&self, name: &str) -> (r: Vec<Command>) {
        let r: Vec<Command> = Vec::new();
        proof {
            assert(plan_view(r@) =~= Seq::<CommandSpec>::empty());
        }
        r
    }

    fn new_pane(&self, cfg: &WindowConfig, pane_count: u8, horizontal: bool) -> (r: Vec<Command>) {
        let r: Vec<Command> = Vec::new();
        proof {
            assert(plan_view(r@) =~= Seq::<CommandSpec>::empty());
        }
        r
    }

    fn send_keys(&self, keys: &str) -> (r: Vec<Command>) {
        let r: Vec<Command> = Vec::new();
        proof {
            assert(plan_view(r@) =~= Seq::<CommandSpec>::empty());
        }
        r
    }
}

/// A command that splits a region in two: tmux's split-window subcommand,
/// or zellij's new-pane action.
pub open spec fn is_split_command(c: CommandSpec) -> bool {
    c.args.len() > 0 && (c.args[0] == "split-window"@ || (c.args.len() > 1 && c.args[0]
        == "action"@ && c.args[1] == "new-pane"@))
}

/// A command that titles the active tmux pane with `name`.
pub open spec fn tmux_sets_title(c: CommandSpec, name: Seq<char>) -> bool {
    c.program == "tmux"@ && c.args == seq!["select-pane"@, "-T"@, name]
}

/// A command that titles the active zellij pane with `name`.
pub open spec fn zellij_sets_title(c: CommandSpec, name: Seq<char>) -> bool {
    c.program == "zellij"@ && c.args == seq!["action"@, "rename-pane"@, name]
}

/// Law: the tmux new-window layout issues no split below two panes; at two
/// panes it issues exactly one split, and both resulting panes are titled
/// with the window's name.
pub proof fn lemma_tmux_new_window_split_discipline(
    cfg: WindowConfigSpec,
    pane_count: u8,
    horizontal: bool,
)
    ensures
        pane_count < 2 ==> {
            let plan = tmux_new_window_plan(cfg, pane_count, horizontal);
            &&& plan.len() == 1
            &&& !is_split_command(plan[0])
        },
        pane_count >= 2 ==> {
            let plan = tmux_new_window_plan(cfg, pane_count, horizontal);
            &&& plan.len() == 8
            &&& is_split_command(plan[1])
            &&& !is_split_command(plan[0]) && !is_split_command(plan[2]) && !is_split_command(
                plan[3],
            ) && !is_split_command(plan[4]) && !is_split_command(plan[5]) && !is_split_command(
                plan[6],
            ) && !is_split_command(plan[7])
            &&& tmux_sets_title(plan[3], cfg.name)
            &&& tmux_sets_title(plan[5], cfg.name)
        },
{
    reveal_strlit("new-window");
    reveal_strlit("split-window");
    reveal_strlit("select-pane");
    reveal_strlit("select-layout");
    reveal_strlit("action");
    assert("new-window"@.len() == 10 && "split-window"@.len() == 12 && "action"@.len() == 6);
    assert("select-pane"@.len() == 11 && "select-layout"@.len() == 13);
    assert("new-window"@ != "split-window"@ && "new-window"@ != "action"@);
    assert("select-pane"@ != "split-window"@ && "select-pane"@ != "action"@);
    assert("select-layout"@ != "split-window"@ && "select-layout"@ != "action"@);
    let plan = tmux_new_window_plan(cfg, pane_count, horizontal);
    assert(plan[0] == tmux_cmd(seq!["new-window"@, "-n"@, cfg.name, "-c"@, cfg.start_dir]));
    assert(!is_split_command(plan[0]));
    if pane_count >= 2 {
        assert(plan[1] == tmux_cmd(
            seq!["split-window"@, tmux_window_split_axis(horizontal), "-c"@, cfg.start_dir],
        ));
        assert(plan[2] == tmux_cmd(seq!["select-pane"@, tmux_nav_first(horizontal)]));
        assert(plan[3] == tmux_cmd(seq!["select-pane"@, "-T"@, cfg.name]));
        assert(plan[4] == tmux_cmd(seq!["select-pane"@, tmux_nav_second(horizontal)]));
        assert(plan[5] == tmux_cmd(seq!["select-pane"@, "-T"@, cfg.name]));
        assert(plan[6] == tmux_cmd(seq!["select-pane"@, tmux_nav_first(horizontal)]));
        assert(plan[7] == tmux_cmd(seq!["select-layout"@, "-E"@]));
        assert(is_split_command(plan[1]));
        assert(!is_split_command(plan[2]));
        assert(!is_split_command(plan[3]));
        assert(!is_split_command(plan[4]));
        assert(!is_split_command(plan[5]));
        assert(!is_split_command(plan[6]));
        assert(!is_split_command(plan[7]));
        assert(tmux_sets_title(plan[3], cfg.name));
        assert(tmux_sets_title(plan[5], cfg.name));
    }
}

/// Law: carving a new tmux pane always issues exactly one primary split; at
/// two panes it issues exactly one secondary split as well, and every
/// resulting pane is titled with the window's name.
pub proof fn lemma_tmux_new_pane_split_discipline(
    cfg: WindowConfigSpec,
    pane_count: u8,
    horizontal: bool,
)
    ensures
        pane_count < 2 ==> {
            let plan = tmux_new_pane_plan(cfg, pane_count, horizontal);
            &&& plan.len() == 3
            &&& is_split_command(plan[0])
            &&& !is_split_command(plan[1]) && !is_split_command(plan[2])
            &&& tmux_sets_title(plan[1], cfg.name)
        },
        pane_count >= 2 ==> {
            let plan = tmux_new_pane_plan(cfg, pane_count, horizontal);
            &&& plan.len() == 9
            &&& is_split_command(plan[0])
            &&& is_split_command(plan[2])
            &&& !is_split_command(plan[1]) && !is_split_command(plan[3]) && !is_split_command(
                plan[4],
            ) && !is_split_command(plan[5]) && !is_split_command(plan[6]) && !is_split_command(
                plan[7],
            ) && !is_split_command(plan[8])
            &&& tmux_sets_title(plan[1], cfg.name)
            &&& tmux_sets_title(plan[4], cfg.name)
            &&& tmux_sets_title(plan[6], cfg.name)
        },
{
    reveal_strlit("split-window");
    reveal_strlit("select-pane");
    reveal_strlit("select-layout");
    reveal_strlit("action");
    assert("split-window"@.len() == 12 && "action"@.len() == 6);
    assert("select-pane"@.len() == 11 && "select-layout"@.len() == 13);
    assert("select-pane"@ != "split-window"@ && "select-pane"@ != "action"@);
    assert("select-layout"@ != "split-window"@ && "select-layout"@ != "action"@);
    let plan = tmux_new_pane_plan(cfg, pane_count, horizontal);
    assert(plan[0] == tmux_cmd(
        seq!["split-window"@, tmux_pane_primary_axis(horizontal), "-c"@, cfg.start_dir],
    ));
    assert(plan[1] == tmux_cmd(seq!["select-pane"@, "-T"@, cfg.name]));
    assert(is_split_command(plan[0]));
    assert(!is_split_command(plan[1]));
    assert(tmux_sets_title(plan[1], cfg.name));
    if pane_count >= 2 {
        assert(plan[2] == tmux_cmd(
            seq!["split-window"@, tmux_window_split_axis(horizontal), "-c"@, cfg.start_dir],
        ));
        assert(plan[3] == tmux_cmd(seq!["select-pane"@, tmux_nav_first(horizontal)]));
        assert(plan[4] == tmux_cmd(seq!["select-pane"@, "-T"@, cfg.name]));
        assert(plan[5] == tmux_cmd(seq!["select-pane"@, tmux_nav_second(horizontal)]));
        assert(plan[6] == tmux_cmd(seq!["select-pane"@, "-T"@, cfg.name]));
        assert(plan[7] == tmux_cmd(seq!["select-pane"@, tmux_nav_first(horizontal)]));
        assert(plan[8] == tmux_cmd(seq!["select-layout"@, "-E"@]));
        assert(is_split_command(plan[2]));
        assert(!is_split_command(plan[3]));
        assert(!is_split_command(plan[4]));
        assert(!is_split_command(plan[5]));
        assert(!is_split_command(plan[6]));
        assert(!is_split_command(plan[7]));
        assert(!is_split_command(plan[8]));
        assert(tmux_sets_title(plan[4], cfg.name));
        assert(tmux_sets_title(plan[6], cfg.name));
    } else {
        assert(plan[2] == tmux_cmd(seq!["select-layout"@, "-E"@]));
        assert(!is_split_command(plan[2]));
    }
}

/// Law: the zellij new-window layout issues no split below two panes; at
/// two panes it issues exactly one split, and both resulting panes are
/// titled with the window's name.
pub proof fn lemma_zellij_new_window_split_discipline(
    cfg: WindowConfigSpec,
    pane_count: u8,
    horizontal: bool,
)
    ensures
        pane_count < 2 ==> {
            let plan = zellij_new_window_plan(cfg, pane_count, horizontal);
            &&& plan.len() == 2
            &&& !is_split_command(plan[0]) && !is_split_command(plan[1])
            &&& zellij_sets_title(plan[1], cfg.name)
        },
        pane_count >= 2 ==> {
            let plan = zellij_new_window_plan(cfg, pane_count, horizontal);
            &&& plan.len() == 5
            &&& is_split_command(plan[2])
            &&& !is_split_command(plan[0]) && !is_split_command(plan[1]) && !is_split_command(
                plan[3],
            ) && !is_split_command(plan[4])
            &&& zellij_sets_title(plan[1], cfg.name)
            &&& zellij_sets_title(plan[3], cfg.name)
        },
{
    reveal_strlit("split-window");
    reveal_strlit("action");
    reveal_strlit("new-tab");
    reveal_strlit("new-pane");
    reveal_strlit("rename-pane");
    reveal_strlit("move-focus");
    assert("action"@.len() == 6 && "split-window"@.len() == 12 && "new-pane"@.len() == 8);
    assert("new-tab"@.len() == 7 && "rename-pane"@.len() == 11 && "move-focus"@.len() == 10);
    assert("action"@ != "split-window"@);
    assert("new-tab"@ != "new-pane"@);
    assert("rename-pane"@ != "new-pane"@);
    assert("move-focus"@ != "new-pane"@);
    let plan = zellij_new_window_plan(cfg, pane_count, horizontal);
    assert(plan[0] == zellij_cmd(
        seq!["action"@, "new-tab"@, "--name"@, cfg.name, "--cwd"@, cfg.start_dir],
    ));
    assert(plan[1] == zellij_cmd(seq!["action"@, "rename-pane"@, cfg.name]));
    assert(!is_split_command(plan[0]));
    assert(!is_split_command(plan[1]));
    assert(zellij_sets_title(plan[1], cfg.name));
    if pane_count >= 2 {
        assert(plan[2] == zellij_cmd(
            seq![
                "action"@,
                "new-pane"@,
                "--direction"@,
                zellij_window_split_direction(horizontal),
                "--cwd"@,
                cfg.start_dir,
            ],
        ));
        assert(plan[3] == zellij_cmd(seq!["action"@, "rename-pane"@, cfg.name]));
        assert(plan[4] == zellij_cmd(
            seq!["action"@, "move-focus"@, zellij_focus_back(horizontal)],
        ));
        assert(is_split_command(plan[2]));
        assert(!is_split_command(plan[3]));
        assert(!is_split_command(plan[4]));
        assert(zellij_sets_title(plan[3], cfg.name));
    }
}

/// Law: carving a new zellij pane always issues exactly one primary split;
/// at two panes it issues exactly one secondary split as well, and every
/// new pane is titled with the window's name.
pub proof fn lemma_zellij_new_pane_split_discipline(
    cfg: WindowConfigSpec,
    pane_count: u8,
    horizontal: bool,
)
    ensures
        pane_count < 2 ==> {
            let plan = zellij_new_pane_plan(cfg, pane_count, horizontal);
            &&& plan.len() == 2
            &&& is_split_command(plan[0])
            &&& !is_split_command(plan[1])
            &&& zellij_sets_title(plan[1], cfg.name)
        },
        pane_count >= 2 ==> {
            let plan = zellij_new_pane_plan(cfg, pane_count, horizontal);
            &&& plan.len() == 5
            &&& is_split_command(plan[0])
            &&& is_split_command(plan[2])
            &&& !is_split_command(plan[1]) && !is_split_command(plan[3]) && !is_split_command(
                plan[4],
            )
            &&& zellij_sets_title(plan[1], cfg.name)
            &&& zellij_sets_title(plan[3], cfg.name)
        },
{
    reveal_strlit("split-window");
    reveal_strlit("action");
    reveal_strlit("new-pane");
    reveal_strlit("rename-pane");
    reveal_strlit("move-focus");
    assert("action"@.len() == 6 && "split-window"@.len() == 12 && "new-pane"@.len() == 8);
    assert("rename-pane"@.len() == 11 && "move-focus"@.len() == 10);
    assert("action"@ != "split-window"@);
    assert("rename-pane"@ != "new-pane"@);
    assert("move-focus"@ != "new-pane"@);
    let plan = zellij_new_pane_plan(cfg, pane_count, horizontal);
    assert(plan[0] == zellij_cmd(
        seq![
            "action"@,
            "new-pane"@,
            "--direction"@,
            zellij_pane_primary_direction(horizontal),
            "--cwd"@,
            cfg.start_dir,
        ],
    ));
    assert(plan[1] == zellij_cmd(seq!["action"@, "rename-pane"@, cfg.name]));
    assert(is_split_command(plan[0]));
    assert(!is_split_command(plan[1]));
    assert(zellij_sets_title(plan[1], cfg.name));
    if pane_count >= 2 {
        assert(plan[2] == zellij_cmd(
            seq![
                "action"@,
                "new-pane"@,
                "--direction"@,
                zellij_window_split_direction(horizontal),
                "--cwd"@,
                cfg.start_dir,
            ],
        ));
        assert(plan[3] == zellij_cmd(seq!["action"@, "rename-pane"@, cfg.name]));
        assert(plan[4] == zellij_cmd(
            seq!["action"@, "move-focus"@, zellij_focus_back(horizontal)],
        ));
        assert(is_split_command(plan[2]));
        assert(!is_split_command(plan[3]));
        assert(!is_split_command(plan[4]));
        assert(zellij_sets_title(plan[3], cfg.name));
    }
}

/// Law: toggling the orientation of the tmux new-window layout transposes
/// the split axis and the pane navigation directions and changes nothing
/// else — same command count, same positions, same titles.
pub proof fn lemma_tmux_new_window_orientation_mirror(cfg: WindowConfigSpec, pane_count: u8)
    ensures
        tmux_new_window_plan(cfg, pane_count, true).len() == tmux_new_window_plan(
            cfg,
            pane_count,
            false,
        ).len(),
        pane_count < 2 ==> tmux_new_window_plan(cfg, pane_count, true) == tmux_new_window_plan(
            cfg,
            pane_count,
            false,
        ),
        pane_count >= 2 ==> {
            let ph = tmux_new_window_plan(cfg, pane_count, true);
            let pv = tmux_new_window_plan(cfg, pane_count, false);
            &&& ph[0] == pv[0] && ph[3] == pv[3] && ph[5] == pv[5] && ph[7] == pv[7]
            &&& ph[1].args[1] == "-h"@ && pv[1].args[1] == "-v"@ && ph[1].args.update(
                1,
                pv[1].args[1],
            ) == pv[1].args
            &&& ph[2].args[1] == "-L"@ && pv[2].args[1] == "-U"@ && ph[2].args.update(
                1,
                pv[2].args[1],
            ) == pv[2].args
            &&& ph[4].args[1] == "-R"@ && pv[4].args[1] == "-D"@ && ph[4].args.update(
                1,
                pv[4].args[1],
            ) == pv[4].args
            &&& ph[6].args[1] == "-L"@ && pv[6].args[1] == "-U"@ && ph[6].args.update(
                1,
                pv[6].args[1],
            ) == pv[6].args
        },
{
    let ph = tmux_new_window_plan(cfg, pane_count, true);
    let pv = tmux_new_window_plan(cfg, pane_count, false);
    if pane_count >= 2 {
        assert(ph[0] =~= pv[0]);
        assert(ph[3] =~= pv[3]);
        assert(ph[5] =~= pv[5]);
        assert(ph[7] =~= pv[7]);
        assert(ph[1].args.update(1, pv[1].args[1]) =~= pv[1].args);
        assert(ph[2].args.update(1, pv[2].args[1]) =~= pv[2].args);
        assert(ph[4].args.update(1, pv[4].args[1]) =~= pv[4].args);
        assert(ph[6].args.update(1, pv[6].args[1]) =~= pv[6].args);
    } else {
        assert(ph =~~= pv);
    }
}

/// Law: toggling the orientation of the tmux new-pane layout transposes the
/// primary full-span axis, the secondary axis and the navigation directions
/// and changes nothing else.
pub proof fn lemma_tmux_new_pane_orientation_mirror(cfg: WindowConfigSpec, pane_count: u8)
    ensures
        tmux_new_pane_plan(cfg, pane_count, true).len() == tmux_new_pane_plan(
            cfg,
            pane_count,
            false,
        ).len(),
        ({
            let ph = tmux_new_pane_plan(cfg, pane_count, true);
            let pv = tmux_new_pane_plan(cfg, pane_count, false);
            &&& ph[0].args[1] == "-vf"@ && pv[0].args[1] == "-hf"@ && ph[0].args.update(
                1,
                pv[0].args[1],
            ) == pv[0].args
            &&& ph[1] == pv[1]
        }),
        pane_count >= 2 ==> {
            let ph = tmux_new_pane_plan(cfg, pane_count, true);
            let pv = tmux_new_pane_plan(cfg, pane_count, false);
            &&& ph[4] == pv[4] && ph[6] == pv[6] && ph[8] == pv[8]
            &&& ph[2].args[1] == "-h"@ && pv[2].args[1] == "-v"@ && ph[2].args.update(
                1,
                pv[2].args[1],
            ) == pv[2].args
            &&& ph[3].args[1] == "-L"@ && pv[3].args[1] == "-U"@ && ph[3].args.update(
                1,
                pv[3].args[1],
            ) == pv[3].args
            &&& ph[5].args[1] == "-R"@ && pv[5].args[1] == "-D"@ && ph[5].args.update(
                1,
                pv[5].args[1],
            ) == pv[5].args
            &&& ph[7].args[1] == "-L"@ && pv[7].args[1] == "-U"@ && ph[7].args.update(
                1,
                pv[7].args[1],
            ) == pv[7].args
        },
        pane_count < 2 ==> ({
            let ph = tmux_new_pane_plan(cfg, pane_count, true);
            let pv = tmux_new_pane_plan(cfg, pane_count, false);
            ph[2] == pv[2]
        }),
{
    let ph = tmux_new_pane_plan(cfg, pane_count, true);
    let pv = tmux_new_pane_plan(cfg, pane_count, false);
    assert(ph[0].args.update(1, pv[0].args[1]) =~= pv[0].args);
    assert(ph[1] =~= pv[1]);
    if pane_count >= 2 {
        assert(ph[4] =~= pv[4]);
        assert(ph[6] =~= pv[6]);
        assert(ph[8] =~= pv[8]);
        assert(ph[2].args.update(1, pv[2].args[1]) =~= pv[2].args);
        assert(ph[3].args.update(1, pv[3].args[1]) =~= pv[3].args);
        assert(ph[5].args.update(1, pv[5].args[1]) =~= pv[5].args);
        assert(ph[7].args.update(1, pv[7].args[1]) =~= pv[7].args);
    } else {
        assert(ph[2] =~= pv[2]);
    }
}

/// Law: toggling the orientation of the zellij new-window layout transposes
/// the split direction and the focus return direction and changes nothing
/// else.
pub proof fn lemma_zellij_new_window_orientation_mirror(cfg: WindowConfigSpec, pane_count: u8)
    ensures
        zellij_new_window_plan(cfg, pane_count, true).len() == zellij_new_window_plan(
            cfg,
            pane_count,
            false,
        ).len(),
        pane_count < 2 ==> zellij_new_window_plan(cfg, pane_count, true)
            == zellij_new_window_plan(cfg, pane_count, false),
        pane_count >= 2 ==> {
            let ph = zellij_new_window_plan(cfg, pane_count, true);
            let pv = zellij_new_window_plan(cfg, pane_count, false);
            &&& ph[0] == pv[0] && ph[1] == pv[1] && ph[3] == pv[3]
            &&& ph[2].args[3] == "right"@ && pv[2].args[3] == "down"@ && ph[2].args.update(
                3,
                pv[2].args[3],
            ) == pv[2].args
            &&& ph[4].args[2] == "left"@ && pv[4].args[2] == "up"@ && ph[4].args.update(
                2,
                pv[4].args[2],
            ) == pv[4].args
        },
{
    let ph = zellij_new_window_plan(cfg, pane_count, true);
    let pv = zellij_new_window_plan(cfg, pane_count, false);
    if pane_count >= 2 {
        assert(ph[0] =~= pv[0]);
        assert(ph[1] =~= pv[1]);
        assert(ph[3] =~= pv[3]);
        assert(ph[2].args.update(3, pv[2].args[3]) =~= pv[2].args);
        assert(ph[4].args.update(2, pv[4].args[2]) =~= pv[4].args);
    } else {
        assert(ph =~~= pv);
    }
}

/// Law: toggling the orientation of the zellij new-pane layout transposes
/// the primary direction, the secondary direction and the focus return
/// direction and changes nothing else.
pub proof fn lemma_zellij_new_pane_orientation_mirror(cfg: WindowConfigSpec, pane_count: u8)
    ensures
        zellij_new_pane_plan(cfg, pane_count, true).len() == zellij_new_pane_plan(
            cfg,
            pane_count,
            false,
        ).len(),
        ({
            let ph = zellij_new_pane_plan(cfg, pane_count, true);
            let pv = zellij_new_pane_plan(cfg, pane_count, false);
            &&& ph[0].args[3] == "down"@ && pv[0].args[3] == "right"@ && ph[0].args.update(
                3,
                pv[0].args[3],
            ) == pv[0].args
            &&& ph[1] == pv[1]
        }),
        pane_count >= 2 ==> {
            let ph = zellij_new_pane_plan(cfg, pane_count, true);
            let pv = zellij_new_pane_plan(cfg, pane_count, false);
            &&& ph[3] == pv[3]
            &&& ph[2].args[3] == "right"@ && pv[2].args[3] == "down"@ && ph[2].args.update(
                3,
                pv[2].args[3],
            ) == pv[2].args
            &&& ph[4].args[2] == "left"@ && pv[4].args[2] == "up"@ && ph[4].args.update(
                2,
                pv[4].args[2],
            ) == pv[4].args
        },
{
    let ph = zellij_new_pane_plan(cfg, pane_count, true);
    let pv = zellij_new_pane_plan(cfg, pane_count, false);
    assert(ph[0].args.update(3, pv[0].args[3]) =~= pv[0].args);
    assert(ph[1] =~= pv[1]);
    if pane_count >= 2 {
        assert(ph[3] =~= pv[3]);
        assert(ph[2].args.update(3, pv[2].args[3]) =~= pv[2].args);
        assert(ph[4].args.update(2, pv[4].args[2]) =~= pv[4].args);
    }
}

} // verus!
