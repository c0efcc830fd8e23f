//! The command line: `cd <path>`, `pane <left|right>`, `pwd` and `quit`.
use vstd::prelude::*;

use crate::app::App;
use crate::source::{LocationPath, LocationPathView, from_input_spec, location_text};
use crate::state::{ActivePane, AppState, StatusMessage};
use crate::text::{chars_of, concat, is_whitespace, is_ws, owned, str_eq, string_from_chars, trim_ws};

verus! {

/// What running a command gives.
#[derive(Debug, Clone, PartialEq, Eq)]
pub enum CommandResult {
    Success(String),
    Error(String),
    QuitRequested,
}

/// The mathematical form of a [`CommandResult`].
pub enum CommandResultView {
    Success(Seq<char>),
    Error(Seq<char>),
    QuitRequested,
}

impl View for CommandResult {
    type V = CommandResultView;

    open spec fn view(&self) -> CommandResultView {
        match self {
            CommandResult::Success(m) => CommandResultView::Success(m@),
            CommandResult::Error(m) => CommandResultView::Error(m@),
            CommandResult::QuitRequested => CommandResultView::QuitRequested,
        }
    }
}

/// A command either finishes at once or needs a directory change first.
#[derive(Debug)]
pub enum CommandStep {
    /// The command's result.
    Finished(CommandResult),
    /// Move the active pane to `path` (listing it), then call
    /// `App::change_directory` and apply [`directory_changed_result`]; a
    /// failure is applied as `CommandResult::Error`.
    ChangeDirectory(LocationPath),
}

/// The words of a text, as `str::split_whitespace` yields them.
pub open spec fn ws_words(s: Seq<char>) -> Seq<Seq<char>>
    decreases s.len(),
{
    if s.len() == 0 {
        Seq::empty()
    } else {
        let prev = ws_words(s.drop_last());
        if is_ws(s.last()) {
            prev
        } else if s.len() >= 2 && !is_ws(s[s.len() - 2]) {
            prev.update(prev.len() - 1, prev.last().push(s.last()))
        } else {
            prev.push(seq![s.last()])
        }
    }
}

proof fn lemma_ws_words_shape(s: Seq<char>)
    ensures
        s.len() > 0 && !is_ws(s.last()) ==> ws_words(s).len() >= 1,
    decreases s.len(),
{
    if s.len() > 0 {
        lemma_ws_words_shape(s.drop_last());
    }
}

/// The words of `input`.
fn words_of(input: &str) -> (res: Vec<Vec<char>>)
    ensures
        crate::remote_path::views(res@) == ws_words(input@),
{
    let chars = chars_of(input);
    let mut words: Vec<Vec<char>> = Vec::new();
    let mut i: usize = 0;
    proof {
        assert(chars@.take(0) =~= Seq::<char>::empty());
        assert(crate::remote_path::views(words@) =~= Seq::<Seq<char>>::empty());
    }
    while i < chars.len()
        invariant
            i <= chars@.len(),
            chars@ == input@,
            crate::remote_path::views(words@) == ws_words(chars@.take(i as int)),
        decreases chars.len() - i,
    {
        let c = chars[i];
        let ghost t = chars@.take(i + 1);
        let ghost prev = ws_words(chars@.take(i as int));
        proof {
            assert(t.drop_last() =~= chars@.take(i as int));
            assert(t.last() == c);
            if i >= 1 {
                assert(t[t.len() - 2] == chars@[i - 1]);
                assert(chars@.take(i as int).last() == chars@[i - 1]);
                lemma_ws_words_shape(chars@.take(i as int));
            }
        }
        if !is_whitespace(c) {
            if i >= 1 && !is_whitespace(chars[i - 1]) {
                let last = words.len() - 1;
                let mut w = words[last].clone();
                w.push(c);
                let ghost before = crate::remote_path::views(words@);
                words.set(last, w);
                proof {
                    assert(crate::remote_path::views(words@) =~= before.update(last as int, before[last as int].push(c)));
                }
            } else {
                let mut w: Vec<char> = Vec::new();
                w.push(c);
                let ghost before = crate::remote_path::views(words@);
                words.push(w);
                proof {
                    assert(w@ =~= seq![c]);
                    assert(crate::remote_path::views(words@) =~= before.push(seq![c]));
                }
            }
        }
        i = i + 1;
    }
    proof {
        assert(chars@.take(chars.len() as int) =~= input@);
    }
    words
}

/// What a command does, given the active pane's kind and directory.
pub enum CommandPlan {
    Result(CommandResultView),
    ChangeDirectory(LocationPathView),
    SelectPane(ActivePane),
}

/// The meaning of a command line.
pub open spec fn command_plan(input: Seq<char>, s: AppState) -> CommandPlan {
    let words = ws_words(trim_ws(input));
    let active = s.pane_spec(s.active_pane);
    if words.len() == 0 {
        CommandPlan::Result(CommandResultView::Success("command cancelled"@))
    } else if words[0] == "cd"@ {
        if words.len() < 2 {
            CommandPlan::Result(CommandResultView::Error("cd requires a path"@))
        } else {
            CommandPlan::ChangeDirectory(from_input_spec(active.source.kind, active.cwd@, words[1]))
        }
    } else if words[0] == "pane"@ {
        if words.len() >= 2 && words[1] == "left"@ {
            CommandPlan::SelectPane(ActivePane::Left)
        } else if words.len() >= 2 && words[1] == "right"@ {
            CommandPlan::SelectPane(ActivePane::Right)
        } else {
            CommandPlan::Result(CommandResultView::Error("usage: pane <left|right>"@))
        }
    } else if words[0] == "pwd"@ {
        CommandPlan::Result(CommandResultView::Success(location_text(active.cwd@)))
    } else if words[0] == "quit"@ {
        CommandPlan::Result(CommandResultView::QuitRequested)
    } else {
        CommandPlan::Result(CommandResultView::Error("unknown command: "@ + words[0]))
    }
}

/// `pane left` makes the left pane the active one and `pane right` the
/// right one, whatever the state.
pub proof fn law_pane_commands(input: Seq<char>, s: AppState)
    ensures
        ws_words(trim_ws(input)) == seq!["pane"@, "left"@] ==> command_plan(input, s) == CommandPlan::SelectPane(
            ActivePane::Left,
        ),
        ws_words(trim_ws(input)) == seq!["pane"@, "right"@] ==> command_plan(input, s) == CommandPlan::SelectPane(
            ActivePane::Right,
        ),
{
    reveal_strlit("cd");
    reveal_strlit("pane");
    reveal_strlit("left");
    reveal_strlit("right");
    let words = ws_words(trim_ws(input));
    if words == seq!["pane"@, "left"@] || words == seq!["pane"@, "right"@] {
        assert(words[0] == "pane"@);
        assert(words[0] != "cd"@);
    }
    if words == seq!["pane"@, "right"@] {
        assert(words[1] == "right"@);
        assert(words[1] != "left"@);
    }
}

/// Runs a command line: `cd` asks for a directory change, `pane` makes a
/// pane active, `pwd` reports the active directory, `quit` asks to quit.
pub fn execute(app: &mut App, input: &str) -> (res: CommandStep)
    ensures
        match command_plan(input@, old(app).state) {
            CommandPlan::Result(r) => (res matches CommandStep::Finished(c) && c@ == r) && *final(app) == *old(app),
            CommandPlan::ChangeDirectory(p) => (res matches CommandStep::ChangeDirectory(q) && q@ == p)
                && *final(app) == *old(app),
            CommandPlan::SelectPane(pane) => (res matches CommandStep::Finished(c) && c@ == CommandResultView::Success(
                "active pane: "@ + crate::app::pane_name(pane),
            )) && *final(app) == (App { state: AppState { active_pane: pane, ..old(app).state }, ..*old(app) }),
        },
        ws_words(trim_ws(input@)) == seq!["pane"@, "left"@] ==> final(app).state.active_pane == ActivePane::Left
            && (res matches CommandStep::Finished(c) && c@ == CommandResultView::Success("active pane: left"@)),
        ws_words(trim_ws(input@)) == seq!["pane"@, "right"@] ==> final(app).state.active_pane == ActivePane::Right
            && (res matches CommandStep::Finished(c) && c@ == CommandResultView::Success("active pane: right"@)),
{
    proof {
        law_pane_commands(input@, app.state);
        reveal_strlit("cd");
        reveal_strlit("pane");
        reveal_strlit("pwd");
        reveal_strlit("quit");
        reveal_strlit("left");
        reveal_strlit("right");
        reveal_strlit("active pane: ");
        reveal_strlit("active pane: left");
        reveal_strlit("active pane: right");
        assert("active pane: "@ + "left"@ =~= "active pane: left"@);
        assert("active pane: "@ + "right"@ =~= "active pane: right"@);
    }
    let trimmed = crate::text::trim(input);
    let words = words_of(trimmed.as_str());
    if words.len() == 0 {
        return CommandStep::Finished(CommandResult::Success(owned("command cancelled")));
    }
    let command = string_from_chars(&words[0]);
    proof {
        assert(command@ == crate::remote_path::views(words@)[0]);
    }
    if str_eq(command.as_str(), "cd") {
        if words.len() < 2 {
            return CommandStep::Finished(CommandResult::Error(owned("cd requires a path")));
        }
        let path = string_from_chars(&words[1]);
        proof {
            assert(path@ == crate::remote_path::views(words@)[1]);
        }
        let pane = app.state.active_pane();
        let resolved = LocationPath::from_input(pane.source.kind, &pane.cwd, path.as_str());
        return CommandStep::ChangeDirectory(resolved);
    }
    if str_eq(command.as_str(), "pane") {
        if words.len() >= 2 {
            let which = string_from_chars(&words[1]);
            proof {
                assert(which@ == crate::remote_path::views(words@)[1]);
            }
            if str_eq(which.as_str(), "left") {
                app.state.active_pane = ActivePane::Left;
                return CommandStep::Finished(CommandResult::Success(owned("active pane: left")));
            }
            if str_eq(which.as_str(), "right") {
                app.state.active_pane = ActivePane::Right;
                return CommandStep::Finished(CommandResult::Success(owned("active pane: right")));
            }
        }
        return CommandStep::Finished(CommandResult::Error(owned("usage: pane <left|right>")));
    }
    if str_eq(command.as_str(), "pwd") {
        return CommandStep::Finished(CommandResult::Success(app.state.active_pane().cwd.display()));
    }
    if str_eq(command.as_str(), "quit") {
        return CommandStep::Finished(CommandResult::QuitRequested);
    }
    CommandStep::Finished(CommandResult::Error(concat("unknown command: ", command.as_str())))
}

/// The result of a `cd` that reached `cwd`.
pub fn directory_changed_result(cwd: &LocationPath) -> (res: CommandResult)
    ensures
        res@ == CommandResultView::Success("active pane: "@ + location_text(cwd@)),
{
    CommandResult::Success(concat("active pane: ", cwd.display().as_str()))
}

/// Shows a command's result in the status line, or asks to quit.
pub fn apply_result(app: &mut App, result: CommandResult)
    ensures
        match result@ {
            CommandResultView::Success(m) => crate::app::status_set(*old(app), *final(app), m),
            CommandResultView::Error(m) => crate::app::status_set(*old(app), *final(app), m),
            CommandResultView::QuitRequested => *final(app) == (App { state: AppState { should_quit: true, ..old(app).state }, ..*old(app) }),
        },
{
    match result {
        CommandResult::Success(message) => app.state.set_status(StatusMessage::info(message.as_str())),
        CommandResult::Error(message) => app.state.set_status(StatusMessage::error(message.as_str())),
        CommandResult::QuitRequested => app.state.should_quit = true,
    }
}

} // verus!
