//! The interactive navigator's decisions: what each typed command does to
//! the navigator, and what it asks of the settings store or prints. The
//! program around this library reads the lines, prints, and carries out the
//! store's part.

use vstd::prelude::*;
use crate::app::navigation::Navigation;
use crate::app::state::AppState;
use crate::categories::{all, navigator, AnyCategory, Category};
use crate::settings::schema::SettingSpec;
use crate::text::{ascii_lower, decimal, eq_ignore_ascii_case, padded, parse_bounded, split_once};

verus! {

/// What `help` prints.
pub const HELP: &'static str = "Commands:\n  <number>          open a category (from the top-level list)\n  set <key> <val>   change a setting within the open category\n  reset <key>       restore a setting to its default\n  back              return to the category list\n  quit              exit";

/// The command line shown under an open category.
pub const CATEGORY_COMMANDS: &'static str = "\nCommands: set <key> <value>  |  reset <key>  |  back  |  quit\n";

/// What the navigator needs done after a command.
#[derive(Debug, Clone, PartialEq, Eq)]
pub enum Action {
    /// Nothing beyond showing the screen again.
    Nothing,
    /// Print this line.
    Print(String),
    /// Change setting `key` to the value written `raw_value`.
    Update { key: String, raw_value: String },
    /// Restore setting `key` to its default.
    Reset { key: String },
}

/// An action as a mathematical object.
pub enum ActionView {
    Nothing,
    Print(Seq<char>),
    Update { key: Seq<char>, raw_value: Seq<char> },
    Reset { key: Seq<char> },
}

impl View for Action {
    type V = ActionView;

    open spec fn view(&self) -> ActionView {
        match self {
            Action::Nothing => ActionView::Nothing,
            Action::Print(s) => ActionView::Print(s@),
            Action::Update { key, raw_value } => ActionView::Update { key: key@, raw_value: raw_value@ },
            Action::Reset { key } => ActionView::Reset { key: key@ },
        }
    }
}

/// `str::splitn(3, ' ')`: the first word, then the second, then the rest.
pub open spec fn splitn3(s: Seq<char>) -> (Seq<char>, Option<Seq<char>>, Option<Seq<char>>) {
    match split_once(s, ' ') {
        None => (s, None, None),
        Some((a, rest)) => match split_once(rest, ' ') {
            None => (a, Some(rest), None),
            Some((b, c)) => (a, Some(b), Some(c)),
        },
    }
}

/// The reply to a command the navigator does not know.
pub open spec fn unrecognized(input: Seq<char>) -> Seq<char> {
    "Unrecognized command '"@ + input + "'. Type 'help'."@
}

/// The navigator's step on one (trimmed) command: from the trail, the open
/// category and the quit flag, to the new ones and what needs doing.
/// `quit`/`exit`, `back` and `help` work anywhere, in any letter case; at
/// the top level a number from 1 to the number of categories opens that
/// category; inside a category `set <key> <value>` and `reset <key>` go to
/// the settings store.
pub open spec fn command_step(
    trail: Seq<Seq<char>>,
    current: Option<usize>,
    quit: bool,
    input: Seq<char>,
) -> (Seq<Seq<char>>, Option<usize>, bool, ActionView) {
    if input.len() == 0 {
        (trail, current, quit, ActionView::Nothing)
    } else if eq_ignore_ascii_case(input, "quit"@) || eq_ignore_ascii_case(input, "exit"@) {
        (trail, current, true, ActionView::Nothing)
    } else if eq_ignore_ascii_case(input, "back"@) {
        (if trail.len() == 0 { trail } else { trail.drop_last() }, None, quit, ActionView::Nothing)
    } else if eq_ignore_ascii_case(input, "help"@) {
        (trail, current, quit, ActionView::Print(HELP@))
    } else if trail.len() == 0 {
        match parse_bounded(input, usize::MAX as nat) {
            Some(n) => if 1 <= n <= navigator().len() {
                (
                    trail.push(navigator()[n - 1].spec_id()),
                    Some((n - 1) as usize),
                    quit,
                    ActionView::Nothing,
                )
            } else {
                (trail, current, quit, ActionView::Print("No such category number."@))
            },
            None => (trail, current, quit, ActionView::Print(unrecognized(input))),
        }
    } else {
        let (w0, w1, w2) = splitn3(input);
        if w0 == "set"@ {
            match (w1, w2) {
                (Some(key), Some(raw_value)) => (trail, current, quit, ActionView::Update { key, raw_value }),
                _ => (trail, current, quit, ActionView::Print("usage: set <key> <value>"@)),
            }
        } else if w0 == "reset"@ {
            match w1 {
                Some(key) => (trail, current, quit, ActionView::Reset { key }),
                None => (trail, current, quit, ActionView::Print("usage: reset <key>"@)),
            }
        } else {
            (trail, current, quit, ActionView::Print(unrecognized(input)))
        }
    }
}

/// `quit` and `exit`, in any letter case, leave the navigator from
/// anywhere: they set the quit flag and change nothing else.
pub proof fn lemma_quit_and_exit_leave(
    trail: Seq<Seq<char>>,
    current: Option<usize>,
    quit: bool,
    input: Seq<char>,
)
    requires
        eq_ignore_ascii_case(input, "quit"@) || eq_ignore_ascii_case(input, "exit"@),
    ensures
        command_step(trail, current, quit, input) == (trail, current, true, ActionView::Nothing),
{
    reveal_strlit("quit");
    reveal_strlit("exit");
    assert(input.len() == 4);
}

/// `back` and `help`, in any letter case, do what they say from anywhere:
/// `back` leaves the open category (nothing at the top level), `help`
/// prints the command list; neither touches the quit flag.
pub proof fn lemma_back_and_help(trail: Seq<Seq<char>>, current: Option<usize>, quit: bool, input: Seq<char>)
    ensures
        eq_ignore_ascii_case(input, "back"@) ==> command_step(trail, current, quit, input) == (
            if trail.len() == 0 {
                trail
            } else {
                trail.drop_last()
            },
            None::<usize>,
            quit,
            ActionView::Nothing,
        ),
        eq_ignore_ascii_case(input, "help"@) ==> command_step(trail, current, quit, input) == (
            trail,
            current,
            quit,
            ActionView::Print(HELP@),
        ),
{
    reveal_strlit("quit");
    reveal_strlit("exit");
    reveal_strlit("back");
    reveal_strlit("help");
    if eq_ignore_ascii_case(input, "back"@) {
        assert(input.len() == 4);
        assert(!eq_ignore_ascii_case(input, "quit"@)) by {
            assert(ascii_lower(input[0]) == ascii_lower('b'));
        }
        assert(!eq_ignore_ascii_case(input, "exit"@)) by {
            assert(ascii_lower(input[0]) == ascii_lower('b'));
        }
    }
    if eq_ignore_ascii_case(input, "help"@) {
        assert(input.len() == 4);
        assert(!eq_ignore_ascii_case(input, "quit"@)) by {
            assert(ascii_lower(input[0]) == ascii_lower('h'));
        }
        assert(!eq_ignore_ascii_case(input, "exit"@)) by {
            assert(ascii_lower(input[0]) == ascii_lower('h'));
        }
        assert(!eq_ignore_ascii_case(input, "back"@)) by {
            assert(ascii_lower(input[0]) == ascii_lower('h'));
        }
    }
}

/// At the top-level list, typing a category's number (1 for the first)
/// opens that category, whatever was open or typed before.
pub proof fn lemma_number_opens_category(current: Option<usize>, quit: bool, n: nat)
    requires
        1 <= n <= navigator().len(),
    ensures
        command_step(Seq::empty(), current, quit, decimal(n)) == (
            seq![navigator()[n - 1].spec_id()],
            Some((n - 1) as usize),
            quit,
            ActionView::Nothing,
        ),
{
    reveal_strlit("quit");
    reveal_strlit("exit");
    reveal_strlit("back");
    reveal_strlit("help");
    crate::text::lemma_decimal(n);
    crate::text::lemma_parse_decimal(n);
    let d = decimal(n);
    assert(crate::text::is_digit(d[0]));
    assert(!eq_ignore_ascii_case(d, "quit"@)) by {
        if d.len() == 4 {
            assert(ascii_lower(d[0]) != ascii_lower('q'));
        }
    }
    assert(!eq_ignore_ascii_case(d, "exit"@)) by {
        if d.len() == 4 {
            assert(ascii_lower(d[0]) != ascii_lower('e'));
        }
    }
    assert(!eq_ignore_ascii_case(d, "back"@)) by {
        if d.len() == 4 {
            assert(ascii_lower(d[0]) != ascii_lower('b'));
        }
    }
    assert(!eq_ignore_ascii_case(d, "help"@)) by {
        if d.len() == 4 {
            assert(ascii_lower(d[0]) != ascii_lower('h'));
        }
    }
    assert(Seq::<Seq<char>>::empty().push(navigator()[n - 1].spec_id()) =~= seq![navigator()[n - 1].spec_id()]);
}

/// The interactive navigator.
pub struct Application {
    pub nav: Navigation,
    pub state: AppState,
}

impl Application {
    /// The navigator at the top-level category list.
    pub fn new() -> (r: Application)
        ensures
            r.nav@ == Seq::<Seq<char>>::empty(),
            r.state.current_category is None,
            r.state.search@ == Seq::<char>::empty(),
            !r.state.quit,
    {
        Application { nav: Navigation::new(), state: AppState::new() }
    }

    /// Applies one trimmed command line.
    pub fn handle_command(&mut self, input: &str) -> (r: Action)
        ensures
            (final(self).nav@, final(self).state.current_category, final(self).state.quit, r@)
                == command_step(old(self).nav@, old(self).state.current_category, old(self).state.quit, input@),
            final(self).state.search == old(self).state.search,
    {
        proof {
            reveal_strlit("quit");
            reveal_strlit("exit");
            reveal_strlit("back");
            reveal_strlit("help");
        }
        if input.unicode_len() == 0 {
            return Action::Nothing;
        }
        if crate::text::eq_ignore_case(input, "quit") || crate::text::eq_ignore_case(input, "exit") {
            self.state.quit = true;
            return Action::Nothing;
        }
        if crate::text::eq_ignore_case(input, "back") {
            let _ = self.nav.pop();
            self.state.close_category();
            return Action::Nothing;
        }
        if crate::text::eq_ignore_case(input, "help") {
            return Action::Print(String::from_str(HELP));
        }
        if self.nav.is_at_root() {
            return self.handle_root_command(input);
        }
        let (w0, w1, w2) = match crate::text::split_once_char(input, ' ') {
            None => (input, None, None),
            Some((a, rest)) => match crate::text::split_once_char(rest, ' ') {
                None => (a, Some(rest), None),
                Some((b, c)) => (a, Some(b), Some(c)),
            },
        };
        assert(splitn3(input@) == (w0@, opt_view(w1), opt_view(w2)));
        if crate::text::str_eq(w0, "set") {
            match (w1, w2) {
                (Some(key), Some(raw_value)) => Action::Update {
                    key: String::from_str(key),
                    raw_value: String::from_str(raw_value),
                },
                _ => Action::Print(String::from_str("usage: set <key> <value>")),
            }
        } else if crate::text::str_eq(w0, "reset") {
            match w1 {
                Some(key) => Action::Reset { key: String::from_str(key) },
                None => Action::Print(String::from_str("usage: reset <key>")),
            }
        } else {
            Action::Print(unrecognized_command(input))
        }
    }

    /// A command at the top-level list: a category's number opens it.
    fn handle_root_command(&mut self, input: &str) -> (r: Action)
        requires
            old(self).nav@.len() == 0,
            input@.len() > 0,
        ensures
            (final(self).nav@, final(self).state.current_category, final(self).state.quit, r@) == (
            match parse_bounded(input@, usize::MAX as nat) {
                Some(n) => if 1 <= n <= navigator().len() {
                    (
                        old(self).nav@.push(navigator()[n - 1].spec_id()),
                        Some((n - 1) as usize),
                        old(self).state.quit,
                        ActionView::Nothing,
                    )
                } else {
                    (
                        old(self).nav@,
                        old(self).state.current_category,
                        old(self).state.quit,
                        ActionView::Print("No such category number."@),
                    )
                },
                None => (
                    old(self).nav@,
                    old(self).state.current_category,
                    old(self).state.quit,
                    ActionView::Print(unrecognized(input@)),
                ),
            }),
            final(self).state.search == old(self).state.search,
    {
        match crate::text::parse_unsigned_up_to(input, usize::MAX as u64) {
            Some(n) => {
                let cats = all();
                if n >= 1 && n <= cats.len() as u64 {
                    let index = (n - 1) as usize;
                    let id = cats[index].id();
                    self.nav.push(id);
                    self.state.open_category(index);
                    Action::Nothing
                } else {
                    Action::Print(String::from_str("No such category number."))
                }
            },
            None => Action::Print(unrecognized_command(input)),
        }
    }
}

/// The characters of an optional string.
pub open spec fn opt_view(o: Option<&str>) -> Option<Seq<char>> {
    match o {
        Some(s) => Some(s@),
        None => None,
    }
}

/// The reply to a command the navigator does not know.
fn unrecognized_command(input: &str) -> (r: String)
    ensures
        r@ == unrecognized(input@),
{
    let mut msg = String::from_str("Unrecognized command '");
    msg.append(input);
    msg.append("'. Type 'help'.");
    msg
}

/// A category's number as the top-level list shows it: right-aligned in two
/// columns.
pub open spec fn menu_number(n: nat) -> Seq<char> {
    if n < 10 {
        " "@ + decimal(n)
    } else {
        decimal(n)
    }
}

/// The numbered lines of the top-level list for `cats`, numbering from 1.
pub open spec fn menu_lines(cats: Seq<AnyCategory>) -> Seq<char>
    decreases cats.len(),
{
    if cats.len() == 0 {
        Seq::empty()
    } else {
        menu_lines(cats.drop_last()) + "  "@ + menu_number(cats.len()) + ". "@ + cats.last().spec_name() + "\n"@
    }
}

/// The top-level list: every category, numbered, then how to open one.
pub fn root_menu() -> (r: String)
    ensures
        r@ == menu_lines(navigator()) + "\nType a number to open a category, or 'quit'.\n"@,
{
    let cats = all();
    let mut out = String::new();
    let mut i: usize = 0;
    assert(navigator().take(0) =~= Seq::<AnyCategory>::empty());
    while i < cats.len()
        invariant
            cats@ == navigator(),
            i <= cats@.len(),
            out@ == menu_lines(navigator().take(i as int)),
        decreases cats.len() - i,
    {
        let ghost before = out@;
        let number = (i + 1) as u64;
        out.append("  ");
        if number < 10 {
            out.append(" ");
        }
        let digits = crate::text::decimal_string(number);
        out.append(digits.as_str());
        out.append(". ");
        out.append(cats[i].name());
        out.append("\n");
        proof {
            let t = navigator().take(i + 1);
            assert(t.drop_last() =~= navigator().take(i as int));
            assert(t.last() == cats@[i as int]);
            assert(t.len() == number);
            assert(out@ =~= before + "  "@ + menu_number(number as nat) + ". "@ + cats@[i as int].spec_name()
                + "\n"@);
        }
        i += 1;
    }
    assert(navigator().take(cats@.len() as int) =~= navigator());
    out.append("\nType a number to open a category, or 'quit'.\n");
    out
}

/// The tag shown after a setting's value: read-only settings say so,
/// settings that demand more than a user's privilege are marked admin.
pub open spec fn tag_of(read_only: bool, elevated: bool) -> Seq<char> {
    if read_only {
        " [read-only]"@
    } else if elevated {
        " [admin]"@
    } else {
        Seq::empty()
    }
}

/// One setting's line under an open category, showing `value`, its current
/// value.
pub fn setting_row(spec: &SettingSpec, value: &str) -> (r: String)
    ensures
        r@ == "  "@ + padded(spec.label@, 32) + " "@ + value@ + tag_of(spec.read_only, spec.privilege.rank() > 0)
            + "\n"@,
{
    let mut out = String::from_str("  ");
    let label = crate::text::pad_right(spec.label, 32);
    out.append(label.as_str());
    out.append(" ");
    out.append(value);
    if spec.read_only {
        out.append(" [read-only]");
    } else if spec.privilege.is_elevated() {
        out.append(" [admin]");
    }
    out.append("\n");
    out
}

/// One live row's line under an open category.
pub fn live_row(label: &str, value: &str) -> (r: String)
    ensures
        r@ == "  "@ + padded(label@, 32) + " "@ + value@ + " (live)\n"@,
{
    let mut out = String::from_str("  ");
    let l = crate::text::pad_right(label, 32);
    out.append(l.as_str());
    out.append(" ");
    out.append(value);
    out.append(" (live)\n");
    out
}

} // verus!
