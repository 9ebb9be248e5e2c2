//! Input classification and command dispatch: the wrappers around numeric
//! and plain-text input, the closed command vocabulary with its resolver,
//! and the dispatcher that turns one resolved command, or one whole line of
//! play, into its effect on the tally and a reply for the caller to act on.

use vstd::prelude::*;
use vstd::string::StrSliceExecFns;
use vstd::string::StringExecFns;
use crate::game::Guess;
use crate::game::Stats;
use crate::game::guess_effect;
use crate::record::spec_serialize;
use crate::text::i32_to_string;
use crate::text::spec_i32_text;
use crate::text::spec_parse_i32;
use crate::text::str_eq;

verus! {

/// Wrapper around numeric input.
pub struct NumInput {
    pub val: i32,
}

impl NumInput {
    /// A numeric input holding `n`.
    pub fn new(n: i32) -> (r: NumInput)
        ensures
            r.val == n,
    {
        NumInput { val: n }
    }

    /// Whether the input is strictly positive.
    pub fn is_pos(&self) -> (r: bool)
        ensures
            r == (self.val > 0),
    {
        self.val > 0
    }

    /// A guess evaluated from this input against the desired upper bound.
    pub fn derive_guess(&self, bound: &u32) -> (r: Guess)
        requires
            self.val >= 0,
            *bound >= 2,
        ensures
            r.val == self.val as u32,
            1 <= r.exp < *bound,
    {
        Guess::new(self.val as u32, bound)
    }

    /// The value supplied as input.
    pub fn get_val(&self) -> (r: &i32)
        ensures
            *r == self.val,
    {
        &self.val
    }
}

/// Wrapper around one line of plain text input.
pub struct StringInput {
    pub val: String,
}

impl StringInput {
    /// A text input holding `s`.
    pub fn new(s: String) -> (r: StringInput)
        ensures
            r.val@ == s@,
    {
        StringInput { val: s }
    }

    /// The text supplied as input.
    pub fn get_val(&self) -> (r: &String)
        ensures
            r@ == self.val@,
    {
        &self.val
    }

    /// Resolves the input into numeric input exactly when it parses as an
    /// `i32`.
    pub fn get_numeric(&self) -> (r: Option<NumInput>)
        ensures
            match spec_parse_i32(self.val@) {
                Some(v) => r matches Some(ni) && ni.val == v,
                None => r is None,
            },
    {
        match crate::text::parse_i32(self.val.as_str()) {
            Some(v) => Some(NumInput::new(v)),
            None => None,
        }
    }
}

/// The closed vocabulary of session commands, each resolved from a whole
/// input line by exact, case-sensitive match against its canonical
/// lowercase name.
#[derive(Clone, Copy, PartialEq, Eq, Structural, Debug)]
pub enum Command {
    Quit,
    Show,
    Hi,
    Author,
    Version,
    Kill,
    Help,
    Restart,
    Cheat,
    Save,
    Json,
}

/// The command whose canonical name a line equals, if any.
pub open spec fn spec_find(s: Seq<char>) -> Option<Command> {
    if s == "author"@ {
        Some(Command::Author)
    } else if s == "cheat"@ {
        Some(Command::Cheat)
    } else if s == "help"@ {
        Some(Command::Help)
    } else if s == "hi"@ {
        Some(Command::Hi)
    } else if s == "json"@ {
        Some(Command::Json)
    } else if s == "kill"@ {
        Some(Command::Kill)
    } else if s == "quit"@ {
        Some(Command::Quit)
    } else if s == "restart"@ {
        Some(Command::Restart)
    } else if s == "save"@ {
        Some(Command::Save)
    } else if s == "show"@ {
        Some(Command::Show)
    } else if s == "version"@ {
        Some(Command::Version)
    } else {
        None
    }
}

/// Resolves a line to the command whose canonical name it equals.
pub fn find(s: &str) -> (r: Option<Command>)
    ensures
        r == spec_find(s@),
{
    if str_eq(s, "author") {
        Some(Command::Author)
    } else if str_eq(s, "cheat") {
        Some(Command::Cheat)
    } else if str_eq(s, "help") {
        Some(Command::Help)
    } else if str_eq(s, "hi") {
        Some(Command::Hi)
    } else if str_eq(s, "json") {
        Some(Command::Json)
    } else if str_eq(s, "kill") {
        Some(Command::Kill)
    } else if str_eq(s, "quit") {
        Some(Command::Quit)
    } else if str_eq(s, "restart") {
        Some(Command::Restart)
    } else if str_eq(s, "save") {
        Some(Command::Save)
    } else if str_eq(s, "show") {
        Some(Command::Show)
    } else if str_eq(s, "version") {
        Some(Command::Version)
    } else {
        None
    }
}

/// One help row: an arrow marker, a command name, a line break.
pub open spec fn spec_arrow_item(name: Seq<char>) -> Seq<char> {
    " -> "@ + name + "\n"@
}

/// The help enumeration of the whole vocabulary, one arrow-prefixed
/// lowercase name per line, in sorted order.
pub open spec fn spec_command_list() -> Seq<char> {
    spec_arrow_item("author"@) + spec_arrow_item("cheat"@) + spec_arrow_item("help"@)
        + spec_arrow_item("hi"@) + spec_arrow_item("json"@) + spec_arrow_item("kill"@)
        + spec_arrow_item("quit"@) + spec_arrow_item("restart"@) + spec_arrow_item("save"@)
        + spec_arrow_item("show"@) + spec_arrow_item("version"@)
}

/// Appends one help row for `name`.
fn push_arrow_item(s: &mut String, name: &str)
    ensures
        final(s)@ == old(s)@ + spec_arrow_item(name@),
{
    s.append(" -> ");
    s.append(name);
    s.append("\n");
    proof {
        assert(s@ =~= old(s)@ + spec_arrow_item(name@));
    }
}

/// The formatted list of available commands.
pub fn get_command_list() -> (r: String)
    ensures
        r@ == spec_command_list(),
{
    let mut s = String::new();
    push_arrow_item(&mut s, "author");
    push_arrow_item(&mut s, "cheat");
    push_arrow_item(&mut s, "help");
    push_arrow_item(&mut s, "hi");
    push_arrow_item(&mut s, "json");
    push_arrow_item(&mut s, "kill");
    push_arrow_item(&mut s, "quit");
    push_arrow_item(&mut s, "restart");
    push_arrow_item(&mut s, "save");
    push_arrow_item(&mut s, "show");
    push_arrow_item(&mut s, "version");
    proof {
        assert(s@ =~= spec_command_list());
    }
    s
}

/// The vocabulary in sorted order, comma-separated, as the
/// unrecognized-command report cites it.
pub open spec fn spec_command_csv() -> Seq<char> {
    "author,cheat,help,hi,json,kill,quit,restart,save,show,version"@
}

/// The report for a line that resolves to no command: the offending input
/// echoed verbatim (or a sentinel for empty input) and the full sorted
/// vocabulary.
pub open spec fn spec_unrecognized_report(input: Seq<char>) -> Seq<char> {
    "Command "@ + (if input.len() == 0 {
        "<empty>"@
    } else {
        input
    }) + " not recognized. Available commands: "@ + spec_command_csv()
}

/// Builds the unrecognized-command report for an input line.
pub fn unrecognized_report(input: &str) -> (r: String)
    ensures
        r@ == spec_unrecognized_report(input@),
{
    let mut s = "Command ".to_owned();
    if input.unicode_len() == 0 {
        s.append("<empty>");
    } else {
        s.append(input);
    }
    s.append(" not recognized. Available commands: ");
    s.append("author,cheat,help,hi,json,kill,quit,restart,save,show,version");
    proof {
        assert(s@ =~= spec_unrecognized_report(input@));
    }
    s
}

/// The greeting line for a display name.
pub open spec fn spec_greeting(name: Seq<char>) -> Seq<char> {
    "Hi, "@ + name + "!"@
}

/// Builds the greeting line for the given display name.
pub fn greet_line(name: &str) -> (r: String)
    ensures
        r@ == spec_greeting(name@),
{
    let mut s = "Hi, ".to_owned();
    s.append(name);
    s.append("!");
    proof {
        assert(s@ =~= spec_greeting(name@));
    }
    s
}

/// Relies on whoami's `realname`: the user's display name as the host
/// environment reports it (with that crate's own fallbacks). Nothing can
/// be promised of its content.
#[verifier::external_body]
fn user_realname() -> (r: String) {
    whoami::realname()
}

/// What a dispatched command asks the session to do next: what to print,
/// what to persist, or that the session terminates. Stats snapshots inside
/// replies are taken before any mutation of the tally.
#[derive(PartialEq, Debug)]
pub enum Reply {
    /// Print the farewell with the final stats snapshot, then terminate.
    Quit(Stats),
    /// Terminate at once, printing nothing of the tally.
    Kill,
    /// Print the current stats snapshot.
    Show(Stats),
    /// Print the greeting for the user's display name.
    Greeting(String),
    /// Print the static author line.
    AuthorInfo,
    /// Print the running version.
    VersionInfo,
    /// Print the list of available commands.
    HelpList(String),
    /// Print the pre-reset stats snapshot; the tally has been reset.
    Restarted(Stats),
    /// Print the cheer; the fixed bonus wins have been added.
    Cheated,
    /// Persist the serialized record text to the stats file.
    Save(String),
    /// Print the serialized record text.
    Json(String),
}

/// The fixed bonus of the cheat command.
pub const CHEAT_BONUS: u32 = 10;

/// How one dispatched command relates the prior tally, the new tally and
/// the reply: the dispatch table of the session.
pub open spec fn command_effect(cmd: Command, pre: Stats, post: Stats, r: Reply) -> bool {
    match cmd {
        Command::Quit => r == Reply::Quit(pre) && post == pre,
        Command::Kill => r == Reply::Kill && post == pre,
        Command::Show => r == Reply::Show(pre) && post == pre,
        Command::Hi => (r matches Reply::Greeting(_)) && post == pre,
        Command::Author => r == Reply::AuthorInfo && post == pre,
        Command::Version => r == Reply::VersionInfo && post == pre,
        Command::Help => (r matches Reply::HelpList(h) && h@ == spec_command_list()) && post == pre,
        Command::Restart => r == Reply::Restarted(pre) && post == (Stats {
            total: 0,
            won: 0,
            lost: 0,
        }),
        Command::Cheat => r == Reply::Cheated && post == (Stats {
            total: (pre.total + CHEAT_BONUS) as u32,
            won: (pre.won + CHEAT_BONUS) as u32,
            lost: pre.lost,
        }),
        Command::Save => (r matches Reply::Save(p) && p@ == spec_serialize(
            pre.total,
            pre.won,
            pre.lost,
        )) && post == pre,
        Command::Json => (r matches Reply::Json(p) && p@ == spec_serialize(
            pre.total,
            pre.won,
            pre.lost,
        )) && post == pre,
    }
}

/// Executes one resolved command against the tally and returns the reply
/// the caller must act on. The effect of every command is exactly what
/// `command_effect` states of it.
pub fn handle(cmd: &Command, stats: &mut Stats) -> (r: Reply)
    requires
        old(stats).consistent(),
        old(stats).total + CHEAT_BONUS <= u32::MAX,
    ensures
        final(stats).consistent(),
        command_effect(*cmd, *old(stats), *final(stats), r),
{
    match cmd {
        Command::Quit => Reply::Quit(*stats),
        Command::Kill => Reply::Kill,
        Command::Show => Reply::Show(*stats),
        Command::Hi => Reply::Greeting(greet_line(user_realname().as_str())),
        Command::Author => Reply::AuthorInfo,
        Command::Version => Reply::VersionInfo,
        Command::Help => Reply::HelpList(get_command_list()),
        Command::Restart => {
            let snap = *stats;
            stats.reset();
            Reply::Restarted(snap)
        },
        Command::Cheat => {
            stats.add_bonus_wins(CHEAT_BONUS);
            Reply::Cheated
        },
        Command::Save => {
            let payload = match stats.serialize() {
                Ok(text) => text,
                Err(_) => String::new(),
            };
            Reply::Save(payload)
        },
        Command::Json => {
            let payload = match stats.serialize() {
                Ok(text) => text,
                Err(_) => String::new(),
            };
            Reply::Json(payload)
        },
    }
}

/// The diagnostic for a numeric line that is not a positive guess.
pub open spec fn spec_reject_guess(v: int) -> Seq<char> {
    "Guess should be a positive number, yours is "@ + spec_i32_text(v)
}

/// The diagnostic for a bound line that is numeric but not positive.
pub open spec fn spec_not_pos_diag(v: int) -> Seq<char> {
    "Only numeric values > 1 are permitted, yours is "@ + spec_i32_text(v)
}

/// The diagnostic for a bound line that is not numeric at all.
pub open spec fn spec_not_numeric_diag() -> Seq<char> {
    "Your input cannot be resolved to numeric value"@
}

/// Vets one solicited line for the upper bound: accepted exactly when it
/// parses as a strictly positive number; otherwise the diagnostic to
/// reprompt with.
pub fn vet_numeric_input(input: &StringInput) -> (r: Result<u32, String>)
    ensures
        match spec_parse_i32(input.val@) {
            Some(v) => if v > 0 {
                r matches Ok(b) && b == v as u32
            } else {
                r matches Err(m) && m@ == spec_not_pos_diag(v as int)
            },
            None => r matches Err(m) && m@ == spec_not_numeric_diag(),
        },
{
    match input.get_numeric() {
        Some(num) => {
            if num.is_pos() {
                Ok(*num.get_val() as u32)
            } else {
                let mut m = "Only numeric values > 1 are permitted, yours is ".to_owned();
                m.append(i32_to_string(*num.get_val()).as_str());
                proof {
                    assert(m@ =~= spec_not_pos_diag(num.val as int));
                }
                Err(m)
            }
        },
        None => Err("Your input cannot be resolved to numeric value".to_owned()),
    }
}

/// What one step of play did with the line it was handed.
#[derive(PartialEq, Debug)]
pub enum StepOutcome {
    /// The line was numeric but not a positive guess; print the diagnostic.
    Rejected(String),
    /// The line was a positive guess; it was evaluated against the drawn
    /// target and consumed into the tally; print the feedback.
    Played(Guess, String),
    /// The line resolved to a command whose effect was performed; act on
    /// the reply.
    Executed(Reply),
    /// The line was neither a number nor a command; print the report.
    Unrecognized(String),
}

/// Handles one line while playing: a parsed positive number becomes a
/// guess evaluated against `bound` and consumed into the tally; any other
/// parsed number is rejected with a diagnostic; a non-numeric line is
/// dispatched as a command, recognized or not.
pub fn session_step(input: &StringInput, bound: u32, stats: &mut Stats) -> (r: StepOutcome)
    requires
        bound >= 2,
        old(stats).consistent(),
        old(stats).total + CHEAT_BONUS <= u32::MAX,
    ensures
        final(stats).consistent(),
        (match spec_parse_i32(input.val@) {
            Some(v) => v > 0 ==> (r matches StepOutcome::Played(g, msg) && g.val == v as u32 && 1
                <= g.exp < bound && guess_effect(g.val, g.exp, *old(stats), *final(stats), msg@)),
            None => true,
        }),
        (match spec_parse_i32(input.val@) {
            Some(v) => v <= 0 ==> (r matches StepOutcome::Rejected(m) && m@ == spec_reject_guess(
                v as int,
            ) && *final(stats) == *old(stats)),
            None => true,
        }),
        (match spec_parse_i32(input.val@) {
            Some(_) => true,
            None => (match spec_find(input.val@) {
                Some(cmd) => r matches StepOutcome::Executed(rep) && command_effect(
                    cmd,
                    *old(stats),
                    *final(stats),
                    rep,
                ),
                None => r matches StepOutcome::Unrecognized(m) && m@ == spec_unrecognized_report(
                    input.val@,
                ) && *final(stats) == *old(stats),
            }),
        }),
{
    let ghost pre = *stats;
    match input.get_numeric() {
        Some(num) => {
            if !num.is_pos() {
                let mut m = "Guess should be a positive number, yours is ".to_owned();
                m.append(i32_to_string(*num.get_val()).as_str());
                proof {
                    assert(m@ =~= spec_reject_guess(num.val as int));
                }
                StepOutcome::Rejected(m)
            } else {
                let g = num.derive_guess(&bound);
                let msg = stats.consume_guess(g);
                StepOutcome::Played(g, msg)
            }
        },
        None => {
            match find(input.get_val().as_str()) {
                Some(c) => StepOutcome::Executed(handle(&c, stats)),
                None => StepOutcome::Unrecognized(
                    unrecognized_report(input.get_val().as_str()),
                ),
            }
        },
    }
}

} // verus!
