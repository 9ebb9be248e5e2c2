use guessing_game::cmd::find;
use guessing_game::cmd::get_command_list;
use guessing_game::cmd::handle;
use guessing_game::cmd::session_step;
use guessing_game::cmd::unrecognized_report;
use guessing_game::cmd::vet_numeric_input;
use guessing_game::cmd::Command;
use guessing_game::cmd::NumInput;
use guessing_game::cmd::Reply;
use guessing_game::cmd::StepOutcome;
use guessing_game::cmd::StringInput;
use guessing_game::game::Stats;

#[test]
fn num_input_is_pos() {
    assert!(NumInput::new(10).is_pos());
    assert!(!NumInput::new(-10).is_pos());
}

#[test]
fn num_input_create() {
    assert_eq!(NumInput::new(10).get_val(), &10)
}

#[test]
fn num_input_derive_guess() {
    let inp = NumInput::new(20);
    let gss = inp.derive_guess(&40);
    assert_eq!(*gss.get_val(), *inp.get_val() as u32);
    assert!(gss.get_expectation() > &0 && gss.get_expectation() < &40)
}

#[test]
fn string_input_create() {
    assert_eq!(StringInput::new(String::from("sample")).get_val().as_str(), "sample");
}

#[test]
fn string_input_get_number_from_numeric_input() {
    let inp = StringInput::new(String::from("40"));
    assert_eq!(inp.get_numeric().unwrap_or(NumInput::new(60)).get_val(), &40)
}

#[test]
fn string_input_get_number_from_string() {
    assert!(StringInput::new(String::from("forty")).get_numeric().is_none())
}

#[test]
fn every_canonical_name_resolves() {
    assert_eq!(find("quit"), Some(Command::Quit));
    assert_eq!(find("kill"), Some(Command::Kill));
    assert_eq!(find("show"), Some(Command::Show));
    assert_eq!(find("hi"), Some(Command::Hi));
    assert_eq!(find("author"), Some(Command::Author));
    assert_eq!(find("version"), Some(Command::Version));
    assert_eq!(find("help"), Some(Command::Help));
    assert_eq!(find("restart"), Some(Command::Restart));
    assert_eq!(find("cheat"), Some(Command::Cheat));
    assert_eq!(find("save"), Some(Command::Save));
    assert_eq!(find("json"), Some(Command::Json));
}

#[test]
fn resolution_is_case_sensitive_and_exact() {
    assert_eq!(find("Quit"), None);
    assert_eq!(find("quit "), None);
    assert_eq!(find(""), None);
    assert_eq!(find("frobnicate"), None);
}

#[test]
fn unrecognized_input_is_echoed_with_the_vocabulary() {
    assert_eq!(find("frobnicate"), None);
    let report = unrecognized_report("frobnicate");
    assert_eq!(
        report,
        "Command frobnicate not recognized. Available commands: \
         author,cheat,help,hi,json,kill,quit,restart,save,show,version"
    );
}

#[test]
fn empty_unrecognized_input_uses_the_sentinel() {
    let report = unrecognized_report("");
    assert_eq!(
        report,
        "Command <empty> not recognized. Available commands: \
         author,cheat,help,hi,json,kill,quit,restart,save,show,version"
    );
}

#[test]
fn command_list_enumerates_the_vocabulary() {
    let list = get_command_list();
    assert_eq!(
        list,
        " -> author\n -> cheat\n -> help\n -> hi\n -> json\n -> kill\n -> quit\n \
         -> restart\n -> save\n -> show\n -> version\n"
    );
}

fn stats_5_2_3() -> Stats {
    let mut st = Stats::new();
    st.record_win();
    st.record_win();
    st.record_loss();
    st.record_loss();
    st.record_loss();
    st
}

#[test]
fn restart_shows_prior_stats_then_zeroes_them() {
    let mut st = stats_5_2_3();
    let reply = handle(&Command::Restart, &mut st);
    match reply {
        Reply::Restarted(snap) => {
            assert_eq!((snap.total, snap.won, snap.lost), (5, 2, 3));
            let wr = format!("{}", 2f32 / 5f32 * 100f32);
            let wlr = format!("{}", 2f32 / 3f32 * 100f32);
            let rendered = snap.render(wr.as_str(), wlr.as_str());
            assert!(rendered.contains("--> games played   5"));
            assert!(rendered.contains("--> games won      2"));
        },
        other => panic!("expected a restart reply, got {:?}", other),
    }
    assert_eq!((st.total, st.won, st.lost), (0, 0, 0));
}

#[test]
fn show_and_quit_carry_the_current_snapshot() {
    let mut st = stats_5_2_3();
    match handle(&Command::Show, &mut st) {
        Reply::Show(snap) => assert_eq!(snap, stats_5_2_3()),
        other => panic!("expected a show reply, got {:?}", other),
    }
    match handle(&Command::Quit, &mut st) {
        Reply::Quit(snap) => assert_eq!(snap, stats_5_2_3()),
        other => panic!("expected a quit reply, got {:?}", other),
    }
    assert_eq!(st, stats_5_2_3());
    assert_eq!(handle(&Command::Kill, &mut st), Reply::Kill);
}

#[test]
fn cheat_adds_the_fixed_bonus() {
    let mut st = stats_5_2_3();
    assert_eq!(handle(&Command::Cheat, &mut st), Reply::Cheated);
    assert_eq!((st.total, st.won, st.lost), (15, 12, 3));
}

#[test]
fn save_and_json_carry_the_serialized_record() {
    let mut st = stats_5_2_3();
    match handle(&Command::Save, &mut st) {
        Reply::Save(payload) => assert_eq!(payload, "{\"total\":5,\"won\":2,\"lost\":3}"),
        other => panic!("expected a save reply, got {:?}", other),
    }
    match handle(&Command::Json, &mut st) {
        Reply::Json(payload) => assert_eq!(payload, "{\"total\":5,\"won\":2,\"lost\":3}"),
        other => panic!("expected a json reply, got {:?}", other),
    }
    assert_eq!(st, stats_5_2_3());
}

#[test]
fn help_reply_holds_the_command_list() {
    let mut st = Stats::new();
    match handle(&Command::Help, &mut st) {
        Reply::HelpList(list) => assert_eq!(list, get_command_list()),
        other => panic!("expected a help reply, got {:?}", other),
    }
}

#[test]
fn greeting_reply_wraps_a_name() {
    let mut st = Stats::new();
    match handle(&Command::Hi, &mut st) {
        Reply::Greeting(line) => {
            assert!(line.starts_with("Hi, "));
            assert!(line.ends_with("!"));
        },
        other => panic!("expected a greeting reply, got {:?}", other),
    }
}

#[test]
fn a_positive_guess_line_is_played() {
    let mut st = Stats::new();
    let outcome = session_step(&StringInput::new(String::from("7")), 10, &mut st);
    match outcome {
        StepOutcome::Played(guess, msg) => {
            assert_eq!(*guess.get_val(), 7);
            assert!(*guess.get_expectation() >= 1 && *guess.get_expectation() < 10);
            assert!(msg.starts_with(">>> "));
        },
        other => panic!("expected the line to be played, got {:?}", other),
    }
    assert_eq!(st.total, 1);
    assert_eq!(st.total, st.won + st.lost);
}

#[test]
fn a_non_positive_guess_line_is_rejected() {
    let mut st = Stats::new();
    let outcome = session_step(&StringInput::new(String::from("-3")), 10, &mut st);
    assert_eq!(
        outcome,
        StepOutcome::Rejected(String::from("Guess should be a positive number, yours is -3"))
    );
    let zero = session_step(&StringInput::new(String::from("0")), 10, &mut st);
    assert_eq!(
        zero,
        StepOutcome::Rejected(String::from("Guess should be a positive number, yours is 0"))
    );
    assert_eq!(st, Stats::new());
}

#[test]
fn a_command_line_is_dispatched() {
    let mut st = stats_5_2_3();
    let outcome = session_step(&StringInput::new(String::from("show")), 10, &mut st);
    match outcome {
        StepOutcome::Executed(Reply::Show(snap)) => {
            assert_eq!((snap.total, snap.won, snap.lost), (5, 2, 3))
        },
        other => panic!("expected a dispatched show, got {:?}", other),
    }
}

#[test]
fn an_unknown_line_reports_and_changes_nothing() {
    let mut st = stats_5_2_3();
    let outcome = session_step(&StringInput::new(String::from("frobnicate")), 10, &mut st);
    assert_eq!(
        outcome,
        StepOutcome::Unrecognized(unrecognized_report("frobnicate"))
    );
    assert_eq!(st, stats_5_2_3());
}

#[test]
fn bound_vetting_accepts_positive_numbers_only() {
    assert_eq!(vet_numeric_input(&StringInput::new(String::from("10"))), Ok(10));
    assert_eq!(
        vet_numeric_input(&StringInput::new(String::from("-2"))),
        Err(String::from("Only numeric values > 1 are permitted, yours is -2"))
    );
    assert_eq!(
        vet_numeric_input(&StringInput::new(String::from("ten"))),
        Err(String::from("Your input cannot be resolved to numeric value"))
    );
}

#[test]
fn numeric_parsing_handles_signs_zeros_and_range_edges() {
    let parse = |s: &str| StringInput::new(String::from(s)).get_numeric().map(|n| *n.get_val());
    assert_eq!(parse("+7"), Some(7));
    assert_eq!(parse("0040"), Some(40));
    assert_eq!(parse("2147483647"), Some(2147483647));
    assert_eq!(parse("2147483648"), None);
    assert_eq!(parse("-2147483648"), Some(-2147483648));
    assert_eq!(parse("-2147483649"), None);
    assert_eq!(parse(""), None);
    assert_eq!(parse("+"), None);
    assert_eq!(parse("-"), None);
    assert_eq!(parse("4O"), None);
    assert_eq!(parse(" 7"), None);
}

#[test]
fn greeting_line_wraps_the_given_name() {
    assert_eq!(guessing_game::cmd::greet_line("Alice"), "Hi, Alice!");
}
