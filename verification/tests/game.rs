use guessing_game::game::Guess;
use guessing_game::game::Ratio;
use guessing_game::game::Stats;

fn create_serialized_string(tot: i32, won: i32, lost: i32) -> String {
    let mut result = String::from("{");
    let content = format!(
        "\"total\":{},\"won\":{},\"lost\":{}",
        tot.to_string(),
        won.to_string(),
        lost.to_string()
    );
    result.push_str(content.as_str());
    result.push_str("}");
    result
}

#[test]
fn create_guess() {
    let val = 50;
    let bnd = 100;
    let g = Guess::new(val, &bnd);
    assert_eq!(g.get_val(), &val);
    assert!(g.get_expectation() <= &bnd)
}

#[test]
fn create_stats() {
    let st = Stats::new();
    let ser = create_serialized_string(0, 0, 0);
    assert_eq!(st.serialize().unwrap().as_str(), ser)
}

#[test]
fn add_wins() {
    let mut st = Stats::new();
    st.add_bonus_wins(10);
    let ser = create_serialized_string(10, 10, 0);
    assert_eq!(st.serialize().unwrap(), ser)
}

#[test]
fn reset() {
    let mut st = Stats::new();
    st.add_bonus_wins(10);
    st.reset();
    let ser = create_serialized_string(0, 0, 0);
    assert_eq!(st.serialize().unwrap(), ser);
}

#[test]
fn consume_guess() {
    let val = 1;
    let bnd = 2;
    let guess = Guess::new(val, &bnd);
    let mut st = Stats::new();
    let _ = st.consume_guess(guess);
    let ser = create_serialized_string(1, 1, 0);
    assert_eq!(st.serialize().unwrap(), ser)
}

#[test]
fn counters_stay_consistent_through_wins_and_losses() {
    let mut st = Stats::new();
    st.record_win();
    assert_eq!(st.total, st.won + st.lost);
    st.record_loss();
    assert_eq!(st.total, st.won + st.lost);
    st.record_win();
    assert_eq!(st.total, st.won + st.lost);
    st.record_win();
    assert_eq!(st.total, st.won + st.lost);
    st.record_loss();
    assert_eq!(st.total, st.won + st.lost);
    assert_eq!((st.total, st.won, st.lost), (5, 3, 2));
}

#[test]
fn reset_zeroes_any_prior_state() {
    let mut st = Stats::new();
    st.record_win();
    st.record_loss();
    st.add_bonus_wins(7);
    st.reset();
    assert_eq!((st.total, st.won, st.lost), (0, 0, 0));
}

#[test]
fn win_loss_ratio_is_hundred_without_losses() {
    let st = Stats::new();
    assert_eq!(st.win_loss_ratio(), Ratio::Exact(100));
    let mut won = Stats::new();
    won.record_win();
    won.record_win();
    assert_eq!(won.win_loss_ratio(), Ratio::Exact(100));
}

#[test]
fn win_ratio_is_zero_without_games() {
    let st = Stats::new();
    assert_eq!(st.win_ratio(), Ratio::Exact(0));
}

#[test]
fn ratios_are_the_counter_fractions_otherwise() {
    let mut st = Stats::new();
    st.record_win();
    st.record_win();
    st.record_loss();
    st.record_loss();
    st.record_loss();
    assert_eq!(st.win_ratio(), Ratio::Frac(2, 5));
    assert_eq!(st.win_loss_ratio(), Ratio::Frac(2, 3));
}

#[test]
fn bonus_wins_grow_total_and_won_in_bulk() {
    let mut st = Stats::new();
    st.add_bonus_wins(10);
    assert_eq!((st.total, st.won, st.lost), (10, 10, 0));
    assert_eq!(st.serialize().unwrap(), "{\"total\":10,\"won\":10,\"lost\":0}");
}

#[test]
fn serialized_stats_round_trip() {
    let mut st = Stats::new();
    st.record_win();
    st.record_win();
    st.record_win();
    st.record_loss();
    st.record_loss();
    st.record_loss();
    st.record_loss();
    assert_eq!((st.total, st.won, st.lost), (7, 3, 4));
    let ser = st.serialize().unwrap();
    assert_eq!(ser, "{\"total\":7,\"won\":3,\"lost\":4}");
    let back = Stats::deserialize(ser.as_str()).unwrap();
    assert_eq!(back, st);
}

#[test]
fn forced_loss_reports_too_far() {
    let bnd = 2;
    let guess = Guess::new(5, &bnd);
    assert_eq!(*guess.get_expectation(), 1);
    let mut st = Stats::new();
    let msg = st.consume_guess(guess);
    assert_eq!(msg, ">>> Now this went too far: yours 5, expected 1");
    assert_eq!((st.total, st.won, st.lost), (1, 0, 1));
}

#[test]
fn forced_win_reports_the_cheer() {
    let bnd = 2;
    let guess = Guess::new(1, &bnd);
    let mut st = Stats::new();
    let msg = st.consume_guess(guess);
    assert_eq!(msg, ">>> Whoa! Who's the lucky mack?!");
    assert_eq!((st.total, st.won, st.lost), (1, 1, 0));
}

#[test]
fn too_low_feedback_names_both_values() {
    let mut st = Stats::new();
    let guess = Guess { val: 3, exp: 9 };
    let msg = st.consume_guess(guess);
    assert_eq!(msg, ">>> A bit too low: yours 3, expected 9");
    assert_eq!((st.total, st.won, st.lost), (1, 0, 1));
}

#[test]
fn drawn_targets_stay_in_range() {
    let bnd = 3;
    for _ in 0..100 {
        let g = Guess::new(1, &bnd);
        let t = *g.get_expectation();
        assert!(1 <= t && t < 3);
    }
}

#[test]
fn render_shows_the_padded_table() {
    let mut st = Stats::new();
    st.record_win();
    st.record_win();
    st.record_loss();
    st.record_loss();
    st.record_loss();
    let wr = format!("{}", 2f32 / 5f32 * 100f32);
    let wlr = format!("{}", 2f32 / 3f32 * 100f32);
    let rendered = st.render(wr.as_str(), wlr.as_str());
    let expected = format!(
        "--> games played   5\n--> games won      2\n--> win ratio      {}%\n--> win-lose ratio {}%\n",
        wr, wlr
    );
    assert_eq!(rendered, expected);
    assert_eq!(wr, "40");
}
