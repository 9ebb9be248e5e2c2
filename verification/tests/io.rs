use guessing_game::files::Io;
use guessing_game::files::IoOperation;
use guessing_game::files::STATS_PATH_STRING;
use guessing_game::game::Stats;

#[test]
fn open_failures_are_tagged_with_the_open_phase() {
    let io = Io::new("no_such_dir/stats.txt");
    let err = io.report_error(IoOperation::OPEN, "No such file or directory (os error 2)");
    assert_eq!(
        err.message().as_str(),
        "Cannot open file no_such_dir/stats.txt: No such file or directory (os error 2)"
    );
}

#[test]
fn each_phase_has_its_own_wording() {
    let io = Io::new("stats.txt");
    assert_eq!(
        io.report_error(IoOperation::WRITE, "disk full").message().as_str(),
        "Cannot write data to stats.txt: disk full"
    );
    assert_eq!(
        io.report_error(IoOperation::FLUSH, "disk full").message().as_str(),
        "Cannot flush data to stats.txt: disk full"
    );
    assert_eq!(
        io.report_error(IoOperation::READ, "is a directory").message().as_str(),
        "Cannot read data from stats.txt: is a directory"
    );
}

#[test]
fn exporter_keeps_its_target_path() {
    let io = Io::new(STATS_PATH_STRING);
    assert_eq!(io.get_path().as_str(), "stats.txt");
}

#[test]
fn deserialize_rejects_malformed_records() {
    assert!(Stats::deserialize("").is_err());
    assert!(Stats::deserialize("{}").is_err());
    assert!(Stats::deserialize("{\"total\":1,\"won\":1}").is_err());
    assert!(Stats::deserialize("{\"won\":1,\"total\":2,\"lost\":1}").is_err());
    assert!(Stats::deserialize("{\"total\":a,\"won\":0,\"lost\":0}").is_err());
    assert!(Stats::deserialize("{\"total\":1,\"won\":1,\"lost\":0} ").is_err());
    assert!(Stats::deserialize("{\"total\":-1,\"won\":0,\"lost\":0}").is_err());
    assert!(Stats::deserialize("{\"total\":1,\"won\":1,\"lost\":0").is_err());
}

#[test]
fn deserialize_rejects_values_beyond_the_counter_type() {
    assert!(Stats::deserialize("{\"total\":4294967296,\"won\":0,\"lost\":0}").is_err());
    let max = Stats::deserialize("{\"total\":4294967295,\"won\":0,\"lost\":0}").unwrap();
    assert_eq!(max.total, 4294967295);
}

#[test]
fn deserialize_reads_back_exact_fields() {
    let st = Stats::deserialize("{\"total\":7,\"won\":3,\"lost\":4}").unwrap();
    assert_eq!((st.total, st.won, st.lost), (7, 3, 4));
}
