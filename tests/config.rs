use ycsb::config::{
    arg_as_u64, arg_as_usize, config_from_args, parse_dist, parse_preset, Args, Config,
    ConfigError, Dist, Flag, YCSB, PRESET_SKEW_MILLI,
};

fn no_args() -> Args {
    Args {
        ycsb: None,
        capacity: None,
        ops: None,
        records: None,
        size: None,
        readpct: None,
        dist: None,
    }
}

fn some(s: &str) -> Option<String> {
    Some(s.to_string())
}

fn custom_args() -> Args {
    Args {
        ycsb: None,
        capacity: some("1073741824"),
        ops: some("0"),
        records: some("1000"),
        size: some("100"),
        readpct: some("100"),
        dist: some("uniform"),
    }
}

#[test]
fn preset_read_percentages() {
    assert_eq!(Config::ycsb(1 << 30, 0, YCSB::A).read_pct, 50);
    assert_eq!(Config::ycsb(1 << 30, 0, YCSB::B).read_pct, 95);
    assert_eq!(Config::ycsb(1 << 30, 0, YCSB::C).read_pct, 100);
    assert_eq!(Config::ycsb(1 << 30, 0, YCSB::WR).read_pct, 0);
}

#[test]
fn preset_defaults() {
    for w in [YCSB::A, YCSB::B, YCSB::C, YCSB::WR] {
        let c = Config::ycsb(4096, 7, w);
        assert_eq!(c.size, 100);
        assert_eq!(c.records, 1000);
        assert_eq!(c.dist, Dist::Zipfian(990));
        assert_eq!(c.ycsb, Some(w));
        assert_eq!(c.mem, 4096);
        assert_eq!(c.ops, 7);
    }
}

#[test]
fn preset_record_override() {
    let c = Config::ycsb_more(4096, 0, YCSB::B, 50_000);
    assert_eq!(c.records, 50_000);
    assert_eq!(c.size, 100);
    assert_eq!(c.read_pct, 95);
}

#[test]
fn custom_applies_no_defaults() {
    let c = Config::custom(10, 20, 30, 40, Dist::Uniform, 60);
    assert_eq!(
        c,
        Config { mem: 10, ycsb: None, records: 30, size: 40, dist: Dist::Uniform, read_pct: 60, ops: 20 }
    );
}

#[test]
fn parses_decimal_values() {
    assert_eq!(arg_as_usize(&some("42"), Flag::Size), Ok(42));
    assert_eq!(arg_as_usize(&some("+7"), Flag::Size), Ok(7));
    assert_eq!(arg_as_u64(&some("18446744073709551615"), Flag::Ops), Ok(u64::MAX));
    assert_eq!(arg_as_u64(&some("007"), Flag::Ops), Ok(7));
}

#[test]
fn rejects_non_numbers() {
    assert_eq!(arg_as_usize(&some("abc"), Flag::Size), Err(ConfigError::NotANumber(Flag::Size)));
    assert_eq!(arg_as_usize(&some(""), Flag::Size), Err(ConfigError::NotANumber(Flag::Size)));
    assert_eq!(arg_as_usize(&some("+"), Flag::Size), Err(ConfigError::NotANumber(Flag::Size)));
    assert_eq!(arg_as_usize(&some("-1"), Flag::Records), Err(ConfigError::NotANumber(Flag::Records)));
    assert_eq!(arg_as_usize(&some(" 5"), Flag::Records), Err(ConfigError::NotANumber(Flag::Records)));
    assert_eq!(arg_as_u64(&some("18446744073709551616"), Flag::Ops), Err(ConfigError::NotANumber(Flag::Ops)));
    assert_eq!(arg_as_u64(&some("1_000"), Flag::Ops), Err(ConfigError::NotANumber(Flag::Ops)));
}

#[test]
fn missing_value() {
    assert_eq!(arg_as_u64(&None, Flag::Ops), Err(ConfigError::Missing(Flag::Ops)));
}

#[test]
fn names() {
    assert_eq!(parse_preset("A"), Some(YCSB::A));
    assert_eq!(parse_preset("B"), Some(YCSB::B));
    assert_eq!(parse_preset("C"), Some(YCSB::C));
    assert_eq!(parse_preset("WR"), Some(YCSB::WR));
    assert_eq!(parse_preset("a"), None);
    assert_eq!(parse_preset("W"), None);
    assert_eq!(parse_dist("zipfian"), Some(Dist::Zipfian(PRESET_SKEW_MILLI)));
    assert_eq!(parse_dist("uniform"), Some(Dist::Uniform));
    assert_eq!(parse_dist("Uniform"), None);
}

#[test]
fn custom_from_flags() {
    let c = config_from_args(&custom_args()).unwrap();
    assert_eq!(
        c,
        Config { mem: 1 << 30, ycsb: None, records: 1000, size: 100, dist: Dist::Uniform, read_pct: 100, ops: 0 }
    );
}

#[test]
fn custom_flag_errors() {
    let mut a = custom_args();
    a.size = None;
    assert_eq!(config_from_args(&a), Err(ConfigError::Missing(Flag::Size)));
    let mut a = custom_args();
    a.capacity = some("lots");
    assert_eq!(config_from_args(&a), Err(ConfigError::NotANumber(Flag::Capacity)));
    let mut a = custom_args();
    a.dist = None;
    assert_eq!(config_from_args(&a), Err(ConfigError::Missing(Flag::Dist)));
    let mut a = custom_args();
    a.dist = some("normal");
    assert_eq!(config_from_args(&a), Err(ConfigError::UnknownDistribution));
    let mut a = custom_args();
    a.readpct = some("101");
    assert_eq!(config_from_args(&a), Err(ConfigError::OutOfRange(Flag::ReadPct)));
    let mut a = custom_args();
    a.records = some("0");
    assert_eq!(config_from_args(&a), Err(ConfigError::OutOfRange(Flag::Records)));
    let mut a = custom_args();
    a.size = some("0");
    assert_eq!(config_from_args(&a), Err(ConfigError::OutOfRange(Flag::Size)));
}

#[test]
fn first_failing_flag_is_reported() {
    let mut a = no_args();
    a.readpct = some("x");
    assert_eq!(config_from_args(&a), Err(ConfigError::Missing(Flag::Size)));
}

#[test]
fn preset_from_flags() {
    let mut a = no_args();
    a.ycsb = some("B");
    a.capacity = some("4096");
    a.ops = some("500");
    a.size = some("not read");
    assert_eq!(config_from_args(&a), Ok(Config::ycsb(4096, 500, YCSB::B)));
    a.records = some("20");
    assert_eq!(config_from_args(&a), Ok(Config::ycsb_more(4096, 500, YCSB::B, 20)));
    a.records = some("twenty");
    assert_eq!(config_from_args(&a), Err(ConfigError::NotANumber(Flag::Records)));
    a.records = some("0");
    assert_eq!(config_from_args(&a), Err(ConfigError::OutOfRange(Flag::Records)));
}

#[test]
fn preset_flag_errors() {
    let mut a = no_args();
    a.ycsb = some("D");
    assert_eq!(config_from_args(&a), Err(ConfigError::UnknownPreset));
    a.ycsb = some("A");
    assert_eq!(config_from_args(&a), Err(ConfigError::Missing(Flag::Capacity)));
    a.capacity = some("1");
    assert_eq!(config_from_args(&a), Err(ConfigError::Missing(Flag::Ops)));
}
