//! Benchmark configuration: named presets, custom mixes, and the parsing of
//! command-line values into a configuration.
use vstd::prelude::*;

verus! {

/// The value size, in bytes, that every preset uses.
pub const PRESET_VALUE_SIZE: usize = 100;

/// The record count that a preset uses unless one is given.
pub const PRESET_RECORDS: usize = 1000;

/// The Zipfian skew that presets use, in thousandths (θ = 0.99).
pub const PRESET_SKEW_MILLI: u32 = 990;

/// A named YCSB workload.
#[derive(Debug, Clone, Copy, PartialEq, Eq, Structural)]
pub enum YCSB {
    /// Update heavy: half reads, half writes.
    A,
    /// Read mostly: 95% reads.
    B,
    /// Read only.
    C,
    /// Write only.
    WR,
}

/// How keys are chosen.
#[derive(Debug, Clone, Copy, PartialEq, Eq, Structural)]
pub enum Dist {
    /// Zipfian popularity with skew θ given in thousandths (990 is θ = 0.99).
    Zipfian(u32),
    /// Every key equally likely.
    Uniform,
}

/// An immutable description of the benchmark to run.
#[derive(Debug, Clone, Copy, PartialEq, Eq, Structural)]
pub struct Config {
    /// Memory budget of the store, in bytes.
    pub mem: usize,
    /// The preset this configuration came from; `None` for a custom mix.
    pub ycsb: Option<YCSB>,
    /// Number of records loaded and addressed.
    pub records: usize,
    /// Size of each value, in bytes.
    pub size: usize,
    /// Key distribution.
    pub dist: Dist,
    /// Percentage of operations that are reads (0 to 100).
    pub read_pct: usize,
    /// Operations per second to sustain; 0 means unthrottled.
    pub ops: u64,
}

/// The read percentage of each preset.
pub open spec fn preset_read_pct(w: YCSB) -> nat {
    match w {
        YCSB::A => 50,
        YCSB::B => 95,
        YCSB::C => 100,
        YCSB::WR => 0,
    }
}

/// A distribution is usable: a Zipfian skew lies strictly between 0 and 1.
pub open spec fn dist_valid(d: Dist) -> bool {
    match d {
        Dist::Zipfian(s) => 0 < s < 1000,
        Dist::Uniform => true,
    }
}

impl Config {
    /// At least one record, non-empty values, a percentage, a usable distribution.
    pub open spec fn wf(&self) -> bool {
        &&& self.records > 0
        &&& self.size > 0
        &&& self.read_pct <= 100
        &&& dist_valid(self.dist)
    }

    /// A preset with its default record count.
    pub fn ycsb(mem: usize, ops: u64, w: YCSB) -> (r: Config)
        ensures
            r == Config::preset(mem, ops, w, PRESET_RECORDS),
            r.wf(),
    {
        Self::ycsb_more(mem, ops, w, PRESET_RECORDS)
    }

    /// What a preset holds for a given record count.
    pub open spec fn preset(mem: usize, ops: u64, w: YCSB, records: usize) -> Config {
        Config {
            mem,
            ycsb: Some(w),
            records,
            size: PRESET_VALUE_SIZE,
            dist: Dist::Zipfian(PRESET_SKEW_MILLI),
            read_pct: preset_read_pct(w) as usize,
            ops,
        }
    }

    /// A preset with an explicit record count.
    pub fn ycsb_more(mem: usize, ops: u64, w: YCSB, records: usize) -> (r: Config)
        requires
            records > 0,
        ensures
            r == Config::preset(mem, ops, w, records),
            r.wf(),
    {
        let rp: usize = match w {
            YCSB::A => 50,
            YCSB::B => 95,
            YCSB::C => 100,
            YCSB::WR => 0,
        };
        Config {
            mem,
            ycsb: Some(w),
            records,
            size: PRESET_VALUE_SIZE,
            dist: Dist::Zipfian(PRESET_SKEW_MILLI),
            read_pct: rp,
            ops,
        }
    }

    /// A custom mix: every field given, no defaults applied.
    pub fn custom(mem: usize, ops: u64, records: usize, size: usize, dist: Dist, read_pct: usize) -> (r: Config)
        requires
            records > 0,
            size > 0,
            read_pct <= 100,
            dist_valid(dist),
        ensures
            r == (Config { mem, ycsb: None, records, size, dist, read_pct, ops }),
            r.wf(),
    {
        Config { mem, ycsb: None, records, size, dist, read_pct, ops }
    }
}

/// A command-line flag that carries a value.
#[derive(Debug, Clone, Copy, PartialEq, Eq, Structural)]
pub enum Flag {
    Capacity,
    Ops,
    Records,
    Size,
    ReadPct,
    Dist,
}

/// Why a configuration could not be built.
#[derive(Debug, Clone, Copy, PartialEq, Eq, Structural)]
pub enum ConfigError {
    /// A required flag was not given.
    Missing(Flag),
    /// A flag's value is not a decimal number in range of its type.
    NotANumber(Flag),
    /// The value lies outside what a configuration admits (no records, empty
    /// values, a read percentage over 100).
    OutOfRange(Flag),
    /// The preset name is none of `A`, `B`, `C`, `WR`.
    UnknownPreset,
    /// The distribution name is neither `zipfian` nor `uniform`.
    UnknownDistribution,
}

/// The raw values of the command-line flags, as given.
#[derive(Debug)]
pub struct Args {
    pub ycsb: Option<String>,
    pub capacity: Option<String>,
    pub ops: Option<String>,
    pub records: Option<String>,
    pub size: Option<String>,
    pub readpct: Option<String>,
    pub dist: Option<String>,
}

pub open spec fn is_digit(c: char) -> bool {
    '0' <= c <= '9'
}

/// The number that a string of decimal digits denotes.
pub open spec fn digits_value(s: Seq<char>) -> nat
    decreases s.len(),
{
    if s.len() == 0 {
        0
    } else {
        digits_value(s.drop_last()) * 10 + ((s.last() as u32) - ('0' as u32)) as nat
    }
}

/// What follows an optional leading `+`.
pub open spec fn unsigned_digits(s: Seq<char>) -> Seq<char> {
    if s.len() > 0 && s[0] == '+' {
        s.drop_first()
    } else {
        s
    }
}

/// The value of `s` read as a base-ten unsigned integer no larger than `max`:
/// an optional `+`, then one or more digits, and nothing else.
pub open spec fn decimal_in(s: Seq<char>, max: nat) -> Option<nat> {
    let d = unsigned_digits(s);
    if d.len() > 0 && (forall|i: int| 0 <= i < d.len() ==> is_digit(#[trigger] d[i])) && digits_value(d)
        <= max {
        Some(digits_value(d))
    } else {
        None
    }
}

/// Relies on num's `Num::from_str_radix` for `usize`, which calls std's
/// `usize::from_str_radix`: in base ten it accepts an optional `+` followed by
/// digits only, and fails on anything else or on a value out of range.
#[verifier::external_body]
fn usize_from_decimal(s: &str) -> (r: Option<usize>)
    ensures
        r is Some <==> decimal_in(s@, usize::MAX as nat) is Some,
        r is Some ==> r->0 as nat == decimal_in(s@, usize::MAX as nat)->0,
{
    match <usize as num::Num>::from_str_radix(s, 10) {
        Ok(v) => Some(v),
        Err(_) => None,
    }
}

/// Relies on num's `Num::from_str_radix` for `u64`, which calls std's
/// `u64::from_str_radix`: in base ten it accepts an optional `+` followed by
/// digits only, and fails on anything else or on a value out of range.
#[verifier::external_body]
fn u64_from_decimal(s: &str) -> (r: Option<u64>)
    ensures
        r is Some <==> decimal_in(s@, u64::MAX as nat) is Some,
        r is Some ==> r->0 as nat == decimal_in(s@, u64::MAX as nat)->0,
{
    match <u64 as num::Num>::from_str_radix(s, 10) {
        Ok(v) => Some(v),
        Err(_) => None,
    }
}

pub open spec fn opt_view(o: Option<String>) -> Option<Seq<char>> {
    match o {
        Some(s) => Some(s@),
        None => None,
    }
}

/// A required numeric flag: missing, not a number, or its value.
pub open spec fn num_arg(v: Option<Seq<char>>, flag: Flag, max: nat) -> Result<nat, ConfigError> {
    match v {
        None => Err(ConfigError::Missing(flag)),
        Some(s) => match decimal_in(s, max) {
            None => Err(ConfigError::NotANumber(flag)),
            Some(n) => Ok(n),
        },
    }
}

/// Reads a required flag's value as a `usize`.
pub fn arg_as_usize(value: &Option<String>, flag: Flag) -> (r: Result<usize, ConfigError>)
    ensures
        r matches Ok(n) ==> num_arg(opt_view(*value), flag, usize::MAX as nat) == Ok::<nat, ConfigError>(n as nat),
        r matches Err(e) ==> num_arg(opt_view(*value), flag, usize::MAX as nat) == Err::<nat, ConfigError>(e),
{
    match value {
        None => Err(ConfigError::Missing(flag)),
        Some(s) => match usize_from_decimal(s.as_str()) {
            None => Err(ConfigError::NotANumber(flag)),
            Some(n) => Ok(n),
        },
    }
}

/// Reads a required flag's value as a `u64`.
pub fn arg_as_u64(value: &Option<String>, flag: Flag) -> (r: Result<u64, ConfigError>)
    ensures
        r matches Ok(n) ==> num_arg(opt_view(*value), flag, u64::MAX as nat) == Ok::<nat, ConfigError>(n as nat),
        r matches Err(e) ==> num_arg(opt_view(*value), flag, u64::MAX as nat) == Err::<nat, ConfigError>(e),
{
    match value {
        None => Err(ConfigError::Missing(flag)),
        Some(s) => match u64_from_decimal(s.as_str()) {
            None => Err(ConfigError::NotANumber(flag)),
            Some(n) => Ok(n),
        },
    }
}

/// Whether `s` is exactly the text `word`.
fn text_is(s: &str, word: &str) -> (r: bool)
    ensures
        r == (s@ == word@),
{
    let n = s.unicode_len();
    if n != word.unicode_len() {
        return false;
    }
    let mut i: usize = 0;
    while i < n
        invariant
            n == s@.len(),
            n == word@.len(),
            i <= n,
            forall|j: int| 0 <= j < i ==> s@[j] == word@[j],
        decreases n - i,
    {
        if s.get_char(i) != word.get_char(i) {
            return false;
        }
        i = i + 1;
    }
    assert(s@ =~= word@);
    true
}

/// The preset a name selects.
pub open spec fn preset_named(s: Seq<char>) -> Option<YCSB> {
    if s == "A"@ {
        Some(YCSB::A)
    } else if s == "B"@ {
        Some(YCSB::B)
    } else if s == "C"@ {
        Some(YCSB::C)
    } else if s == "WR"@ {
        Some(YCSB::WR)
    } else {
        None
    }
}

/// The distribution a name selects; Zipfian takes the presets' skew.
pub open spec fn dist_named(s: Seq<char>) -> Option<Dist> {
    if s == "zipfian"@ {
        Some(Dist::Zipfian(PRESET_SKEW_MILLI))
    } else if s == "uniform"@ {
        Some(Dist::Uniform)
    } else {
        None
    }
}

/// Looks up a preset by name.
pub fn parse_preset(s: &str) -> (r: Option<YCSB>)
    ensures
        r == preset_named(s@),
{
    if text_is(s, "A") {
        Some(YCSB::A)
    } else if text_is(s, "B") {
        Some(YCSB::B)
    } else if text_is(s, "C") {
        Some(YCSB::C)
    } else if text_is(s, "WR") {
        Some(YCSB::WR)
    } else {
        None
    }
}

/// Looks up a distribution by name.
pub fn parse_dist(s: &str) -> (r: Option<Dist>)
    ensures
        r == dist_named(s@),
{
    if text_is(s, "zipfian") {
        Some(Dist::Zipfian(PRESET_SKEW_MILLI))
    } else if text_is(s, "uniform") {
        Some(Dist::Uniform)
    } else {
        None
    }
}

/// The distribution flag: missing, unknown, or the distribution it names.
pub open spec fn dist_arg(v: Option<Seq<char>>) -> Result<Dist, ConfigError> {
    match v {
        None => Err(ConfigError::Missing(Flag::Dist)),
        Some(s) => match dist_named(s) {
            None => Err(ConfigError::UnknownDistribution),
            Some(d) => Ok(d),
        },
    }
}

/// The configuration that flags without a preset describe. Numeric flags are
/// read in the order size, capacity, ops, records, read percentage, and the
/// first failure is reported; then the distribution, then the ranges.
pub open spec fn custom_of(a: Args) -> Result<Config, ConfigError> {
    let size = num_arg(opt_view(a.size), Flag::Size, usize::MAX as nat);
    let cap = num_arg(opt_view(a.capacity), Flag::Capacity, usize::MAX as nat);
    let ops = num_arg(opt_view(a.ops), Flag::Ops, u64::MAX as nat);
    let records = num_arg(opt_view(a.records), Flag::Records, usize::MAX as nat);
    let pct = num_arg(opt_view(a.readpct), Flag::ReadPct, usize::MAX as nat);
    let dist = dist_arg(opt_view(a.dist));
    if size is Err {
        Err(size->Err_0)
    } else if cap is Err {
        Err(cap->Err_0)
    } else if ops is Err {
        Err(ops->Err_0)
    } else if records is Err {
        Err(records->Err_0)
    } else if pct is Err {
        Err(pct->Err_0)
    } else if dist is Err {
        Err(dist->Err_0)
    } else if records->Ok_0 == 0 {
        Err(ConfigError::OutOfRange(Flag::Records))
    } else if size->Ok_0 == 0 {
        Err(ConfigError::OutOfRange(Flag::Size))
    } else if pct->Ok_0 > 100 {
        Err(ConfigError::OutOfRange(Flag::ReadPct))
    } else {
        Ok(
            Config {
                mem: cap->Ok_0 as usize,
                ycsb: None,
                records: records->Ok_0 as usize,
                size: size->Ok_0 as usize,
                dist: dist->Ok_0,
                read_pct: pct->Ok_0 as usize,
                ops: ops->Ok_0 as u64,
            },
        )
    }
}

/// The configuration that a preset name and the flags describe: capacity and
/// ops are required, records optional; the other flags are not read.
pub open spec fn preset_of(name: Seq<char>, a: Args) -> Result<Config, ConfigError> {
    let cap = num_arg(opt_view(a.capacity), Flag::Capacity, usize::MAX as nat);
    let ops = num_arg(opt_view(a.ops), Flag::Ops, u64::MAX as nat);
    if preset_named(name) is None {
        Err(ConfigError::UnknownPreset)
    } else if cap is Err {
        Err(cap->Err_0)
    } else if ops is Err {
        Err(ops->Err_0)
    } else {
        let w = preset_named(name)->0;
        match opt_view(a.records) {
            None => Ok(Config::preset(cap->Ok_0 as usize, ops->Ok_0 as u64, w, PRESET_RECORDS)),
            Some(s) => match decimal_in(s, usize::MAX as nat) {
                None => Err(ConfigError::NotANumber(Flag::Records)),
                Some(n) => if n == 0 {
                    Err(ConfigError::OutOfRange(Flag::Records))
                } else {
                    Ok(Config::preset(cap->Ok_0 as usize, ops->Ok_0 as u64, w, n as usize))
                },
            },
        }
    }
}

/// The configuration that the flags describe.
pub open spec fn config_of(a: Args) -> Result<Config, ConfigError> {
    match a.ycsb {
        None => custom_of(a),
        Some(name) => preset_of(name@, a),
    }
}

fn custom_from_args(a: &Args) -> (r: Result<Config, ConfigError>)
    ensures
        r == custom_of(*a),
{
    let size = match arg_as_usize(&a.size, Flag::Size) {
        Ok(v) => v,
        Err(e) => return Err(e),
    };
    let capacity = match arg_as_usize(&a.capacity, Flag::Capacity) {
        Ok(v) => v,
        Err(e) => return Err(e),
    };
    let ops = match arg_as_u64(&a.ops, Flag::Ops) {
        Ok(v) => v,
        Err(e) => return Err(e),
    };
    let records = match arg_as_usize(&a.records, Flag::Records) {
        Ok(v) => v,
        Err(e) => return Err(e),
    };
    let readpct = match arg_as_usize(&a.readpct, Flag::ReadPct) {
        Ok(v) => v,
        Err(e) => return Err(e),
    };
    let dist = match &a.dist {
        None => return Err(ConfigError::Missing(Flag::Dist)),
        Some(s) => match parse_dist(s.as_str()) {
            None => return Err(ConfigError::UnknownDistribution),
            Some(d) => d,
        },
    };
    if records == 0 {
        return Err(ConfigError::OutOfRange(Flag::Records));
    }
    if size == 0 {
        return Err(ConfigError::OutOfRange(Flag::Size));
    }
    if readpct > 100 {
        return Err(ConfigError::OutOfRange(Flag::ReadPct));
    }
    Ok(Config::custom(capacity, ops, records, size, dist, readpct))
}

fn preset_from_args(name: &str, a: &Args) -> (r: Result<Config, ConfigError>)
    ensures
        r == preset_of(name@, *a),
{
    let w = match parse_preset(name) {
        None => return Err(ConfigError::UnknownPreset),
        Some(w) => w,
    };
    let capacity = match arg_as_usize(&a.capacity, Flag::Capacity) {
        Ok(v) => v,
        Err(e) => return Err(e),
    };
    let ops = match arg_as_u64(&a.ops, Flag::Ops) {
        Ok(v) => v,
        Err(e) => return Err(e),
    };
    match &a.records {
        None => Ok(Config::ycsb(capacity, ops, w)),
        Some(s) => match usize_from_decimal(s.as_str()) {
            None => Err(ConfigError::NotANumber(Flag::Records)),
            Some(n) => {
                if n == 0 {
                    Err(ConfigError::OutOfRange(Flag::Records))
                } else {
                    Ok(Config::ycsb_more(capacity, ops, w, n))
                }
            },
        },
    }
}

/// Builds the configuration that the command-line flags describe: a preset
/// when `ycsb` is given, else a custom mix from the other flags.
pub fn config_from_args(a: &Args) -> (r: Result<Config, ConfigError>)
    ensures
        r == config_of(*a),
        r matches Ok(c) ==> c.wf(),
{
    match &a.ycsb {
        None => custom_from_args(a),
        Some(name) => preset_from_args(name.as_str(), a),
    }
}

} // verus!
