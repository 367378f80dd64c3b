//! Configuration of a benchmark run and of the command line.

use vstd::prelude::*;

use crate::metrics::text_view;
use crate::text::{decimal, numbers_read_back, parse_unsigned, same_text, trim, trim_text, unsigned};

verus! {

/// Seconds that a wallet process has to become reachable.
pub const STARTUP_TIMEOUT_SECS: u64 = 120;

/// Seconds that pending transactions have to clear before a reconstruction scan.
pub const CONFIRMATION_TIMEOUT_SECS: u64 = 300;

#[derive(Clone, PartialEq, Eq, Debug)]
pub struct Config {
    pub benchmark: BenchmarkParams,
    pub paths: BinaryPaths,
    pub network: NetworkConfig,
    pub passwords: Passwords,
    pub data: DataDirs,
    pub versions: VersionPins,
    pub seeds: Option<SeedPhrases>,
}

#[derive(Clone, PartialEq, Eq, Debug)]
pub struct BenchmarkParams {
    /// Funding amount that each mode must receive, in µT.
    pub a_fund: u64,
    /// Confirmations after which a transaction counts as spendable.
    pub c_min: u64,
    pub volume_target: u64,
    pub doubling_rounds: u64,
    pub fanout_outputs_per_tx: u64,
    pub concurrent_batches: Vec<u64>,
    pub s4_t_budget_secs: u64,
    pub s5_m: u64,
    pub s5_k: u64,
    /// Amount of each send, in µT.
    pub tx_amount_ut: u64,
    /// Fee rate in µT per gram, in decimal.
    pub fee_rate: String,
    pub scan_interval_secs: u64,
}

#[derive(Clone, PartialEq, Eq, Debug)]
pub struct BinaryPaths {
    pub wallet_bin: String,
    pub minotari_bin: String,
    pub payment_processor_bin: String,
    pub console_wallet_bin: String,
}

#[derive(Clone, PartialEq, Eq, Debug)]
pub struct NetworkConfig {
    pub base_node_grpc_url: String,
    pub base_node_http_url: String,
    pub grpc_port: u16,
}

#[derive(Clone, PartialEq, Eq, Debug)]
pub struct Passwords {
    pub old_wallet: String,
    pub new_wallet: String,
    pub payment_processor: String,
    pub library_wallet: String,
}

#[derive(Clone, PartialEq, Eq, Debug)]
pub struct DataDirs {
    pub old_wallet: String,
    pub new_wallet: String,
    pub payment_processor: String,
}

#[derive(Clone, PartialEq, Eq, Debug)]
pub struct VersionPins {
    pub console_wallet: String,
    pub minotari_cli: String,
    pub base_node: String,
}

/// Seed words to use in place of freshly generated ones, per wallet mode.
#[derive(Clone, PartialEq, Eq, Debug)]
pub struct SeedPhrases {
    pub old_wallet: Option<String>,
    pub new_wallet: Option<String>,
    pub payment_processor: Option<String>,
    pub library_wallet: Option<String>,
}

/// The fee rate that the configuration states, where it states one.
pub open spec fn stated_fee_rate(config: Config) -> Option<u64> {
    unsigned(config.benchmark.fee_rate@)
}

/// Reads the fee rate, where the configuration holds a valid one.
pub fn stated_fee_rate_of(config: &Config) -> (r: Option<u64>)
    ensures
        r == stated_fee_rate(*config),
{
    parse_unsigned(config.benchmark.fee_rate.as_str())
}

/// The fee rate of the configuration, which must be a valid unsigned 64-bit number.
pub fn parse_fee_rate(config: &Config) -> (r: u64)
    requires
        stated_fee_rate(*config) is Some,
    ensures
        Some(r) == stated_fee_rate(*config),
{
    match parse_unsigned(config.benchmark.fee_rate.as_str()) {
        Some(rate) => rate,
        None => 0,
    }
}

/// The configured path without surrounding white space, which must leave something.
pub fn require_nonempty_path(label: &str, value: &str) -> (r: Result<String, String>)
    ensures
        match r {
            Ok(path) => trim(value@).len() > 0 && path@ == trim(value@),
            Err(message) => trim(value@).len() == 0 && message@ == label@ + " must not be empty"@,
        },
{
    let trimmed = trim_text(value);
    if trimmed.as_str().is_empty() {
        let mut message = label.to_owned();
        message.append(" must not be empty");
        return Err(message);
    }
    Ok(trimmed)
}

/// The seed words that the configuration prescribes for a wallet mode.
pub open spec fn seed_for(config: Config, mode: Seq<char>) -> Option<Seq<char>> {
    match config.seeds {
        None => None,
        Some(seeds) => if mode == "old_wallet"@ {
            text_view(seeds.old_wallet)
        } else if mode == "new_wallet"@ {
            text_view(seeds.new_wallet)
        } else if mode == "payment_processor"@ {
            text_view(seeds.payment_processor)
        } else if mode == "library_wallet"@ {
            text_view(seeds.library_wallet)
        } else {
            None
        },
    }
}

/// A copy of a text that may be absent.
pub fn copy_text(text: &Option<String>) -> (r: Option<String>)
    ensures
        text_view(r) == text_view(*text),
{
    match text {
        Some(t) => Some(t.clone()),
        None => None,
    }
}

/// The seed words that the configuration prescribes for a wallet mode, if any.
pub fn config_seed_for(config: &Config, mode: &str) -> (r: Option<String>)
    ensures
        text_view(r) == seed_for(*config, mode@),
{
    match &config.seeds {
        None => None,
        Some(seeds) => {
            if same_text(mode, "old_wallet") {
                copy_text(&seeds.old_wallet)
            } else if same_text(mode, "new_wallet") {
                copy_text(&seeds.new_wallet)
            } else if same_text(mode, "payment_processor") {
                copy_text(&seeds.payment_processor)
            } else if same_text(mode, "library_wallet") {
                copy_text(&seeds.library_wallet)
            } else {
                None
            }
        },
    }
}

/// What the command line asks for.
#[derive(Clone, PartialEq, Eq, Debug)]
pub struct CliOptions {
    pub print_addresses: bool,
    pub use_library_wallet: bool,
    pub scenario_name: Option<String>,
    pub config_path: String,
}

/// The argument that follows the first occurrence of `flag`.
pub open spec fn value_after(args: Seq<String>, flag: Seq<char>) -> Option<Seq<char>>
    decreases args.len(),
{
    if args.len() == 0 {
        None
    } else if args.first()@ == flag {
        if args.len() > 1 {
            Some(args[1]@)
        } else {
            None
        }
    } else {
        value_after(args.drop_first(), flag)
    }
}

/// `flag` is among the arguments.
pub open spec fn has_flag(args: Seq<String>, flag: Seq<char>) -> bool {
    exists|i: int| 0 <= i < args.len() && (#[trigger] args[i])@ == flag
}

fn flag_present(args: &Vec<String>, flag: &str) -> (r: bool)
    ensures
        r == has_flag(args@, flag@),
{
    let mut i: usize = 0;
    while i < args.len()
        invariant
            i <= args.len(),
            forall|j: int| 0 <= j < i ==> (#[trigger] args@[j])@ != flag@,
        decreases args.len() - i,
    {
        if same_text(args[i].as_str(), flag) {
            return true;
        }
        i = i + 1;
    }
    false
}

fn flag_value(args: &Vec<String>, flag: &str) -> (r: Option<String>)
    ensures
        text_view(r) == value_after(args@, flag@),
{
    let mut i: usize = 0;
    proof {
        assert(args@.skip(0) =~= args@);
    }
    while i < args.len()
        invariant
            i <= args.len(),
            value_after(args@, flag@) == value_after(args@.skip(i as int), flag@),
        decreases args.len() - i,
    {
        proof {
            let rest = args@.skip(i as int);
            assert(rest.first() == args@[i as int]);
            assert(rest.drop_first() =~= args@.skip(i + 1));
            assert(rest.len() > 1 ==> rest[1] == args@[i + 1]);
        }
        if same_text(args[i].as_str(), flag) {
            if i + 1 < args.len() {
                return Some(args[i + 1].clone());
            }
            return None;
        }
        i = i + 1;
    }
    None
}

/// Reads the command line.
pub fn parse_args(args: &Vec<String>) -> (r: CliOptions)
    ensures
        r.print_addresses == has_flag(args@, "--print-addresses"@),
        r.use_library_wallet == has_flag(args@, "--library-wallet"@),
        text_view(r.scenario_name) == value_after(args@, "--scenario"@),
        r.config_path@ == match value_after(args@, "--config"@) {
            Some(path) => path,
            None => "config.toml"@,
        },
{
    CliOptions {
        print_addresses: flag_present(args, "--print-addresses"),
        use_library_wallet: flag_present(args, "--library-wallet"),
        scenario_name: flag_value(args, "--scenario"),
        config_path: match flag_value(args, "--config") {
            Some(path) => path,
            None => "config.toml".to_owned(),
        },
    }
}

/// The fee rate is the number that the configuration writes for it.
pub proof fn fee_rates_are_read_as_written(config: Config, n: u64, r: Option<u64>, parsed: u64)
    requires
        call_ensures(stated_fee_rate_of, (&config,), r),
        config.benchmark.fee_rate@ == decimal(n as nat),
        call_ensures(parse_fee_rate, (&config,), parsed),
    ensures
        r == Some(n),
        parsed == n,
        stated_fee_rate(config) == Some(n),
{
    numbers_read_back(n as nat, Seq::empty(), 0);
}

/// A configuration states no fee rate if it is empty or holds anything but digits, apart from a plus in
/// front of them.
pub proof fn other_fee_rates_are_refused(config: Config, i: int, r: Option<u64>)
    requires
        call_ensures(stated_fee_rate_of, (&config,), r),
    ensures
        ({
            let text = config.benchmark.fee_rate@;
            &&& text.len() == 0 ==> r is None
            &&& 0 <= i < text.len() && !('0' <= text[i] <= '9') && (i > 0 || text[i] != '+') ==> r
                is None
        }),
{
    numbers_read_back(0, config.benchmark.fee_rate@, i);
}

/// Each wallet mode has the seed words that the configuration holds under its name, and no other mode has
/// any.
pub proof fn modes_have_their_own_words(config: Config, mode: &str, r: Option<String>)
    requires
        call_ensures(config_seed_for, (&config, mode), r),
    ensures
        config.seeds is None ==> r is None,
        config.seeds matches Some(seeds) ==> {
            let words = if mode@ == "old_wallet"@ {
                seeds.old_wallet
            } else if mode@ == "new_wallet"@ {
                seeds.new_wallet
            } else if mode@ == "payment_processor"@ {
                seeds.payment_processor
            } else if mode@ == "library_wallet"@ {
                seeds.library_wallet
            } else {
                None
            };
            &&& r is Some == words is Some
            &&& words matches Some(text) ==> r->0@ == text@
        },
{
}

/// A path is what is configured without the white space around it; a path of white space alone is
/// refused.
pub proof fn paths_are_not_empty(label: &str, value: &str, r: Result<String, String>)
    requires
        call_ensures(require_nonempty_path, (label, value), r),
    ensures
        r matches Ok(path) ==> path@.len() > 0 && path@ == trim(value@),
        r is Err <==> trim(value@).len() == 0,
        r matches Err(message) ==> message@ == label@ + " must not be empty"@,
{
}

/// The value of a flag is the argument behind its first occurrence; there is none if the flag is not
/// there, or is the last argument.
pub proof fn values_follow_their_flag(args: Seq<String>, flag: Seq<char>, n: int)
    ensures
        (forall|i: int| 0 <= i < args.len() ==> (#[trigger] args[i])@ != flag) ==> value_after(
            args,
            flag,
        ) is None,
        0 <= n < args.len() && args[n]@ == flag && (forall|i: int|
            0 <= i < n ==> (#[trigger] args[i])@ != flag) ==> {
            &&& n + 1 < args.len() ==> value_after(args, flag) == Some(args[n + 1]@)
            &&& n + 1 == args.len() ==> value_after(args, flag) is None
        },
    decreases args.len(),
{
    if args.len() > 0 {
        let rest = args.drop_first();
        values_follow_their_flag(rest, flag, n - 1);
        assert(args[0] == args.first());
        assert(forall|i: int| 0 <= i < rest.len() ==> rest[i] == args[i + 1]);
        if 0 < n < args.len() && args[n]@ == flag {
            assert(rest[n - 1] == args[n]);
        }
    }
}

/// The command line is read by its flags: two of them are there or not, wherever they stand, and two
/// bring a value, the configuration being `config.toml` without one.
pub proof fn command_lines_are_read_by_their_flags(args: &Vec<String>, r: CliOptions)
    requires
        call_ensures(parse_args, (args,), r),
    ensures
        r.print_addresses <==> exists|i: int|
            0 <= i < args@.len() && (#[trigger] args@[i])@ == "--print-addresses"@,
        r.use_library_wallet <==> exists|i: int|
            0 <= i < args@.len() && (#[trigger] args@[i])@ == "--library-wallet"@,
        r.scenario_name is Some == value_after(args@, "--scenario"@) is Some,
        r.scenario_name matches Some(name) ==> value_after(args@, "--scenario"@) == Some(name@),
        value_after(args@, "--config"@) is None ==> r.config_path@ == "config.toml"@,
        value_after(args@, "--config"@) matches Some(path) ==> r.config_path@ == path,
{
}

} // verus!
