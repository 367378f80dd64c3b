//! What all wallet drivers share: seed words, keys and addresses, balances and tip heights.

use vstd::prelude::*;

use crate::amount::{amount_is_safe, plain_number, safe_amount};
use crate::driver::{result_view, text_result_view};
use crate::metrics::text_view;
use crate::tari::{
    address_text, dual_address, micro_minotari, phrase_of, public_keys, random_seed, read_amount,
    recover_seed, seed_birthday, seed_entropy, seed_of, seed_salt, wallet_public_keys, write_seed,
};
use crate::text::{
    after_first_line, after_last, after_last_is, all_digits, before_first, before_first_is,
    before_first_stops, decimal, decimal_reads_back, find_line, first_line, has_text, hex_digits,
    hex_doubles_the_length, hex_text, is_digit, line_with, remove_char, text_after_last, trim,
    trim_end, trim_end_text, trim_start, trim_text, without, without_keeps, without_splits,
    CharClass,
};

verus! {

/// Default wallet account name used by the `minotari` CLI.
pub const DEFAULT_ACCOUNT_NAME: &'static str = "default";

/// Response from the base-node `/get_tip_info` HTTP endpoint.
#[derive(Clone, Copy, PartialEq, Eq, Structural, Debug)]
pub struct TipInfoResponse {
    pub metadata: TipMetadata,
}

#[derive(Clone, Copy, PartialEq, Eq, Structural, Debug)]
pub struct TipMetadata {
    pub best_block_height: u64,
}

/// `name` inside the directory `dir`.
pub open spec fn path_in(dir: Seq<char>, name: Seq<char>) -> Seq<char> {
    if dir.len() == 0 || dir.last() == '/' {
        dir + name
    } else {
        dir + "/"@ + name
    }
}

/// `name` inside the directory `dir`: one slash between the two, none for the empty directory.
pub fn join_path(dir: &str, name: &str) -> (r: String)
    ensures
        r@ == path_in(dir@, name@),
{
    let length: usize = dir.unicode_len();
    let mut path = dir.to_owned();
    if length != 0 && dir.get_char(length - 1) != '/' {
        path.append("/");
    }
    path.append(name);
    path
}

/// Path to the `seed_words.txt` file inside a wallet data directory.
pub fn seed_words_path(data_dir: &str) -> (r: String)
    ensures
        r@ == path_in(data_dir@, "seed_words.txt"@),
{
    join_path(data_dir, "seed_words.txt")
}

/// The base-node endpoint that tells the chain tip.
pub open spec fn tip_info_endpoint(base_node_url: Seq<char>) -> Seq<char> {
    trim_end(base_node_url, CharClass::Slash) + "/get_tip_info"@
}

/// The URL under which a base node tells the chain tip.
pub fn tip_info_url(base_node_url: &str) -> (r: String)
    ensures
        r@ == tip_info_endpoint(base_node_url@),
{
    trim_end_text(base_node_url, CharClass::Slash).concat("/get_tip_info")
}

/// The height of the chain tip in a base node's response.
pub fn get_tip_height(tip: &TipInfoResponse) -> (r: u64)
    ensures
        r == tip.metadata.best_block_height,
{
    tip.metadata.best_block_height
}

/// What reading the file of seed words came to.
#[derive(PartialEq, Eq, Debug)]
pub enum StoredWords {
    Found(String),
    Missing,
    /// The file could not be read, for the given reason.
    Unreadable(String),
}

/// Seed words to use.
#[derive(PartialEq, Eq, Debug)]
pub struct LoadedWords {
    pub words: String,
    /// The words have to be written to the file of seed words.
    pub persist: bool,
}

/// What a wallet's seed words come to.
pub open spec fn words_settled(stored: StoredWords, config_seed: Option<&str>, r: Result<LoadedWords, String>) -> bool {
    match (stored, config_seed) {
        (StoredWords::Found(text), _) => {
            &&& r is Ok
            &&& r->Ok_0.words@ == trim(text@)
            &&& !r->Ok_0.persist
        },
        (StoredWords::Unreadable(reason), _) => r is Err && r->Err_0@ == reason@,
        (StoredWords::Missing, Some(provided)) => match r {
            Ok(loaded) => {
                &&& loaded.persist
                &&& seed_of(provided@) is Ok
                &&& loaded.words@ == provided@
            },
            Err(message) => seed_of(provided@) is Err && message@
                == "failed to reconstruct cipher seed from config"@,
        },
        (StoredWords::Missing, None) => {
            &&& r is Ok
            &&& r->Ok_0.persist
            &&& seed_of(r->Ok_0.words@) is Ok
            &&& r->Ok_0.words@.len() > 0
            &&& trim(r->Ok_0.words@) == r->Ok_0.words@
        },
    }
}

/// Settles which seed words a wallet uses.
///
/// Stored words win, without the white space around them. If there are none, the configured words
/// are used, which must be a valid seed phrase; without those, a fresh phrase is generated. Words
/// that were not stored are to be persisted, so that the next run uses the same wallet.
pub fn load_or_create_seed_words(stored: StoredWords, config_seed: Option<&str>) -> (r: Result<
    LoadedWords,
    String,
>)
    ensures
        words_settled(stored, config_seed, r),
{
    match stored {
        StoredWords::Found(text) => Ok(
            LoadedWords { words: trim_text(text.as_str()), persist: false },
        ),
        StoredWords::Unreadable(reason) => Err(reason),
        StoredWords::Missing => match config_seed {
            Some(provided) => match recover_seed(provided) {
                Ok(_) => Ok(LoadedWords { words: provided.to_owned(), persist: true }),
                Err(_) => Err("failed to reconstruct cipher seed from config".to_owned()),
            },
            None => {
                match write_seed(&random_seed()) {
                    Ok(words) => Ok(LoadedWords { words, persist: true }),
                    Err(message) => Err(message),
                }
            },
        },
    }
}

/// What the file of seed words holds after they were settled.
pub open spec fn file_after(stored: Seq<char>, loaded: LoadedWords) -> Seq<char> {
    if loaded.persist {
        loaded.words@
    } else {
        stored
    }
}

/// Words that were settled once are settled the same way from then on: the file then gives the same
/// words, whatever the configuration says, and need not be written again. The wallet keeps its address.
/// Configured words count here if there is no white space around them.
pub proof fn loaded_words_stay_the_same(
    stored: StoredWords,
    config_seed: Option<&str>,
    first: Result<LoadedWords, String>,
    file: String,
    later_seed: Option<&str>,
    later: Result<LoadedWords, String>,
)
    requires
        words_settled(stored, config_seed, first),
        first is Ok,
        stored is Missing && config_seed is Some ==> trim(config_seed->0@) == config_seed->0@,
        file@ == match stored {
            StoredWords::Found(text) => file_after(text@, first->Ok_0),
            _ => file_after(Seq::empty(), first->Ok_0),
        },
        words_settled(StoredWords::Found(file), later_seed, later),
    ensures
        later is Ok,
        later->Ok_0.words@ == first->Ok_0.words@,
        !later->Ok_0.persist,
        derived_address(later->Ok_0.words@) == derived_address(first->Ok_0.words@),
{
}

/// A seed phrase with another birthday, or why there is none.
pub open spec fn rebirthed(seed_words: Seq<char>, birthday: u64) -> Result<Seq<char>, Seq<char>> {
    match seed_of(seed_words) {
        Err(_) => Err("failed to reconstruct cipher seed"@),
        Ok(seed) => if birthday > u16::MAX {
            Err("birthday value exceeds u16 range"@)
        } else {
            Ok(phrase_of(birthday as u16, seed_entropy(seed), seed_salt(seed)))
        },
    }
}

/// `phrase` is the seed phrase with the given birthday and the entropy and salt of `seed_words`.
pub open spec fn is_reborn(phrase: Seq<char>, seed_words: Seq<char>, birthday: u64) -> bool {
    &&& seed_of(phrase) is Ok
    &&& seed_of(seed_words) is Ok
    &&& seed_birthday(seed_of(phrase)->Ok_0) == birthday
    &&& seed_entropy(seed_of(phrase)->Ok_0) == seed_entropy(seed_of(seed_words)->Ok_0)
    &&& seed_salt(seed_of(phrase)->Ok_0) == seed_salt(seed_of(seed_words)->Ok_0)
    &&& rebirthed(seed_words, birthday) == Ok::<_, Seq<char>>(phrase)
}

/// Re-encodes a seed phrase with a new birthday, a number of days.
///
/// It succeeds for every seed phrase and every birthday that 16 bits hold. The new phrase has that
/// birthday and the old entropy and salt, so that it stands for the same wallet.
pub fn seed_words_with_birthday(seed_words: &str, birthday: u64) -> (r: Result<String, String>)
    ensures
        text_result_view(r) == rebirthed(seed_words@, birthday),
        r matches Ok(phrase) ==> phrase@.len() > 0 && is_reborn(phrase@, seed_words@, birthday),
{
    let mut seed = match recover_seed(seed_words) {
        Ok(seed) => seed,
        Err(_) => return Err("failed to reconstruct cipher seed".to_owned()),
    };
    if birthday > u16::MAX as u64 {
        return Err("birthday value exceeds u16 range".to_owned());
    }
    seed.change_birthday(birthday as u16);
    match write_seed(&seed) {
        Ok(phrase) => Ok(phrase),
        Err(_) => Err("failed to serialize seed words".to_owned()),
    }
}

/// Birthdays show in the phrase: re-encoded with two of them, a phrase comes out the same if and only
/// if they are the same. With another birthday than its own, it changes. What it was re-encoded with
/// before does not matter.
pub proof fn birthdays_show_in_the_phrase(
    seed_words: Seq<char>,
    birthday: u64,
    phrase: Seq<char>,
    other_birthday: u64,
    other_phrase: Seq<char>,
)
    requires
        is_reborn(phrase, seed_words, birthday),
        is_reborn(other_phrase, seed_words, other_birthday),
    ensures
        rebirthed(seed_words, birthday) == Ok::<_, Seq<char>>(phrase),
        rebirthed(seed_words, other_birthday) == Ok::<_, Seq<char>>(other_phrase),
        phrase == other_phrase <==> birthday == other_birthday,
        seed_birthday(seed_of(seed_words)->Ok_0) != birthday ==> phrase != seed_words,
        rebirthed(phrase, other_birthday) == rebirthed(seed_words, other_birthday),
{
}

/// A phrase re-encoded with another birthday stands for the same wallet: it derives the same keys and
/// the same address. Re-encoding it once more is as good as re-encoding the phrase at the start.
pub proof fn the_birthday_leaves_the_wallet_alone(
    seed_words: Seq<char>,
    birthday: u64,
    phrase: Seq<char>,
    next_birthday: u64,
    next_phrase: Seq<char>,
)
    requires
        is_reborn(phrase, seed_words, birthday),
        is_reborn(next_phrase, phrase, next_birthday),
    ensures
        wallet_keys(phrase) == wallet_keys(seed_words),
        wallet_keys(phrase) is Ok,
        derived_address(phrase) == derived_address(seed_words),
        derived_address(phrase) is Some,
        is_reborn(next_phrase, seed_words, next_birthday),
{
}

/// The amount on a balance line: what follows its last colon, without thousands separators and
/// without the unit.
pub open spec fn balance_amount(line: Seq<char>) -> Seq<char> {
    let amount = without(trim(after_last(line, ':')), ',');
    trim(trim_end(trim_end(amount, CharClass::WhiteSpace), CharClass::NonAmount))
}

/// The text that a `minotari balance` output marks its balance with.
pub open spec fn balance_line(stdout: Seq<char>) -> Option<Seq<char>> {
    line_with(stdout, "Balance at height"@)
}

/// What is said of an amount that cannot be read.
pub open spec fn unreadable_amount(line: Seq<char>) -> Seq<char> {
    "failed to parse balance amount '"@ + balance_amount(line) + "' from line: '"@ + line + "'"@
}

/// The balance in a `minotari balance` output, or why there is none.
pub open spec fn balance_in(stdout: Seq<char>) -> Result<u64, Seq<char>> {
    match balance_line(stdout) {
        None => Err("balance output did not contain a balance line"@),
        Some(line) => match micro_minotari(balance_amount(line)) {
            Ok(balance) => Ok(balance),
            Err(_) => Err(unreadable_amount(line)),
        },
    }
}

/// The balance in a `minotari balance` output whose amount is a plain number.
pub open spec fn stated_balance(stdout: Seq<char>) -> Option<u64> {
    match balance_line(stdout) {
        Some(line) => plain_number(balance_amount(line)),
        None => None,
    }
}

/// The amount on the balance line, if there is one, is safe to read.
pub open spec fn balance_is_safe(stdout: Seq<char>) -> bool {
    balance_line(stdout) matches Some(line) ==> safe_amount(balance_amount(line))
}

/// Finds the balance line of a `minotari balance` output.
pub fn find_balance_line(stdout: &str) -> (r: Option<String>)
    ensures
        match r {
            Some(line) => balance_line(stdout@) == Some(line@),
            None => balance_line(stdout@) is None,
        },
{
    find_line(stdout, "Balance at height")
}

/// The amount on a balance line.
pub fn balance_amount_text(line: &str) -> (r: String)
    ensures
        r@ == balance_amount(line@),
{
    let amount = trim_text(text_after_last(line, ':').as_str());
    let amount = remove_char(amount.as_str(), ',');
    let amount = trim_end_text(amount.as_str(), CharClass::WhiteSpace);
    let amount = trim_end_text(amount.as_str(), CharClass::NonAmount);
    trim_text(amount.as_str())
}

/// The balance of a line whose amount was read with the given outcome.
pub fn balance_from(line: &str, read: Result<u64, String>) -> (r: Result<u64, String>)
    ensures
        result_view(r) == match read {
            Ok(balance) => Ok(balance),
            Err(_) => Err(unreadable_amount(line@)),
        },
{
    match read {
        Ok(balance) => Ok(balance),
        Err(_) => {
            let amount = balance_amount_text(line);
            Err(
                "failed to parse balance amount '".to_owned().concat(amount.as_str()).concat(
                    "' from line: '",
                ).concat(line).concat("'"),
            )
        },
    }
}

/// Tells whether the balance of an output can be read without overflow.
pub fn balance_is_readable(stdout: &str) -> (r: bool)
    ensures
        r == balance_is_safe(stdout@),
{
    match find_balance_line(stdout) {
        Some(line) => amount_is_safe(balance_amount_text(line.as_str()).as_str()),
        None => true,
    }
}

/// Reads the `Balance at height` line of a `minotari balance` output.
pub fn parse_balance_output(stdout: &str) -> (r: Result<u64, String>)
    requires
        balance_is_safe(stdout@),
    ensures
        result_view(r) == balance_in(stdout@),
        stated_balance(stdout@) matches Some(balance) ==> r == Ok::<_, String>(balance),
{
    match find_balance_line(stdout) {
        None => Err("balance output did not contain a balance line".to_owned()),
        Some(line) => {
            let amount = balance_amount_text(line.as_str());
            balance_from(line.as_str(), read_amount(amount.as_str()))
        },
    }
}

/// Reads the balance of an output, if it can be read without overflow.
pub fn parse_balance_output_checked(stdout: &str) -> (r: Option<Result<u64, String>>)
    ensures
        match r {
            Some(read) => balance_is_safe(stdout@) && result_view(read) == balance_in(stdout@) && (
            stated_balance(stdout@) matches Some(balance) ==> read == Ok::<_, String>(balance)),
            None => !balance_is_safe(stdout@),
        },
{
    if balance_is_readable(stdout) {
        Some(parse_balance_output(stdout))
    } else {
        None
    }
}

/// The view key and the public spend key of a seed phrase in hexadecimal digits, or why there are
/// none.
pub open spec fn wallet_keys(seed_words: Seq<char>) -> Result<(Seq<char>, Seq<char>), Seq<char>> {
    match seed_of(seed_words) {
        Err(_) => Err("failed to reconstruct cipher seed for key derivation"@),
        Ok(seed) => {
            let (view_key, spend_key) = public_keys(seed_entropy(seed));
            Ok((hex_digits(view_key), hex_digits(spend_key)))
        },
    }
}

/// A pair of texts by their characters, or the text of an error.
pub open spec fn pair_view(r: Result<(String, String), String>) -> Result<(Seq<char>, Seq<char>), Seq<char>> {
    match r {
        Ok((a, b)) => Ok((a@, b@)),
        Err(message) => Err(message@),
    }
}

/// Lower-case hexadecimal digits only.
pub open spec fn all_hex(s: Seq<char>) -> bool {
    forall|i: int| 0 <= i < s.len() ==> '0' <= #[trigger] s[i] <= '9' || 'a' <= s[i] <= 'f'
}

/// Derives the view key and the public spend key of a seed phrase, in hexadecimal digits. Every seed
/// phrase has them.
pub fn derive_wallet_keys(seed_words: &str) -> (r: Result<(String, String), String>)
    ensures
        pair_view(r) == wallet_keys(seed_words@),
        r is Ok == seed_of(seed_words@) is Ok,
        r matches Ok((view_key, spend_key)) ==> {
            &&& view_key@.len() == 64 && all_hex(view_key@)
            &&& spend_key@.len() == 64 && all_hex(spend_key@)
        },
{
    let seed = match recover_seed(seed_words) {
        Ok(seed) => seed,
        Err(_) => return Err("failed to reconstruct cipher seed for key derivation".to_owned()),
    };
    match wallet_public_keys(seed) {
        Err(reason) => Err(
            "failed to construct wallet for key derivation: ".to_owned().concat(reason.as_str()),
        ),
        Ok((view_key, spend_key)) => {
            proof {
                hex_doubles_the_length(view_key@);
                hex_doubles_the_length(spend_key@);
            }
            Ok((hex_text(&view_key), hex_text(&spend_key)))
        },
    }
}

/// A text has keys and an address if and only if it is a seed phrase. The keys are written in pairs of
/// lower-case hexadecimal digits.
pub proof fn seed_phrases_have_keys(seed_words: Seq<char>)
    ensures
        wallet_keys(seed_words) is Ok <==> seed_of(seed_words) is Ok,
        derived_address(seed_words) is Some <==> seed_of(seed_words) is Ok,
        wallet_keys(seed_words) matches Ok((view_key, spend_key)) ==> {
            &&& view_key.len() % 2 == 0 && all_hex(view_key)
            &&& spend_key.len() % 2 == 0 && all_hex(spend_key)
        },
{
    if let Ok(seed) = seed_of(seed_words) {
        let (view_key, spend_key) = public_keys(seed_entropy(seed));
        hex_doubles_the_length(view_key);
        hex_doubles_the_length(spend_key);
    }
}

/// The address of a seed phrase, if it is one.
pub open spec fn derived_address(seed_words: Seq<char>) -> Option<Seq<char>> {
    match seed_of(seed_words) {
        Err(_) => None,
        Ok(seed) => {
            let (view_key, spend_key) = public_keys(seed_entropy(seed));
            Some(dual_address(view_key, spend_key))
        },
    }
}

/// Derives the one-sided address of a seed phrase. Every seed phrase has one, and nothing else has.
pub fn derive_address(seed_words: &str) -> (r: Option<String>)
    ensures
        text_view(r) == derived_address(seed_words@),
{
    match recover_seed(seed_words) {
        Err(_) => None,
        Ok(seed) => match wallet_public_keys(seed) {
            Err(_) => None,
            Ok((view_key, spend_key)) => address_text(&view_key, &spend_key),
        },
    }
}

/// Digits in groups of three from the right, with commas between them.
pub open spec fn grouped(digits: Seq<char>) -> Seq<char>
    decreases digits.len(),
{
    if digits.len() <= 3 {
        digits
    } else {
        grouped(digits.take(digits.len() - 3)) + ","@ + digits.skip(digits.len() - 3)
    }
}

/// Grouped digits are digits and commas, begin with a digit, and without the commas they are the
/// digits.
proof fn grouped_digits(digits: Seq<char>)
    requires
        all_digits(digits),
        digits.len() > 0,
    ensures
        grouped(digits).len() > 0,
        is_digit(grouped(digits).first()),
        forall|i: int|
            0 <= i < grouped(digits).len() ==> is_digit(#[trigger] grouped(digits)[i])
                || grouped(digits)[i] == ',',
        without(grouped(digits), ',') == digits,
    decreases digits.len(),
{
    if digits.len() <= 3 {
        without_keeps(digits, ',');
    } else {
        let head = digits.take(digits.len() - 3);
        let tail = digits.skip(digits.len() - 3);
        assert forall|i: int| 0 <= i < head.len() implies is_digit(#[trigger] head[i]) by {
            assert(head[i] == digits[i]);
        }
        assert forall|i: int| 0 <= i < tail.len() implies is_digit(#[trigger] tail[i]) by {
            assert(tail[i] == digits[i + digits.len() - 3]);
        }
        grouped_digits(head);
        reveal_strlit(",");
        assert(","@ =~= seq![',']);
        without_splits(grouped(head) + ","@, tail, ',');
        without_splits(grouped(head), ","@, ',');
        without_keeps(tail, ',');
        reveal_with_fuel(without, 2);
        assert(without(","@, ',') =~= Seq::empty());
        assert(head + tail =~= digits);
        assert(without(grouped(digits), ',') =~= digits);
    }
}

/// A balance line as the `minotari` CLI prints it.
pub open spec fn printed_balance(height: nat, balance: nat) -> Seq<char> {
    "Balance at height "@ + decimal(height) + ": "@ + grouped(decimal(balance)) + " µT\n"@
}

/// Whole lines, in none of which a balance is marked.
pub open spec fn no_balance_lines(lines: Seq<char>) -> bool {
    &&& lines.len() == 0 || lines.last() == '\n'
    &&& balance_line(lines) is None
}

/// A text is looked through for a balance behind whole lines without one as if it stood alone.
proof fn lines_without_a_balance_are_passed_over(lines: Seq<char>, rest: Seq<char>)
    requires
        no_balance_lines(lines),
    ensures
        balance_line(lines + rest) == balance_line(rest),
    decreases lines.len(),
{
    if lines.len() == 0 {
        assert(lines + rest =~= rest);
    } else {
        let whole = lines + rest;
        let n = before_first(lines, '\n').len() as int;
        before_first_stops(lines, '\n');
        if n == lines.len() {
            assert(lines[lines.len() - 1] != '\n');
        }
        assert(whole[n] == '\n');
        before_first_is(whole, '\n', n);
        before_first_is(lines, '\n', n);
        assert(whole.take(n) =~= lines.take(n));
        assert(first_line(whole) == first_line(lines));
        let next = lines.skip(n + 1);
        assert(whole.skip(n + 1) =~= next + rest);
        assert(after_first_line(lines) == next);
        assert(after_first_line(whole) == next + rest);
        if next.len() > 0 {
            assert(next.last() == lines.last());
        }
        lines_without_a_balance_are_passed_over(next, rest);
    }
}

/// The balance that the CLI prints at any height is the balance that is read, whatever it is, behind
/// any lines that mark no balance and in front of any text: it is safe to read, and its amount is the
/// plain number. The lines in front alone give no balance.
pub proof fn a_printed_balance_reads_back(before: Seq<char>, height: nat, balance: u64, behind: Seq<char>)
    requires
        no_balance_lines(before),
    ensures
        balance_is_safe(before + printed_balance(height, balance as nat) + behind),
        stated_balance(before + printed_balance(height, balance as nat) + behind) == Some(balance),
        balance_in(before) == Err::<u64, _>("balance output did not contain a balance line"@),
{
    let output = printed_balance(height, balance as nat);
    let rest = output + behind;
    assert(before + output + behind =~= before + rest);
    lines_without_a_balance_are_passed_over(before, rest);
    a_printed_line_reads_back(height, balance);
    let n = output.len() - 1;
    reveal_strlit(" µT\n");
    assert(output[n] == '\n');
    before_first_stops(output, '\n');
    assert(before_first(output, '\n').len() == n);
    before_first_is(output, '\n', n);
    before_first_is(rest, '\n', n);
    assert(rest.take(n) =~= output.take(n));
    assert(first_line(rest) == first_line(output));
}

/// What a printed balance comes to.
proof fn a_printed_line_reads_back(height: nat, balance: u64)
    ensures
        ({
            let output = printed_balance(height, balance as nat);
            let line = first_line(output);
            &&& before_first(output, '\n').len() == output.len() - 1
            &&& has_text(line, "Balance at height"@)
            &&& safe_amount(balance_amount(line))
            &&& plain_number(balance_amount(line)) == Some(balance)
        }),
{
    let output = printed_balance(height, balance as nat);
    let digits = decimal(balance as nat);
    let amount = grouped(digits);
    let unit = seq![' ', 'µ', 'T'];
    reveal_strlit("Balance at height ");
    reveal_strlit("Balance at height");
    reveal_strlit(": ");
    reveal_strlit(" µT\n");
    assert(": "@ =~= seq![':', ' ']);
    assert(" µT\n"@ =~= unit.push('\n'));
    decimal_reads_back(height);
    decimal_reads_back(balance as nat);
    grouped_digits(digits);
    let head = "Balance at height "@ + decimal(height) + ": "@;
    let n = output.len() - 1;
    assert(output =~= head + amount + unit.push('\n'));
    // The line is all but the line feed.
    assert forall|i: int| 0 <= i < n implies output[i] != '\n' by {
        let h = 18 + decimal(height).len();
        if i < 18 {
            assert(output[i] == "Balance at height "@[i]);
        } else if i < h {
            assert(output[i] == decimal(height)[i - 18]);
        } else if i < h + 2 {
            assert(output[i] == ": "@[i - h]);
        } else if i < h + 2 + amount.len() {
            assert(output[i] == amount[i - h - 2]);
        } else {
            assert(output[i] == unit[i - h - 2 - amount.len()]);
        }
    }
    before_first_is(output, '\n', n);
    let line = output.take(n);
    assert(line =~= head + amount + unit);
    assert(line.last() == 'T');
    assert(first_line(output) == line);
    assert(line.subrange(0, 0int + "Balance at height"@.len()) =~= "Balance at height"@);
    assert(has_text(line, "Balance at height"@));
    // The amount follows the colon.
    let start = head.len() - 1;
    assert(line[start - 1] == ':');
    let rest = line.skip(start);
    assert(rest =~= seq![' '] + amount + unit);
    assert forall|i: int| start <= i < line.len() implies line[i] != ':' by {
        assert(line[i] == rest[i - start]);
        if 1 <= i - start <= amount.len() {
            assert(rest[i - start] == amount[i - start - 1]);
        }
    }
    after_last_is(line, ':', start);
    // Trimming takes the space in front.
    let class = CharClass::WhiteSpace;
    let shown = amount + unit;
    assert(rest.first() == ' ');
    assert(rest.drop_first() =~= shown);
    assert(shown.first() == amount.first());
    reveal_with_fuel(trim_start, 2);
    assert(trim_start(rest, class) == shown);
    assert(shown.last() == 'T');
    assert(trim(rest) == shown);
    // The commas go.
    without_splits(amount, unit, ',');
    without_keeps(unit, ',');
    let plain = digits + unit;
    assert(without(shown, ',') == plain);
    // The unit goes.
    assert(plain.last() == 'T');
    assert(trim_end(plain, class) == plain);
    reveal_with_fuel(trim_end, 3);
    let one = plain.drop_last();
    assert(one.last() == 'µ');
    let two = one.drop_last();
    assert(two.last() == ' ');
    assert(trim_end(plain, CharClass::NonAmount) == two);
    assert(two.first() == digits.first());
    assert(trim_start(two, class) == two);
    assert(two.drop_last() =~= digits);
    assert(is_digit(digits.last()));
    assert(trim_end(two, class) == digits);
    assert(trim(two) == digits);
    assert(balance_amount(line) == digits);
    assert forall|i: int| 0 <= i < digits.len() implies digits[i] != '.' by {
        assert(is_digit(digits[i]));
    }
}

/// A file in a directory stands behind exactly one slash, and behind none in the empty directory.
pub proof fn paths_have_one_slash(dir: &str, name: &str, r: String)
    requires
        call_ensures(join_path, (dir, name), r),
    ensures
        dir@.len() == 0 ==> r@ == name@,
        dir@.len() > 0 ==> {
            let cut = r@.len() - name@.len();
            &&& r@.skip(cut) == name@
            &&& r@[cut - 1] == '/'
            &&& r@.take(dir@.len() as int) == dir@
            &&& cut == dir@.len() || cut == dir@.len() + 1 && dir@.last() != '/'
        },
{
    reveal_strlit("/");
    if dir@.len() > 0 {
        let cut = r@.len() - name@.len();
        assert(r@.skip(cut) =~= name@);
        assert(r@.take(dir@.len() as int) =~= dir@);
    } else {
        assert(r@ =~= name@);
    }
}

/// Stored words win over configured ones, and are used without the white space around them; words that
/// cannot be read are an error. Configured words are used as they are if they are a seed phrase, and a
/// fresh phrase is made if there are none. What was not stored is to be stored.
pub proof fn stored_words_win(stored: StoredWords, config_seed: Option<&str>, r: Result<LoadedWords, String>)
    requires
        call_ensures(load_or_create_seed_words, (stored, config_seed), r),
    ensures
        stored matches StoredWords::Found(text) ==> r is Ok && r->Ok_0.words@ == trim(text@),
        stored matches StoredWords::Unreadable(reason) ==> r is Err && r->Err_0@ == reason@,
        r matches Ok(loaded) ==> (loaded.persist <==> stored is Missing),
        stored is Missing && config_seed is Some ==> {
            &&& r is Ok <==> seed_of(config_seed->0@) is Ok
            &&& r matches Ok(loaded) ==> loaded.words@ == config_seed->0@
        },
        stored is Missing && config_seed is None ==> r is Ok && seed_of(r->Ok_0.words@) is Ok,
{
}

/// Every seed phrase can be given every birthday of up to 65535 days, and nothing else can. The new
/// phrase has that birthday, and stands for the same wallet.
pub proof fn every_phrase_takes_every_birthday(seed_words: &str, birthday: u64, r: Result<String, String>)
    requires
        call_ensures(seed_words_with_birthday, (seed_words, birthday), r),
    ensures
        r is Ok <==> seed_of(seed_words@) is Ok && birthday < 65536,
        r matches Ok(phrase) ==> {
            &&& seed_of(phrase@) is Ok
            &&& seed_birthday(seed_of(phrase@)->Ok_0) == birthday
            &&& seed_entropy(seed_of(phrase@)->Ok_0) == seed_entropy(seed_of(seed_words@)->Ok_0)
            &&& derived_address(phrase@) == derived_address(seed_words@)
            &&& wallet_keys(phrase@) == wallet_keys(seed_words@)
        },
{
}

/// The keys and the address of a wallet are those of its entropy: the view key comes first and the spend
/// key second, in both.
pub proof fn keys_and_address_belong_together(
    seed_words: &str,
    keys: Result<(String, String), String>,
    address: Option<String>,
)
    requires
        call_ensures(derive_wallet_keys, (seed_words,), keys),
        call_ensures(derive_address, (seed_words,), address),
    ensures
        keys is Ok <==> address is Some,
        keys is Ok <==> seed_of(seed_words@) is Ok,
        keys matches Ok(pair) ==> {
            let own = public_keys(seed_entropy(seed_of(seed_words@)->Ok_0));
            &&& pair.0@ == hex_digits(own.0)
            &&& pair.1@ == hex_digits(own.1)
            &&& address->0@ == dual_address(own.0, own.1)
        },
{
    if let Some(text) = address {
        assert(text_view(address) == Some(text@));
    }
}

/// The tip height is the one that the base node tells, and it is asked for at one address, however many
/// slashes the configured one ends with.
pub proof fn tips_are_asked_for_at_one_address(base: &str, slashed: &str, r: String, same: String, tip: TipInfoResponse, height: u64)
    requires
        call_ensures(tip_info_url, (base,), r),
        call_ensures(tip_info_url, (slashed,), same),
        slashed@ == base@.push('/'),
        call_ensures(get_tip_height, (&tip,), height),
    ensures
        r@ == same@,
        height == tip.metadata.best_block_height,
        base@.len() > 0 && base@.last() != '/' ==> r@ == base@ + "/get_tip_info"@,
{
    assert(slashed@.drop_last() =~= base@);
}

/// The balance that the CLI prints at any height, behind any lines that mark none and in front of any
/// text, is the balance that is read.
pub proof fn printed_balances_are_read(
    before: Seq<char>,
    height: nat,
    balance: u64,
    behind: Seq<char>,
    stdout: &str,
    r: Option<Result<u64, String>>,
)
    requires
        no_balance_lines(before),
        stdout@ == before + printed_balance(height, balance as nat) + behind,
        call_ensures(parse_balance_output_checked, (stdout,), r),
    ensures
        r matches Some(Ok(read)) && read == balance,
{
    a_printed_balance_reads_back(before, height, balance, behind);
}

} // verus!
