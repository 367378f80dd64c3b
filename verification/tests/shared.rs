use harness::drivers::shared::{
    balance_amount_text, balance_from, balance_is_readable, derive_address, derive_wallet_keys,
    find_balance_line, get_tip_height, join_path, load_or_create_seed_words, parse_balance_output,
    parse_balance_output_checked, seed_words_path, seed_words_with_birthday, tip_info_url,
    StoredWords, TipInfoResponse, TipMetadata,
};
use tari_common_types::seeds::cipher_seed::CipherSeed;
use tari_common_types::seeds::mnemonic::Mnemonic;
use tari_common_types::seeds::seed_words::SeedWords;
use tari_common_types::tari_address::TariAddress;
use std::str::FromStr;

fn fresh_words() -> String {
    load_or_create_seed_words(StoredWords::Missing, None).unwrap().words
}

fn seed(words: &str) -> CipherSeed {
    CipherSeed::from_mnemonic(&SeedWords::from_str(words).unwrap(), None).unwrap()
}

#[test]
fn parse_balance_typical() {
    let out = "Balance at height 1234: 1,234,567 µT\n";
    assert_eq!(parse_balance_output(out).unwrap(), 1_234_567);
}

#[test]
fn parse_balance_thousands_separator() {
    let out = "Balance at height 42: 1,000,000,000 µT\n";
    assert_eq!(parse_balance_output(out).unwrap(), 1_000_000_000);
}

#[test]
fn parse_balance_zero() {
    let out = "Balance at height 0: 0 µT\n";
    assert_eq!(parse_balance_output(out).unwrap(), 0);
}

#[test]
fn parse_balance_errors_when_line_missing() {
    let out = "some random output\n";
    assert!(parse_balance_output(out).is_err());
}

#[test]
fn parse_balance_errors_on_empty() {
    assert!(parse_balance_output("").is_err());
}

#[test]
fn parse_balance_handles_micro_symbol() {
    let out = "Balance at height 5: 500 µT\n";
    assert_eq!(parse_balance_output(out).unwrap(), 500);
}

#[test]
fn parse_balance_any_non_negative_number() {
    let mut numbers: Vec<u64> = vec![0, 9, 10, 99, 999, 1_000, 999_999, 1_000_000, u64::MAX];
    let mut n: u64 = 1;
    while n < 10_000_000_000_000 {
        numbers.push(n);
        numbers.push(n * 7 + 3);
        n *= 13;
    }
    for h in numbers {
        let with_commas = h
            .to_string()
            .as_bytes()
            .rchunks(3)
            .rev()
            .map(|chunk| std::str::from_utf8(chunk).unwrap())
            .collect::<Vec<_>>()
            .join(",");
        let output = format!("Balance at height 42: {with_commas} µT\n");
        assert!(balance_is_readable(&output));
        assert_eq!(parse_balance_output(&output).unwrap(), h);
    }
}

#[test]
fn balances_in_whole_minotari_are_converted() {
    assert_eq!(parse_balance_output("Balance at height 7: 1.5 T").unwrap(), 1_500_000);
    assert_eq!(parse_balance_output("Balance at height 7: 12,345.000001 T\r\n").unwrap(), 12_345_000_001);
}

#[test]
fn the_first_balance_line_counts() {
    let out = "scanning\nBalance at height 1: 10 µT\nBalance at height 2: 20 µT\n";
    assert_eq!(parse_balance_output(out).unwrap(), 10);
    assert_eq!(find_balance_line(out).unwrap(), "Balance at height 1: 10 µT");
    assert_eq!(find_balance_line("Balance at\nheight"), None);
}

#[test]
fn unreadable_balances_are_quoted() {
    assert_eq!(
        parse_balance_output("Balance at height 3: none\n").unwrap_err(),
        "failed to parse balance amount '' from line: 'Balance at height 3: none'"
    );
    assert_eq!(
        parse_balance_output("nothing here").unwrap_err(),
        "balance output did not contain a balance line"
    );
    assert_eq!(
        balance_from("Balance at height 3: x1", Err("bad".to_string())).unwrap_err(),
        "failed to parse balance amount 'x1' from line: 'Balance at height 3: x1'"
    );
    assert_eq!(balance_from("any", Ok(4)), Ok(4));
}

#[test]
fn amounts_are_cut_out_of_their_lines() {
    for (line, amount) in [
        ("Balance at height 1: 1,234 µT", "1234"),
        ("a:b:  9,9,9  ", "999"),
        ("no colon 12", "no colon 12"),
        ("x: 5.25 T", "5.25"),
        ("x:", ""),
        ("x: 12x T", "12x"),
    ] {
        assert_eq!(balance_amount_text(line), amount);
    }
}

#[test]
fn amounts_that_could_overflow_are_told_apart() {
    let line = |amount: &str| format!("Balance at height 1: {amount} T");
    let nines = |n: usize| "9".repeat(n);
    for amount in [
        nines(130),
        "1.5e3".to_string(),
        format!("{}.", nines(119)),
        format!("{}.5", nines(127)),
        format!("{}.5", nines(1_000)),
        format!("000{}.5", nines(100)),
        format!("0.{}", nines(500)),
        format!("{}.5e-12", nines(130)),
        "1.5e-3".to_string(),
        "1.5e1000".to_string(),
        "0.5e-300".to_string(),
        "0.00000000001e119".to_string(),
        "-1.5".to_string(),
    ] {
        assert!(balance_is_readable(&line(&amount)), "{amount}");
        // Reading them is safe, whatever comes out.
        let read = parse_balance_output(&line(&amount));
        assert_eq!(parse_balance_output_checked(&line(&amount)), Some(read));
    }
    for amount in [
        format!("{}.", nines(120)),
        format!("{}.5", nines(126)),
        "1.5e123".to_string(),
        "0.5e125".to_string(),
        "12.5E119".to_string(),
        format!("{}.5", nines(30_000)),
    ] {
        assert!(!balance_is_readable(&line(&amount)), "{amount}");
        assert_eq!(parse_balance_output_checked(&line(&amount)), None);
    }
    assert!(balance_is_readable("nothing"));
    assert!(parse_balance_output_checked("nothing").unwrap().is_err());
    assert!(parse_balance_output(&line(&nines(130))).is_err());
    assert!(parse_balance_output(&line(&format!("{}.", nines(119)))).is_err());
    assert!(parse_balance_output(&line(&format!("{}.5", nines(127)))).is_err());
}

#[test]
fn balances_are_read_among_other_lines() {
    let before = "connecting\n\nBalance: 5 µT\n";
    let behind = "Balance at height 9: 7 µT\ndone";
    let output = format!("{before}Balance at height 8: 18,446,744,073,709,551,615 µT\n{behind}");
    assert_eq!(parse_balance_output(&output).unwrap(), u64::MAX);
    assert_eq!(
        parse_balance_output(before).unwrap_err(),
        "balance output did not contain a balance line"
    );
}

#[test]
fn seed_words_with_birthday_round_trip() {
    let words = fresh_words();
    let modified = seed_words_with_birthday(&words, 42).unwrap();
    assert!(!modified.is_empty());
    assert_ne!(modified, words, "birthday should change the seed encoding");
    assert_eq!(seed(&modified).birthday(), 42);
    assert_eq!(seed(&modified).entropy(), seed(&words).entropy());
}

#[test]
fn seed_words_with_birthday_genesis() {
    let words = fresh_words();
    let genesis = seed_words_with_birthday(&words, 0).unwrap();
    assert!(!genesis.is_empty());
}

#[test]
fn seed_words_with_birthday_errors_on_bad_seed() {
    assert!(seed_words_with_birthday("not valid seed words", 0).is_err());
    assert_eq!(
        seed_words_with_birthday("not valid seed words", 0).unwrap_err(),
        "failed to reconstruct cipher seed"
    );
}

#[test]
fn birthdays_have_sixteen_bits() {
    let words = fresh_words();
    assert!(seed_words_with_birthday(&words, 65_535).is_ok());
    assert_eq!(
        seed_words_with_birthday(&words, 65_536).unwrap_err(),
        "birthday value exceeds u16 range"
    );
}

#[test]
fn derive_wallet_keys_is_deterministic() {
    let words = fresh_words();
    let (vk1, sk1) = derive_wallet_keys(&words).unwrap();
    let (vk2, sk2) = derive_wallet_keys(&words).unwrap();
    assert_eq!(vk1, vk2, "view key must be deterministic");
    assert_eq!(sk1, sk2, "spend key must be deterministic");
}

#[test]
fn derive_wallet_keys_returns_non_empty_hex() {
    let words = fresh_words();
    let (view_key, spend_key) = derive_wallet_keys(&words).unwrap();
    assert!(!view_key.is_empty(), "view key hex should not be empty");
    assert!(!spend_key.is_empty(), "spend key hex should not be empty");
    assert!(view_key.len() % 2 == 0, "view key hex length should be even");
    assert!(spend_key.len() % 2 == 0, "spend key hex length should be even");
    assert!(
        view_key.chars().all(|c| c.is_ascii_hexdigit()),
        "view key should contain only hex chars"
    );
    assert!(
        spend_key.chars().all(|c| c.is_ascii_hexdigit()),
        "spend key should contain only hex chars"
    );
    assert_eq!((view_key.len(), spend_key.len()), (64, 64));
    assert_ne!(view_key, spend_key);
}

#[test]
fn derive_wallet_keys_errors_on_bad_seed() {
    assert!(derive_wallet_keys("not valid seed words").is_err());
    assert_eq!(
        derive_wallet_keys("not valid seed words").unwrap_err(),
        "failed to reconstruct cipher seed for key derivation"
    );
}

#[test]
fn creates_seed_words_file_when_missing() {
    let loaded = load_or_create_seed_words(StoredWords::Missing, None).unwrap();
    assert!(!loaded.words.is_empty(), "should generate new seed words");
    assert!(loaded.persist, "seed_words.txt should be created on disk");
    assert_eq!(loaded.words.trim(), loaded.words);
    assert_eq!(loaded.words.split(' ').count(), 24);
    let other = load_or_create_seed_words(StoredWords::Missing, None).unwrap();
    assert_ne!(loaded.words, other.words);
}

#[test]
fn reads_existing_seed_words_file() {
    let expected = "abandon abandon abandon abandon abandon abandon abandon abandon abandon abandon abandon about";
    let loaded =
        load_or_create_seed_words(StoredWords::Found(expected.to_string()), None).unwrap();
    assert_eq!(loaded.words, expected);
    assert!(!loaded.persist);
    let loaded =
        load_or_create_seed_words(StoredWords::Found(format!("\n {expected}\r\n")), Some("x"))
            .unwrap();
    assert_eq!(loaded.words, expected);
}

#[test]
fn configured_seed_words_are_checked_and_persisted() {
    let words = fresh_words();
    let loaded = load_or_create_seed_words(StoredWords::Missing, Some(&words)).unwrap();
    assert_eq!(loaded.words, words);
    assert!(loaded.persist);
    assert_eq!(
        load_or_create_seed_words(StoredWords::Missing, Some("no seed phrase")).unwrap_err(),
        "failed to reconstruct cipher seed from config"
    );
    assert_eq!(
        load_or_create_seed_words(StoredWords::Unreadable("denied".to_string()), Some(&words))
            .unwrap_err(),
        "denied"
    );
}

#[test]
fn seed_words_path_is_under_data_dir() {
    let path = seed_words_path("/tmp/wallet");
    assert!(path.contains("seed_words.txt"));
    assert!(path.starts_with("/tmp/wallet"));
    assert_eq!(path, "/tmp/wallet/seed_words.txt");
    assert_eq!(join_path("/tmp/wallet/", "x"), "/tmp/wallet/x");
    assert_eq!(join_path("", "x"), "x");
}

#[test]
fn seed_words_persist_across_directory_wipe() {
    let original = fresh_words();
    // The words are kept in memory, the directory is wiped, and the words are written back.
    let saved = original.clone();
    let restored = load_or_create_seed_words(StoredWords::Found(saved), None).unwrap().words;
    assert_eq!(restored, original, "seed words must survive directory wipe");
}

#[test]
fn derive_wallet_keys_recovers_same_wallet_after_recovery() {
    let words = fresh_words();
    let recovered =
        load_or_create_seed_words(StoredWords::Found(words.clone()), None).unwrap().words;
    let (vk1, sk1) = derive_wallet_keys(&words).unwrap();
    let (vk2, sk2) = derive_wallet_keys(&recovered).unwrap();
    assert_eq!(vk1, vk2, "view key must match after seed recovery");
    assert_eq!(sk1, sk2, "spend key must match after seed recovery");
}

#[test]
fn seed_words_with_birthday_produces_different_output_for_different_birthdays() {
    let words = fresh_words();
    let b0 = seed_words_with_birthday(&words, 0).unwrap();
    let b1 = seed_words_with_birthday(&words, 10).unwrap();
    let b2 = seed_words_with_birthday(&words, 100).unwrap();
    assert_ne!(b0, b1, "different birthdays should produce different encodings");
    assert_ne!(b1, b2, "different birthdays should produce different encodings");
    assert_ne!(b0, b2, "different birthdays should produce different encodings");
}

#[test]
fn same_birthday_produces_same_seed_encoding() {
    let words = fresh_words();
    let a = seed_words_with_birthday(&words, 42).unwrap();
    let b = seed_words_with_birthday(&words, 42).unwrap();
    assert_eq!(a, b, "same birthday must produce identical seed encoding");
}

#[test]
fn the_last_birthday_counts() {
    let words = fresh_words();
    let early = seed_words_with_birthday(&words, 7).unwrap();
    let late = seed_words_with_birthday(&words, 65_535).unwrap();
    assert_eq!(seed_words_with_birthday(&early, 65_535).unwrap(), late);
    assert_eq!(seed_words_with_birthday(&late, 7).unwrap(), early);
    assert_eq!(seed_words_with_birthday(&early, 7).unwrap(), early);
}

#[test]
fn white_space_outside_ascii_is_passed_over_in_configured_words() {
    let words = fresh_words();
    let padded = format!("{words}\u{a0}");
    let loaded = load_or_create_seed_words(StoredWords::Missing, Some(&padded)).unwrap();
    assert_eq!((loaded.words.as_str(), loaded.persist), (padded.as_str(), true));
    let later = load_or_create_seed_words(StoredWords::Found(loaded.words), None).unwrap();
    assert_eq!((later.words.as_str(), later.persist), (words.as_str(), false));
    assert_eq!(derive_address(&padded), derive_address(&words));
}

#[test]
fn the_birthday_leaves_keys_and_address_alone() {
    let words = fresh_words();
    let reborn = seed_words_with_birthday(&words, 1234).unwrap();
    assert_eq!(derive_wallet_keys(&words), derive_wallet_keys(&reborn));
    assert_eq!(derive_address(&words), derive_address(&reborn));
}

#[test]
fn addresses_hold_the_wallet_keys() {
    let words = fresh_words();
    let address = TariAddress::from_str(&derive_address(&words).unwrap()).unwrap();
    let (view_key, spend_key) = derive_wallet_keys(&words).unwrap();
    assert_eq!(address.public_view_key().unwrap().to_string(), view_key);
    assert_eq!(address.public_spend_key().to_string(), spend_key);
    assert_eq!(derive_address("no seed"), None);
}

#[test]
fn get_tip_height_returns_height() {
    let tip = TipInfoResponse { metadata: TipMetadata { best_block_height: 123_456 } };
    assert_eq!(get_tip_height(&tip), 123_456);
}

#[test]
fn get_tip_height_zero_returns_zero() {
    let tip = TipInfoResponse { metadata: TipMetadata { best_block_height: 0 } };
    assert_eq!(get_tip_height(&tip), 0);
}

#[test]
fn get_tip_height_large_height() {
    let tip = TipInfoResponse { metadata: TipMetadata { best_block_height: 9_999_999 } };
    assert_eq!(get_tip_height(&tip), 9_999_999);
}

#[test]
fn the_tip_is_asked_for_under_one_slash() {
    assert_eq!(tip_info_url("http://node:18142//"), "http://node:18142/get_tip_info");
    assert_eq!(tip_info_url("http://node"), "http://node/get_tip_info");
}

#[test]
fn white_space_around_configured_words_is_refused() {
    let words = fresh_words();
    for padded in [format!(" {words}"), format!("{words} "), format!("{words}\n"), format!("\t{words}")]
    {
        let refused = load_or_create_seed_words(StoredWords::Missing, Some(&padded));
        assert_eq!(
            refused.unwrap_err(),
            "failed to reconstruct cipher seed from config"
        );
    }
    let kept = load_or_create_seed_words(StoredWords::Missing, Some(&words)).unwrap();
    assert_eq!((kept.words.as_str(), kept.persist), (words.as_str(), true));
    let later = load_or_create_seed_words(StoredWords::Found(format!("{words}\n")), None).unwrap();
    assert_eq!((later.words, later.persist), (words, false));
}
