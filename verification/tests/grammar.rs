use arc_cliwallet::grammar::{assert_no_more, str_eq, tokenize, Command, CommandError};

// The compressed encoding of a valid curve point (the generator).
const VALID_KEY: &str = "0279BE667EF9DCBBAC55A06295CE870B07029BFCDB2DCE28D959F2815B16F81798";

fn valid_key_bytes() -> Vec<u8> {
    VALID_KEY
        .parse::<secp256k1::PublicKey>()
        .unwrap()
        .serialize()
        .to_vec()
}

#[test]
fn balance_parses() {
    assert_eq!(Command::from_str("balance"), Ok(Command::Balance));
}

#[test]
fn help_parses() {
    assert_eq!(Command::from_str("help"), Ok(Command::Help));
}

#[test]
fn pubkey_parses() {
    assert_eq!(Command::from_str("pubkey"), Ok(Command::Pubkey));
}

#[test]
fn zero_arg_commands_reject_trailing_tokens() {
    assert_eq!(
        Command::from_str("balance extra"),
        Err(CommandError::ArgumentCount { expected: 0 })
    );
    assert_eq!(
        Command::from_str("help x y"),
        Err(CommandError::ArgumentCount { expected: 0 })
    );
    assert_eq!(
        Command::from_str("pubkey  z"),
        Err(CommandError::ArgumentCount { expected: 0 })
    );
}

#[test]
fn empty_and_whitespace_lines_are_no_command() {
    assert_eq!(Command::from_str(""), Err(CommandError::NoCommand));
    assert_eq!(Command::from_str("   "), Err(CommandError::NoCommand));
    assert_eq!(Command::from_str("\t \r\n"), Err(CommandError::NoCommand));
}

#[test]
fn unknown_keywords_are_rejected() {
    assert_eq!(Command::from_str("foo"), Err(CommandError::UnknownCommand));
    assert_eq!(
        Command::from_str("Balance"),
        Err(CommandError::UnknownCommand)
    );
    assert_eq!(
        Command::from_str("payx 1 2"),
        Err(CommandError::UnknownCommand)
    );
}

#[test]
fn pay_parses_amount_and_recipient() {
    let line = format!("pay 100 {}", VALID_KEY);
    assert_eq!(
        Command::from_str(&line),
        Ok(Command::Pay {
            value: 100,
            to: valid_key_bytes(),
        })
    );
}

#[test]
fn pay_accepts_leading_plus_and_extra_whitespace() {
    let line = format!("  pay\t+42  {} ", VALID_KEY);
    assert_eq!(
        Command::from_str(&line),
        Ok(Command::Pay {
            value: 42,
            to: valid_key_bytes(),
        })
    );
}

#[test]
fn pay_accepts_the_largest_amount() {
    let line = format!("pay 18446744073709551615 {}", VALID_KEY);
    assert_eq!(
        Command::from_str(&line),
        Ok(Command::Pay {
            value: u64::MAX,
            to: valid_key_bytes(),
        })
    );
}

#[test]
fn pay_rejects_an_overflowing_amount() {
    let line = format!("pay 18446744073709551616 {}", VALID_KEY);
    assert_eq!(
        Command::from_str(&line),
        Err(CommandError::InvalidArgument {
            message: "invalid value: 18446744073709551616".to_string(),
        })
    );
}

#[test]
fn pay_rejects_a_non_numeric_amount() {
    let line = format!("pay abc {}", VALID_KEY);
    assert_eq!(
        Command::from_str(&line),
        Err(CommandError::InvalidArgument {
            message: "invalid value: abc".to_string(),
        })
    );
}

#[test]
fn pay_rejects_a_malformed_recipient() {
    let err = Command::from_str("pay 100 zzz").unwrap_err();
    match err {
        CommandError::InvalidArgument { message } => {
            assert!(message.starts_with("invalid public key: "));
        }
        other => panic!("expected InvalidArgument, got {:?}", other),
    }
}

#[test]
fn pay_with_missing_recipient_is_an_arity_error() {
    assert_eq!(
        Command::from_str("pay 100"),
        Err(CommandError::ArgumentCount { expected: 2 })
    );
}

#[test]
fn pay_arity_is_checked_before_the_amount() {
    // A bad amount with a missing recipient still reports the arity.
    assert_eq!(
        Command::from_str("pay abc"),
        Err(CommandError::ArgumentCount { expected: 2 })
    );
    assert_eq!(
        Command::from_str("pay"),
        Err(CommandError::ArgumentCount { expected: 2 })
    );
}

#[test]
fn pay_with_a_trailing_token_is_an_arity_error() {
    let line = format!("pay 100 {} extra", VALID_KEY);
    assert_eq!(
        Command::from_str(&line),
        Err(CommandError::ArgumentCount { expected: 2 })
    );
}

#[test]
fn parsing_twice_yields_equal_results() {
    let pay = format!("pay 7 {}", VALID_KEY);
    for line in ["balance", "pay 1", "nonsense", "", pay.as_str()] {
        assert_eq!(Command::from_str(line), Command::from_str(line));
    }
}

#[test]
fn tokenize_splits_on_ascii_whitespace() {
    assert_eq!(tokenize("a  b\tc"), vec!["a", "b", "c"]);
    assert_eq!(tokenize("  lead and trail  "), vec!["lead", "and", "trail"]);
    assert_eq!(tokenize(""), Vec::<&str>::new());
    assert_eq!(tokenize(" \t "), Vec::<&str>::new());
}

#[test]
fn str_eq_compares_contents() {
    assert!(str_eq("pay", "pay"));
    assert!(!str_eq("pay", "pa"));
    assert!(!str_eq("pay", "pax"));
    assert!(str_eq("", ""));
}

#[test]
fn assert_no_more_checks_leftover_tokens() {
    let toks = vec!["balance", "extra"];
    assert_eq!(
        assert_no_more(&toks, 1, 0),
        Err(CommandError::ArgumentCount { expected: 0 })
    );
    assert_eq!(assert_no_more(&toks, 2, 0), Ok(()));
}
