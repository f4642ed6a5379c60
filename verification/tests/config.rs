use hwatch::config::{join_command, parse_interval, start_mode, Config, ConfigError};
use hwatch::view::Mode;

fn words(list: &[&str]) -> Vec<String> {
    list.iter().map(|w| w.to_string()).collect()
}

#[test]
fn parse_interval_reads_decimal_digits() {
    assert_eq!(parse_interval("2"), Ok(2));
    assert_eq!(parse_interval("0"), Ok(0));
    assert_eq!(parse_interval("007"), Ok(7));
    assert_eq!(parse_interval("+15"), Ok(15));
    assert_eq!(parse_interval("86400"), Ok(86400));
    assert_eq!(parse_interval("18446744073709551615"), Ok(u64::MAX));
}

#[test]
fn parse_interval_refuses_what_is_no_number() {
    for text in
        ["", "+", "-1", "1.5", "2s", " 2", "2 ", "abc", "1_000", "++1", "1+", "18446744073709551616",
            "99999999999999999999999", "٣"]
    {
        assert_eq!(parse_interval(text), Err(ConfigError::InvalidInterval), "{:?}", text);
    }
}

#[test]
fn parse_interval_agrees_with_the_standard_parser() {
    for text in ["12", "+0", "0000", "18446744073709551615", "18446744073709551620", "x1", "-0", ""] {
        assert_eq!(parse_interval(text).ok(), text.parse::<u64>().ok(), "{:?}", text);
    }
}

#[test]
fn join_command_puts_a_space_between_words() {
    assert_eq!(join_command(&words(&[])), "");
    assert_eq!(join_command(&words(&["ls"])), "ls");
    assert_eq!(join_command(&words(&["ls", "-l", "/tmp"])), "ls -l /tmp");
    assert_eq!(join_command(&words(&["echo", "", "x"])), "echo  x");
}

#[test]
fn start_mode_follows_the_differences_flag() {
    assert_eq!(start_mode(false), Mode::Watch);
    assert_eq!(start_mode(true), Mode::DiffWatch);
}

#[test]
fn config_takes_valid_arguments() {
    let config =
        Config::new(&words(&["echo", "A"]), "2", false, true, true, Some("log".to_string()));
    assert_eq!(
        config,
        Ok(Config {
            command: "echo A".to_string(),
            interval: 2,
            batch: false,
            color: true,
            differences: true,
            logfile: Some("log".to_string()),
        })
    );
}

#[test]
fn config_refuses_a_missing_command() {
    assert_eq!(
        Config::new(&words(&[]), "2", false, false, false, None),
        Err(ConfigError::MissingCommand)
    );
    assert_eq!(
        Config::new(&words(&[]), "x", false, false, false, None),
        Err(ConfigError::MissingCommand)
    );
}

#[test]
fn config_refuses_an_interval_that_is_no_number() {
    assert_eq!(
        Config::new(&words(&["ls"]), "two", true, false, false, None),
        Err(ConfigError::InvalidInterval)
    );
}
