use vrchat_box::address::{vrchat_osc_addr, IpAddress, SocketAddress};
use vrchat_box::segmenter::BufferMode;
use vrchat_box::session::{Command, Session};
use vrchat_box::settings::{parse_args, Argument, Invocation, ParseArgsError, ProgramSettings};

const NO_ADDRESS: &str = "invalid socket address syntax";

fn word(text: &str) -> Argument {
    Argument { text: text.to_string(), address: Err(NO_ADDRESS.to_string()) }
}

fn address(text: &str, address: SocketAddress) -> Argument {
    Argument { text: text.to_string(), address: Ok(address) }
}

fn words(texts: &[&str]) -> Vec<Argument> {
    texts.iter().map(|text| word(text)).collect()
}

fn parsed(texts: &[&str]) -> ProgramSettings {
    parse_args(&words(texts)).unwrap()
}

fn int_error(text: &str) -> ParseArgsError {
    ParseArgsError::Int(text.parse::<u16>().unwrap_err())
}

#[test]
fn default_settings() {
    let settings = ProgramSettings::default();
    assert!(!settings.append_buffer);
    assert_eq!(settings.client_port, 0);
    assert!(!settings.make_sound);
    assert_eq!(settings.prompt, None);
    assert_eq!(
        settings.server_address,
        SocketAddress { ip: IpAddress::V4([127, 0, 0, 1]), port: 9000 }
    );
    assert!(!settings.show_keyboard);
    assert!(!settings.typing_indicator);
    assert!(!settings.do_help);
    assert!(!settings.do_version);
    assert!(!settings.do_clear);
}

#[test]
fn no_options_give_the_defaults() {
    assert_eq!(parsed(&[]), ProgramSettings::default());
    assert_eq!(parsed(&["vrchat-box"]), ProgramSettings::default());
    assert_eq!(parsed(&["vrchat-box", "stray", "-x"]), ProgramSettings::default());
}

#[test]
fn each_switch_sets_its_field() {
    assert!(parsed(&["p", "--help"]).do_help);
    assert!(parsed(&["p", "--version"]).do_version);
    assert!(parsed(&["p", "--clear"]).do_clear);
    assert!(parsed(&["p", "--enable-sfx"]).make_sound);
    assert!(parsed(&["p", "--show-keyboard"]).show_keyboard);
    assert!(parsed(&["p", "--append-mode"]).append_buffer);
    assert!(parsed(&["p", "--typing-indicator"]).typing_indicator);
    let only_help = parsed(&["p", "--help"]);
    assert_eq!(only_help, ProgramSettings { do_help: true, ..ProgramSettings::default() });
}

#[test]
fn switches_combine() {
    let settings = parsed(&["p", "--append-mode", "--enable-sfx", "--typing-indicator"]);
    assert_eq!(
        settings,
        ProgramSettings {
            append_buffer: true,
            make_sound: true,
            typing_indicator: true,
            ..ProgramSettings::default()
        }
    );
}

#[test]
fn client_port_is_read() {
    assert_eq!(parsed(&["p", "--client-port", "9001"]).client_port, 9001);
    assert_eq!(parsed(&["p", "--client-port", "0"]).client_port, 0);
    assert_eq!(parsed(&["p", "--client-port", "65535"]).client_port, 65535);
    assert_eq!(parsed(&["p", "--client-port", "+80"]).client_port, 80);
    assert_eq!(parsed(&["p", "--client-port", "00080"]).client_port, 80);
}

#[test]
fn last_client_port_wins() {
    assert_eq!(parsed(&["p", "--client-port", "1", "--client-port", "2"]).client_port, 2);
}

#[test]
fn unreadable_client_port_is_an_error() {
    for bad in ["abc", "65536", "-1", "", "+", "8 0", "80 ", "1_000", "0x10"] {
        let result = parse_args(&words(&["p", "--client-port", bad]));
        assert_eq!(result, Err(("--client-port".to_string(), int_error(bad))));
    }
}

#[test]
fn missing_value_is_an_error() {
    assert_eq!(
        parse_args(&words(&["p", "--client-port"])),
        Err(("--client-port".to_string(), ParseArgsError::Missing))
    );
    assert_eq!(
        parse_args(&words(&["p", "--help", "--server-address"])),
        Err(("--server-address".to_string(), ParseArgsError::Missing))
    );
}

#[test]
fn server_address_is_read() {
    let peer = SocketAddress { ip: IpAddress::V4([192, 168, 1, 20]), port: 9100 };
    let args = vec![word("p"), word("--server-address"), address("192.168.1.20:9100", peer)];
    assert_eq!(parse_args(&args).unwrap().server_address, peer);
    let v6 = SocketAddress { ip: IpAddress::V6([0, 0, 0, 0, 0, 0, 0, 1]), port: 9000 };
    let args = vec![word("p"), word("--server-address"), address("[::1]:9000", v6)];
    assert_eq!(parse_args(&args).unwrap().server_address, v6);
}

#[test]
fn unreadable_server_address_is_an_error() {
    let result = parse_args(&words(&["p", "--server-address", "nowhere"]));
    assert_eq!(
        result,
        Err(("--server-address".to_string(), ParseArgsError::Addr(NO_ADDRESS.to_string())))
    );
}

#[test]
fn first_unreadable_value_is_reported() {
    let result =
        parse_args(&words(&["p", "--server-address", "nowhere", "--client-port", "x"]));
    assert_eq!(
        result,
        Err(("--server-address".to_string(), ParseArgsError::Addr(NO_ADDRESS.to_string())))
    );
    let result =
        parse_args(&words(&["p", "--client-port", "x", "--server-address", "nowhere"]));
    assert_eq!(result, Err(("--client-port".to_string(), int_error("x"))));
}

#[test]
fn prompt_is_the_words_behind_the_mark_joined_by_spaces() {
    assert_eq!(parsed(&["p", "--", "hello", "world"]).prompt, Some("hello world".to_string()));
    assert_eq!(parsed(&["p", "--", "hello"]).prompt, Some("hello".to_string()));
    assert_eq!(parsed(&["p", "--"]).prompt, Some(String::new()));
    assert_eq!(parsed(&["p", "--", "a", "", "b"]).prompt, Some("a  b".to_string()));
    assert_eq!(parsed(&["p", "hello"]).prompt, None);
}

#[test]
fn words_behind_the_mark_are_prompt_text_and_nothing_else() {
    let settings = parsed(&["vrchat-box", "--", "say", "--help"]);
    assert_eq!(settings.prompt, Some("say --help".to_string()));
    assert!(!settings.do_help);
    assert_eq!(settings.invocation(), Invocation::Run);
    assert_eq!(settings.command(), Command::Prompt("say --help".to_string()));
    assert_eq!(
        settings,
        ProgramSettings { prompt: Some("say --help".to_string()), ..ProgramSettings::default() }
    );

    let settings = parsed(&[
        "p",
        "--",
        "--version",
        "--clear",
        "--enable-sfx",
        "--show-keyboard",
        "--append-mode",
        "--typing-indicator",
    ]);
    assert_eq!(
        settings,
        ProgramSettings {
            prompt: Some(
                "--version --clear --enable-sfx --show-keyboard --append-mode --typing-indicator"
                    .to_string()
            ),
            ..ProgramSettings::default()
        }
    );
}

#[test]
fn second_mark_is_prompt_text() {
    assert_eq!(parsed(&["p", "--", "a", "--", "b", "c"]).prompt, Some("a -- b c".to_string()));
    assert_eq!(parsed(&["p", "--", "--"]).prompt, Some("--".to_string()));
}

#[test]
fn values_behind_the_mark_are_not_read() {
    let settings = parsed(&["p", "--", "--client-port", "x"]);
    assert_eq!(settings.prompt, Some("--client-port x".to_string()));
    assert_eq!(settings.client_port, 0);
    let settings = parsed(&["p", "--", "--client-port", "9001"]);
    assert_eq!(settings.client_port, 0);
    let settings = parsed(&["p", "--", "--server-address"]);
    assert_eq!(settings.prompt, Some("--server-address".to_string()));
    assert_eq!(settings.server_address, vrchat_osc_addr());
    let peer = SocketAddress { ip: IpAddress::V4([10, 0, 0, 7]), port: 9100 };
    let args =
        vec![word("p"), word("--"), word("--server-address"), address("10.0.0.7:9100", peer)];
    let settings = parse_args(&args).unwrap();
    assert_eq!(settings.server_address, vrchat_osc_addr());
    assert_eq!(settings.prompt, Some("--server-address 10.0.0.7:9100".to_string()));
}

#[test]
fn options_before_the_mark_are_read() {
    let settings = parsed(&["p", "--enable-sfx", "--client-port", "9001", "--", "hi", "there"]);
    assert_eq!(
        settings,
        ProgramSettings {
            make_sound: true,
            client_port: 9001,
            prompt: Some("hi there".to_string()),
            ..ProgramSettings::default()
        }
    );
    let result = parse_args(&words(&["p", "--client-port", "x", "--", "hi"]));
    assert_eq!(result, Err(("--client-port".to_string(), int_error("x"))));
}

#[test]
fn mark_in_the_place_of_a_value_is_the_value() {
    let result = parse_args(&words(&["p", "--client-port", "--", "hello"]));
    assert_eq!(result, Err(("--client-port".to_string(), int_error("--"))));
    let result = parse_args(&words(&["p", "--client-port", "--"]));
    assert_eq!(result, Err(("--client-port".to_string(), int_error("--"))));
    let result = parse_args(&words(&["p", "--server-address", "--", "hello"]));
    assert_eq!(
        result,
        Err(("--server-address".to_string(), ParseArgsError::Addr(NO_ADDRESS.to_string())))
    );
}

#[test]
fn name_of_an_option_is_no_value() {
    let result = parse_args(&words(&["p", "--client-port", "--client-port"]));
    assert_eq!(result, Err(("--client-port".to_string(), int_error("--client-port"))));
    let result = parse_args(&words(&["p", "--client-port", "--help"]));
    assert_eq!(result, Err(("--client-port".to_string(), int_error("--help"))));
}

#[test]
fn error_messages() {
    assert_eq!(ParseArgsError::Missing.message(), "missing value");
    assert_eq!(ParseArgsError::Addr(NO_ADDRESS.to_string()).message(), NO_ADDRESS);
    assert_eq!(int_error("abc").message(), "invalid digit found in string");
    assert_eq!(int_error("").message(), "cannot parse integer from empty string");
    assert_eq!(int_error("65536").message(), "number too large to fit in target type");
    for bad in ["abc", "", "65536", "-1", "--"] {
        let error = bad.parse::<u16>().unwrap_err();
        assert_eq!(ParseArgsError::Int(error.clone()).message(), error.to_string());
    }
}

#[test]
fn help_comes_before_version_before_run() {
    assert_eq!(parsed(&["p"]).invocation(), Invocation::Run);
    assert_eq!(parsed(&["p", "--clear"]).invocation(), Invocation::Run);
    assert_eq!(parsed(&["p", "--version"]).invocation(), Invocation::Version);
    assert_eq!(parsed(&["p", "--version", "--help"]).invocation(), Invocation::Help);
}

#[test]
fn settings_describe_the_session() {
    assert_eq!(
        parsed(&["p"]).session(),
        Session {
            mode: BufferMode::Replace,
            show_keyboard: false,
            play_sound: false,
            typing_indicator: false,
        }
    );
    assert_eq!(
        parsed(&["p", "--append-mode", "--show-keyboard", "--enable-sfx", "--typing-indicator"])
            .session(),
        Session {
            mode: BufferMode::Append,
            show_keyboard: true,
            play_sound: true,
            typing_indicator: true,
        }
    );
}

#[test]
fn settings_choose_the_command() {
    assert_eq!(parsed(&["p"]).command(), Command::Stream);
    assert_eq!(
        parsed(&["p", "--", "hello", "world"]).command(),
        Command::Prompt("hello world".to_string())
    );
    assert_eq!(parsed(&["p", "--clear"]).command(), Command::Clear);
    assert_eq!(parsed(&["p", "--clear", "--", "hello"]).command(), Command::Clear);
}

#[test]
fn settings_make_the_client_builder() {
    let peer = SocketAddress { ip: IpAddress::V4([10, 0, 0, 7]), port: 9100 };
    let args = vec![
        word("p"),
        word("--client-port"),
        word("9001"),
        word("--server-address"),
        address("10.0.0.7:9100", peer),
    ];
    let builder = parse_args(&args).unwrap().client_builder();
    assert_eq!(
        builder.client_address(),
        SocketAddress { ip: IpAddress::V4([127, 0, 0, 1]), port: 9001 }
    );
    assert_eq!(builder.server_address(), peer);
    let builder = ProgramSettings::default().client_builder();
    assert_eq!(builder.client_address().port, 0);
    assert_eq!(builder.server_address(), vrchat_osc_addr());
}
