//! The options of one run, read from a command line.

use crate::address::{vrchat_osc_addr, IpAddress, SocketAddress, ANY_PORT};
use crate::client::ClientBuilder;
use crate::segmenter::BufferMode;
use crate::session::{Command, CommandView, Session};
use vstd::prelude::*;
use vstd::string::*;

verus! {

/// One word of a command line, with its reading as a socket address.
///
/// The caller fills `address`: `Ok` with the address that `text` spells,
/// `Err` with the reason why it spells none.
#[derive(Debug, PartialEq, Eq)]
pub struct Argument {
    pub text: String,
    pub address: Result<SocketAddress, String>,
}

/// Everything that a command line can set.
#[derive(Debug, PartialEq, Eq)]
pub struct ProgramSettings {
    pub append_buffer: bool,
    pub client_port: u16,
    pub make_sound: bool,
    pub prompt: Option<String>,
    pub server_address: SocketAddress,
    pub show_keyboard: bool,
    pub typing_indicator: bool,
    pub do_help: bool,
    pub do_version: bool,
    pub do_clear: bool,
}

/// Why the value of an option could not be used.
#[derive(Debug, PartialEq, Eq)]
pub enum ParseArgsError {
    /// The value is no port number.
    Int(core::num::ParseIntError),
    /// The value is no socket address; the text says why.
    Addr(String),
    /// The option is the last word and has no value.
    Missing,
}

/// `core::num::ParseIntError` of std, carried as it is.
#[verifier::external_type_specification]
#[verifier::external_body]
pub struct ExParseIntError(core::num::ParseIntError);

/// Whether `c` is one of the ten ASCII digits.
pub open spec fn is_digit(c: char) -> bool {
    '0' <= c <= '9'
}

/// The number that a string of digits spells in base ten.
pub open spec fn decimal_value(digits: Seq<char>) -> nat
    decreases digits.len(),
{
    if digits.len() == 0 {
        0
    } else {
        (decimal_value(digits.drop_last()) * 10 + (digits.last() as u32 - '0' as u32)) as nat
    }
}

/// The text without the `+` that may stand at its head.
pub open spec fn without_plus(text: Seq<char>) -> Seq<char> {
    if text.len() > 0 && text[0] == '+' {
        text.skip(1)
    } else {
        text
    }
}

/// Whether the text is made of one or more digits and nothing else.
pub open spec fn is_number(digits: Seq<char>) -> bool {
    digits.len() > 0 && forall|i: int| 0 <= i < digits.len() ==> is_digit(#[trigger] digits[i])
}

/// The port that `text` spells: an optional `+`, then one or more digits
/// whose value fits sixteen bits.
pub open spec fn port_of(text: Seq<char>) -> Option<u16> {
    let digits = without_plus(text);
    if is_number(digits) && decimal_value(digits) <= u16::MAX {
        Some(decimal_value(digits) as u16)
    } else {
        None
    }
}

/// The error with which std refuses a text that spells no port.
pub uninterp spec fn port_fault(text: Seq<char>) -> core::num::ParseIntError;

/// `str::parse::<u16>` of std. It accepts an optional `+` followed by
/// decimal digits only, and fails on an empty string, on any other
/// character and on a value above `u16::MAX`. Which error it fails with
/// depends on the text alone.
#[verifier::external_body]
fn parse_port(text: &str) -> (r: Result<u16, core::num::ParseIntError>)
    ensures
        r is Ok <==> port_of(text@) is Some,
        r matches Ok(port) ==> port_of(text@) == Some(port),
        r matches Err(error) ==> error == port_fault(text@),
{
    text.parse::<u16>()
}

/// The words joined by single spaces.
pub open spec fn joined(words: Seq<Seq<char>>) -> Seq<char>
    decreases words.len(),
{
    if words.len() == 0 {
        Seq::empty()
    } else if words.len() == 1 {
        words[0]
    } else {
        joined(words.drop_last()) + seq![' '] + words.last()
    }
}

/// The texts of the arguments, in order.
pub open spec fn texts(args: Seq<Argument>) -> Seq<Seq<char>> {
    Seq::new(args.len(), |i: int| args[i].text@)
}

/// The index of the last argument below `end` whose text is `name`, or
/// `-1` where there is none.
pub open spec fn last_index(args: Seq<Argument>, name: Seq<char>, end: int) -> int
    decreases end,
{
    if end <= 0 {
        -1
    } else if args[end - 1].text@ == name {
        end - 1
    } else {
        last_index(args, name, end - 1)
    }
}

/// Whether an argument below `end` has the text `name`.
pub open spec fn seen(args: Seq<Argument>, name: Seq<char>, end: int) -> bool {
    last_index(args, name, end) >= 0
}

/// Whether argument `i` is an option that takes a value.
pub open spec fn takes_value(args: Seq<Argument>, i: int) -> bool {
    args[i].text@ == "--client-port"@ || args[i].text@ == "--server-address"@
}

/// Whether argument `i` is an option whose value is missing or unreadable.
pub open spec fn faulty(args: Seq<Argument>, i: int) -> bool {
    ||| takes_value(args, i) && i + 1 >= args.len()
    ||| args[i].text@ == "--client-port"@ && port_of(args[i + 1].text@) is None
    ||| args[i].text@ == "--server-address"@ && args[i + 1].address is Err
}

/// The index of the first `--` from `start` on, or the number of
/// arguments where there is none. The words before the first `--` are the
/// options; the words behind it are the prompt and nothing else.
pub open spec fn mark(args: Seq<Argument>, start: int) -> int
    decreases args.len() - start,
{
    if start >= args.len() {
        args.len() as int
    } else if args[start].text@ == "--"@ {
        start
    } else {
        mark(args, start + 1)
    }
}

/// The index of the first faulty argument from `start` on and below `end`,
/// or `end` where there is none.
pub open spec fn first_fault(args: Seq<Argument>, start: int, end: int) -> int
    decreases end - start,
{
    if start >= end {
        end
    } else if faulty(args, start) {
        start
    } else {
        first_fault(args, start + 1, end)
    }
}

/// Whether `error` is the failure of the faulty argument `i`.
pub open spec fn fault_of(args: Seq<Argument>, i: int, error: ParseArgsError) -> bool {
    if i + 1 >= args.len() {
        error is Missing
    } else if args[i].text@ == "--client-port"@ {
        error == ParseArgsError::Int(port_fault(args[i + 1].text@))
    } else {
        args[i + 1].address matches Err(reason) && error matches ParseArgsError::Addr(text)
            && text@ == reason@
    }
}

/// Whether the switches and values of `settings` are what the arguments
/// below `end` ask for.
///
/// A switch is on where its name occurs. An option with a value has the
/// value behind its last occurrence, and its default where it does not
/// occur.
pub open spec fn options_as(args: Seq<Argument>, end: int, settings: ProgramSettings) -> bool {
    let port_at = last_index(args, "--client-port"@, end);
    let address_at = last_index(args, "--server-address"@, end);
    &&& settings.do_help == seen(args, "--help"@, end)
    &&& settings.do_version == seen(args, "--version"@, end)
    &&& settings.do_clear == seen(args, "--clear"@, end)
    &&& settings.make_sound == seen(args, "--enable-sfx"@, end)
    &&& settings.show_keyboard == seen(args, "--show-keyboard"@, end)
    &&& settings.append_buffer == seen(args, "--append-mode"@, end)
    &&& settings.typing_indicator == seen(args, "--typing-indicator"@, end)
    &&& if port_at < 0 {
        settings.client_port == ANY_PORT
    } else {
        port_of(args[port_at + 1].text@) == Some(settings.client_port)
    }
    &&& if address_at < 0 {
        settings.server_address == vrchat_osc_addr()
    } else {
        args[address_at + 1].address matches Ok(address) && address == settings.server_address
    }
}

/// Whether `settings` is what a command line asks for.
///
/// The switches and values are those of the words before the first `--`.
/// The prompt is all the words behind the first `--`, joined by single
/// spaces and taken as they are, whatever they spell; without a `--` there
/// is no prompt.
pub open spec fn reads_as(args: Seq<Argument>, settings: ProgramSettings) -> bool {
    let end = mark(args, 0);
    &&& options_as(args, end, settings)
    &&& if end < args.len() {
        settings.prompt matches Some(prompt) && prompt@ == joined(texts(args.skip(end + 1)))
    } else {
        settings.prompt is None
    }
}

impl ProgramSettings {
    /// The settings of a command line without options.
    pub open spec fn spec_default() -> ProgramSettings {
        ProgramSettings {
            append_buffer: false,
            client_port: ANY_PORT,
            make_sound: false,
            prompt: None,
            server_address: vrchat_osc_addr(),
            show_keyboard: false,
            typing_indicator: false,
            do_help: false,
            do_version: false,
            do_clear: false,
        }
    }
}

/// What a command line asks the program to do.
#[derive(Clone, Copy, Debug, PartialEq, Eq, Structural)]
pub enum Invocation {
    /// Print the help text.
    Help,
    /// Print the version.
    Version,
    /// Send to the chatbox.
    Run,
}

impl ProgramSettings {
    /// Help comes before the version, and the version before a run.
    pub open spec fn spec_invocation(&self) -> Invocation {
        if self.do_help {
            Invocation::Help
        } else if self.do_version {
            Invocation::Version
        } else {
            Invocation::Run
        }
    }

    /// The session that the settings describe.
    pub open spec fn spec_session(&self) -> Session {
        Session {
            mode: if self.append_buffer {
                BufferMode::Append
            } else {
                BufferMode::Replace
            },
            show_keyboard: self.show_keyboard,
            play_sound: self.make_sound,
            typing_indicator: self.typing_indicator,
        }
    }

    /// What a run is to send: the clearing message where it is asked for,
    /// else the prompt where there is one, else the input stream.
    pub open spec fn spec_command(&self) -> CommandView {
        if self.do_clear {
            CommandView::Clear
        } else {
            match self.prompt {
                Some(prompt) => CommandView::Prompt(prompt@),
                None => CommandView::Stream,
            }
        }
    }

    /// What the program is to do.
    #[verifier::when_used_as_spec(spec_invocation)]
    pub fn invocation(&self) -> (invocation: Invocation)
        ensures
            invocation == self.spec_invocation(),
    {
        if self.do_help {
            Invocation::Help
        } else if self.do_version {
            Invocation::Version
        } else {
            Invocation::Run
        }
    }

    /// The session that the settings describe.
    #[verifier::when_used_as_spec(spec_session)]
    pub fn session(&self) -> (session: Session)
        ensures
            session == self.spec_session(),
    {
        Session {
            mode: if self.append_buffer {
                BufferMode::Append
            } else {
                BufferMode::Replace
            },
            show_keyboard: self.show_keyboard,
            play_sound: self.make_sound,
            typing_indicator: self.typing_indicator,
        }
    }

    /// What a run is to send.
    pub fn command(&self) -> (command: Command)
        ensures
            command@ == self.spec_command(),
    {
        if self.do_clear {
            Command::Clear
        } else {
            match &self.prompt {
                Some(prompt) => Command::Prompt(prompt.clone()),
                None => Command::Stream,
            }
        }
    }

    /// The builder of the client: the local port and the peer of the
    /// settings, on the loopback host.
    pub fn client_builder(&self) -> (builder: ClientBuilder)
        ensures
            builder@.client == (SocketAddress {
                ip: IpAddress::localhost(),
                port: self.client_port,
            }),
            builder@.server == self.server_address,
    {
        ClientBuilder::new().with_client_port(self.client_port).with_server_ip(
            self.server_address.ip,
        ).with_server_port(self.server_address.port)
    }
}

impl Default for ProgramSettings {
    /// Replace mode, no sound, the text sent at once, no typing indicator,
    /// input from the stream, a local port chosen by the operating system
    /// and the peer on the loopback host.
    fn default() -> (settings: ProgramSettings)
        ensures
            settings == Self::spec_default(),
    {
        ProgramSettings {
            append_buffer: false,
            client_port: ANY_PORT,
            make_sound: false,
            prompt: None,
            server_address: vrchat_osc_addr(),
            show_keyboard: false,
            typing_indicator: false,
            do_help: false,
            do_version: false,
            do_clear: false,
        }
    }
}

impl ParseArgsError {
    /// The failure in words.
    ///
    /// For a port it is the text that std displays for the error, for an
    /// address the reason that came with the argument.
    pub fn message(&self) -> (text: String)
        ensures
            self matches ParseArgsError::Int(error) ==> to_string_from_display_ensures::<
                core::num::ParseIntError,
            >(&error, text),
            self matches ParseArgsError::Addr(reason) ==> text@ == reason@,
            self is Missing ==> text@ == "missing value"@,
    {
        match self {
            ParseArgsError::Int(error) => error.to_string(),
            ParseArgsError::Addr(reason) => reason.clone(),
            ParseArgsError::Missing => String::from_str("missing value"),
        }
    }
}

/// The words from `start` on, joined by single spaces.
fn join_from(args: &Vec<Argument>, start: usize) -> (line: String)
    requires
        start <= args.len(),
    ensures
        line@ == joined(texts(args@.skip(start as int))),
{
    let ghost words = texts(args@.skip(start as int));
    let mut line = String::new();
    let mut i: usize = start;
    while i < args.len()
        invariant
            start <= i <= args.len(),
            words == texts(args@.skip(start as int)),
            line@ == joined(words.take(i - start)),
        decreases args.len() - i,
    {
        if i > start {
            line.append(" ");
            proof {
                reveal_strlit(" ");
                assert(" "@ =~= seq![' ']);
            }
        }
        line.append(args[i].text.as_str());
        proof {
            let done = words.take(i - start + 1);
            assert(done.drop_last() =~= words.take(i - start));
            assert(done.last() == args@[i as int].text@);
            if i == start {
                assert(words.take(0).len() == 0);
                assert(line@ =~= done[0]);
            }
        }
        i += 1;
    }
    proof {
        assert(words.take(i - start) =~= words);
    }
    line
}

/// Reads the options of one run from a command line.
///
/// The words are looked at in order up to the first `--`. Behind it
/// nothing is read as an option: all the words there are the prompt.
/// `--client-port` and `--server-address` take the next word as their
/// value, whatever it is; a `--` in that place is the value, not the mark
/// of the prompt, and as it spells no port the line fails. The first
/// option before the mark whose value is missing or unreadable ends the
/// reading with its name and its failure; without such an option the
/// result is the settings that the words ask for.
pub fn parse_args(args: &Vec<Argument>) -> (r: Result<ProgramSettings, (String, ParseArgsError)>)
    ensures
        r is Ok <==> first_fault(args@, 0, mark(args@, 0)) == mark(args@, 0),
        r matches Ok(settings) ==> reads_as(args@, settings),
        r matches Err((name, error)) ==> {
            let at = first_fault(args@, 0, mark(args@, 0));
            &&& name@ == args[at].text@
            &&& fault_of(args@, at, error)
        },
{
    let mut settings = ProgramSettings::default();
    let prompt_mark = String::from_str("--");
    let help = String::from_str("--help");
    let version = String::from_str("--version");
    let clear = String::from_str("--clear");
    let client_port = String::from_str("--client-port");
    let server_address = String::from_str("--server-address");
    let enable_sfx = String::from_str("--enable-sfx");
    let show_keyboard = String::from_str("--show-keyboard");
    let append_mode = String::from_str("--append-mode");
    let typing_indicator = String::from_str("--typing-indicator");
    let mut i: usize = 0;
    while i < args.len()
        invariant
            i <= args.len(),
            mark(args@, 0) == mark(args@, i as int),
            first_fault(args@, 0, mark(args@, 0)) == first_fault(
                args@,
                i as int,
                mark(args@, 0),
            ),
            options_as(args@, i as int, settings),
            settings.prompt is None,
            prompt_mark@ == "--"@,
            help@ == "--help"@,
            version@ == "--version"@,
            clear@ == "--clear"@,
            client_port@ == "--client-port"@,
            server_address@ == "--server-address"@,
            enable_sfx@ == "--enable-sfx"@,
            show_keyboard@ == "--show-keyboard"@,
            append_mode@ == "--append-mode"@,
            typing_indicator@ == "--typing-indicator"@,
        decreases args.len() - i,
    {
        proof {
            lemma_names_differ();
            lemma_mark_is_first(args@, i as int + 1);
        }
        let arg = &args[i].text;
        if *arg == prompt_mark {
            settings.prompt = Some(join_from(args, i + 1));
            return Ok(settings);
        } else if *arg == help {
            settings.do_help = true;
        } else if *arg == version {
            settings.do_version = true;
        } else if *arg == clear {
            settings.do_clear = true;
        } else if *arg == client_port {
            if i + 1 >= args.len() {
                return Err((arg.clone(), ParseArgsError::Missing));
            }
            match parse_port(args[i + 1].text.as_str()) {
                Ok(port) => {
                    settings.client_port = port;
                },
                Err(error) => {
                    return Err((arg.clone(), ParseArgsError::Int(error)));
                },
            }
        } else if *arg == server_address {
            if i + 1 >= args.len() {
                return Err((arg.clone(), ParseArgsError::Missing));
            }
            match &args[i + 1].address {
                Ok(address) => {
                    settings.server_address = *address;
                },
                Err(reason) => {
                    return Err((arg.clone(), ParseArgsError::Addr(reason.clone())));
                },
            }
        } else if *arg == enable_sfx {
            settings.make_sound = true;
        } else if *arg == show_keyboard {
            settings.show_keyboard = true;
        } else if *arg == append_mode {
            settings.append_buffer = true;
        } else if *arg == typing_indicator {
            settings.typing_indicator = true;
        }
        i += 1;
    }
    Ok(settings)
}

/// `mark` is the first of the indices from `start` on at which `--`
/// stands, and the number of arguments exactly where it stands at none.
pub proof fn lemma_mark_is_first(args: Seq<Argument>, start: int)
    requires
        0 <= start <= args.len(),
    ensures
        start <= mark(args, start) <= args.len(),
        mark(args, start) < args.len() ==> args[mark(args, start)].text@ == "--"@,
        forall|i: int| start <= i < mark(args, start) ==> (#[trigger] args[i]).text@ != "--"@,
    decreases args.len() - start,
{
    if start < args.len() && args[start].text@ != "--"@ {
        lemma_mark_is_first(args, start + 1);
    }
}

/// What stands behind the mark changes neither the switches nor the
/// values nor whether the line fails: two command lines that agree up to
/// and with their first `--` are read alike but for the prompt.
pub proof fn lemma_prompt_is_not_read(a: Seq<Argument>, b: Seq<Argument>, settings: ProgramSettings)
    requires
        mark(a, 0) < a.len(),
        mark(a, 0) < b.len(),
        forall|i: int| 0 <= i <= mark(a, 0) ==> (#[trigger] a[i]) == b[i],
    ensures
        mark(b, 0) == mark(a, 0),
        first_fault(b, 0, mark(b, 0)) == first_fault(a, 0, mark(a, 0)),
        options_as(a, mark(a, 0), settings) == options_as(b, mark(b, 0), settings),
{
    let m = mark(a, 0);
    lemma_mark_is_first(a, 0);
    lemma_same_mark(a, b, 0, m);
    lemma_same_faults(a, b, 0, m);
    lemma_same_last_index(a, b, "--help"@, m);
    lemma_same_last_index(a, b, "--version"@, m);
    lemma_same_last_index(a, b, "--clear"@, m);
    lemma_same_last_index(a, b, "--enable-sfx"@, m);
    lemma_same_last_index(a, b, "--show-keyboard"@, m);
    lemma_same_last_index(a, b, "--append-mode"@, m);
    lemma_same_last_index(a, b, "--typing-indicator"@, m);
    lemma_same_last_index(a, b, "--client-port"@, m);
    lemma_same_last_index(a, b, "--server-address"@, m);
    lemma_last_index_is_last(a, "--client-port"@, m);
    lemma_last_index_is_last(a, "--server-address"@, m);
}

proof fn lemma_same_mark(a: Seq<Argument>, b: Seq<Argument>, start: int, m: int)
    requires
        0 <= start <= m < a.len(),
        m < b.len(),
        mark(a, start) == m,
        forall|i: int| 0 <= i <= m ==> (#[trigger] a[i]) == b[i],
    ensures
        mark(b, start) == m,
    decreases m - start,
{
    assert(a[start] == b[start]);
    if a[start].text@ != "--"@ {
        lemma_mark_is_first(a, start + 1);
        lemma_same_mark(a, b, start + 1, m);
    }
}

proof fn lemma_same_faults(a: Seq<Argument>, b: Seq<Argument>, start: int, m: int)
    requires
        0 <= start <= m < a.len(),
        m < b.len(),
        forall|i: int| 0 <= i <= m ==> (#[trigger] a[i]) == b[i],
    ensures
        first_fault(b, start, m) == first_fault(a, start, m),
    decreases m - start,
{
    if start < m {
        assert(a[start] == b[start]);
        assert(a[start + 1] == b[start + 1]);
        lemma_same_faults(a, b, start + 1, m);
    }
}

proof fn lemma_same_last_index(a: Seq<Argument>, b: Seq<Argument>, name: Seq<char>, end: int)
    requires
        0 <= end <= a.len(),
        end <= b.len(),
        forall|i: int| 0 <= i < end ==> (#[trigger] a[i]) == b[i],
    ensures
        last_index(b, name, end) == last_index(a, name, end),
    decreases end,
{
    if end > 0 {
        assert(a[end - 1] == b[end - 1]);
        lemma_same_last_index(a, b, name, end - 1);
    }
}

/// `--` spells no port: as the value of `--client-port` it fails the line.
pub proof fn lemma_mark_spells_no_port()
    ensures
        port_of("--"@) is None,
{
    reveal_strlit("--");
    let text = "--"@;
    assert(text.len() == 2 && text[0] == '-');
    assert(without_plus(text) == text);
    assert(!is_digit(text[0]));
}

/// `last_index` is the last of the indices below `end` at which `name`
/// stands, and `-1` exactly where it stands at none.
pub proof fn lemma_last_index_is_last(args: Seq<Argument>, name: Seq<char>, end: int)
    requires
        0 <= end <= args.len(),
    ensures
        -1 <= last_index(args, name, end) < end,
        last_index(args, name, end) >= 0 ==> args[last_index(args, name, end)].text@ == name,
        forall|i: int|
            last_index(args, name, end) < i < end ==> (#[trigger] args[i]).text@ != name,
    decreases end,
{
    if end > 0 && args[end - 1].text@ != name {
        lemma_last_index_is_last(args, name, end - 1);
    }
}

/// `first_fault` is the first of the indices from `start` on and below
/// `end` at which a faulty argument stands, and `end` exactly where none
/// of them is faulty.
pub proof fn lemma_first_fault_is_first(args: Seq<Argument>, start: int, end: int)
    requires
        0 <= start <= end,
    ensures
        start <= first_fault(args, start, end) <= end,
        first_fault(args, start, end) < end ==> faulty(args, first_fault(args, start, end)),
        forall|i: int| start <= i < first_fault(args, start, end) ==> !faulty(args, i),
    decreases end - start,
{
    if start < end && !faulty(args, start) {
        lemma_first_fault_is_first(args, start + 1, end);
    }
}

/// The names of the options are ten different texts.
proof fn lemma_names_differ()
    ensures
        "--"@.len() == 2,
        "--help"@.len() == 6,
        "--version"@.len() == 9,
        "--clear"@.len() == 7,
        "--client-port"@.len() == 13,
        "--server-address"@.len() == 16,
        "--enable-sfx"@.len() == 12,
        "--show-keyboard"@.len() == 15,
        "--append-mode"@.len() == 13,
        "--typing-indicator"@.len() == 18,
        "--client-port"@[2] == 'c',
        "--append-mode"@[2] == 'a',
{
    reveal_strlit("--");
    reveal_strlit("--help");
    reveal_strlit("--version");
    reveal_strlit("--clear");
    reveal_strlit("--client-port");
    reveal_strlit("--server-address");
    reveal_strlit("--enable-sfx");
    reveal_strlit("--show-keyboard");
    reveal_strlit("--append-mode");
    reveal_strlit("--typing-indicator");
}

} // verus!
