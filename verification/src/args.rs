//! Reading the command line into a configuration.
//!
//! The arguments are read in their order. An option that takes a value
//! makes the next argument that is no option its value. Nothing is turned
//! down: a value that is not understood selects the undefined member of
//! its enumeration, or the default of its number.

use vstd::prelude::*;
use crate::config::{Config, ConfigView};
use crate::enums::{
    modify_msg_type,
    modify_node_register,
    modify_node_service,
    modify_node_state,
    modify_node_type,
    modify_test_action,
    msg_type_of,
    node_service_of,
    node_state_of,
    node_type_of,
    test_action_of,
};
use crate::text::{decimal, digit_char, same_text};

verus! {

/// What the next argument is taken for.
#[derive(Clone, Copy, Debug, PartialEq, Eq, Structural)]
pub enum ArgState {
    /// Nothing is waited for.
    Idle,
    MsgType,
    TextContent,
    MsgTarget,
    NodeRegister,
    NodeType,
    NodeState,
    NodeService,
    TestAction,
    FuzzyLoop,
    Port,
    Http,
}

/// The value of a decimal digit.
pub open spec fn digit_value(c: char) -> Option<nat> {
    if c == '0' {
        Some(0)
    } else if c == '1' {
        Some(1)
    } else if c == '2' {
        Some(2)
    } else if c == '3' {
        Some(3)
    } else if c == '4' {
        Some(4)
    } else if c == '5' {
        Some(5)
    } else if c == '6' {
        Some(6)
    } else if c == '7' {
        Some(7)
    } else if c == '8' {
        Some(8)
    } else if c == '9' {
        Some(9)
    } else {
        None
    }
}

/// The number that a text of decimal digits stands for, if it holds
/// nothing else; the empty text stands for 0.
pub open spec fn digits_value(text: Seq<char>) -> Option<nat>
    decreases text.len(),
{
    if text.len() == 0 {
        Some(0)
    } else {
        match (digits_value(text.drop_last()), digit_value(text.last())) {
            (Some(high), Some(low)) => Some(high * 10 + low),
            _ => None,
        }
    }
}

/// The number that a text of decimal digits stands for, if it holds at
/// least one digit, nothing else, and a value that 32 bits hold.
pub open spec fn digits_number(digits: Seq<char>) -> Option<u32> {
    if digits.len() == 0 {
        None
    } else {
        match digits_value(digits) {
            Some(value) => if value <= u32::MAX {
                Some(value as u32)
            } else {
                None
            },
            None => None,
        }
    }
}

/// The number that a text stands for: decimal digits, at least one, after
/// at most one plus sign, with a value that 32 bits hold.
pub open spec fn number_of(text: Seq<char>) -> Option<u32> {
    if text.len() > 0 && text[0] == '+' {
        digits_number(text.drop_first())
    } else {
        digits_number(text)
    }
}

/// The place of the first slash in a text, or the length of the text
/// where it holds none.
pub open spec fn first_slash(text: Seq<char>) -> int
    decreases text.len(),
{
    if text.len() == 0 || text[0] == '/' {
        0
    } else {
        1 + first_slash(text.drop_first())
    }
}

/// The host of a `host/path` token: what stands before the first slash.
pub open spec fn host_of(token: Seq<char>) -> Seq<char> {
    token.subrange(0, first_slash(token))
}

/// The resource of a `host/path` token: what stands after the first
/// slash, and nothing where there is no slash.
pub open spec fn resource_of(token: Seq<char>) -> Seq<char> {
    if first_slash(token) < token.len() {
        token.subrange(first_slash(token) + 1, token.len() as int)
    } else {
        Seq::empty()
    }
}

/// The configuration and the state after one more argument.
pub open spec fn applied(cfg: ConfigView, state: ArgState, arg: Seq<char>) -> (
    ConfigView,
    ArgState,
) {
    if arg == "--msg-type"@ {
        (cfg, ArgState::MsgType)
    } else if arg == "--msg-target"@ {
        (cfg, ArgState::MsgTarget)
    } else if arg == "--node-type"@ {
        (cfg, ArgState::NodeType)
    } else if arg == "--node-register"@ {
        (cfg, ArgState::NodeRegister)
    } else if arg == "--node-service"@ {
        (cfg, ArgState::NodeService)
    } else if arg == "--node-state"@ {
        (cfg, ArgState::NodeState)
    } else if arg == "--text-content"@ {
        (cfg, ArgState::TextContent)
    } else if arg == "--test-action"@ {
        (cfg, ArgState::TestAction)
    } else if arg == "--unit-test"@ {
        (ConfigView { unit_test: true, ..cfg }, state)
    } else if arg == "--fuzzy"@ {
        (ConfigView { fuzzy: true, unit_test: true, ..cfg }, state)
    } else if arg == "--fuzzy-valid"@ {
        (ConfigView { fuzzy_valid_msg: true, ..cfg }, state)
    } else if arg == "--fuzzy-loop"@ {
        (cfg, ArgState::FuzzyLoop)
    } else if arg == "--version"@ {
        (cfg, state)
    } else if arg == "--port"@ {
        (cfg, ArgState::Port)
    } else if arg == "--http"@ {
        (ConfigView { http: true, ..cfg }, ArgState::Http)
    } else {
        (
            match state {
                ArgState::Idle => cfg,
                ArgState::MsgType => ConfigView { msg_type: msg_type_of(arg), ..cfg },
                ArgState::MsgTarget => ConfigView { msg_target: arg, ..cfg },
                ArgState::TextContent => ConfigView { text_content: arg, ..cfg },
                ArgState::NodeRegister => ConfigView { node_register: arg == "true"@, ..cfg },
                ArgState::NodeService => ConfigView { node_service: node_service_of(arg), ..cfg },
                ArgState::NodeType => ConfigView { node_type: node_type_of(arg), ..cfg },
                ArgState::NodeState => ConfigView { node_state: node_state_of(arg), ..cfg },
                ArgState::TestAction => ConfigView { test_action: test_action_of(arg), ..cfg },
                ArgState::FuzzyLoop => ConfigView {
                    fuzzy_loop: match number_of(arg) {
                        Some(n) => n,
                        None => 1,
                    },
                    ..cfg
                },
                ArgState::Port => ConfigView {
                    port: match number_of(arg) {
                        Some(n) => n,
                        None => 0,
                    },
                    ..cfg
                },
                ArgState::Http => ConfigView {
                    http_host: host_of(arg),
                    http_res: resource_of(arg),
                    ..cfg
                },
            },
            ArgState::Idle,
        )
    }
}

/// The configuration and the state after all of `args`, in their order,
/// from the configuration of a run that was told nothing.
pub open spec fn folded(args: Seq<Seq<char>>) -> (ConfigView, ArgState)
    decreases args.len(),
{
    if args.len() == 0 {
        (ConfigView::initial(), ArgState::Idle)
    } else {
        let before = folded(args.drop_last());
        applied(before.0, before.1, args.last())
    }
}

/// Whether the arguments ask for the version of the program.
pub open spec fn asks_version(args: Seq<Seq<char>>) -> bool {
    exists|i: int| 0 <= i < args.len() && #[trigger] args[i] == "--version"@
}

/// The arguments as sequences of characters.
pub open spec fn texts(args: Seq<String>) -> Seq<Seq<char>> {
    Seq::new(args.len(), |i: int| args[i]@)
}

proof fn lemma_digits_stay_none(text: Seq<char>, upto: int)
    requires
        0 <= upto <= text.len(),
        digits_value(text.take(upto)) is None,
    ensures
        digits_value(text) is None,
    decreases text.len() - upto,
{
    if upto < text.len() {
        assert(text.take(upto + 1).drop_last() =~= text.take(upto));
        lemma_digits_stay_none(text, upto + 1);
    } else {
        assert(text.take(upto) =~= text);
    }
}

proof fn lemma_first_slash(text: Seq<char>, place: int)
    requires
        0 <= place <= text.len(),
        forall|j: int| 0 <= j < place ==> text[j] != '/',
        place < text.len() ==> text[place] == '/',
    ensures
        first_slash(text) == place,
    decreases text.len(),
{
    if text.len() == 0 || text[0] == '/' {
    } else {
        let rest = text.drop_first();
        assert forall|j: int| 0 <= j < place - 1 implies rest[j] != '/' by {
            assert(rest[j] == text[j + 1]);
        }
        lemma_first_slash(rest, place - 1);
    }
}

/// The first slash of a token parts it into host and resource: put
/// together again around a slash they are the token, and the host holds
/// no slash. A token without a slash is its own host.
pub proof fn lemma_host_and_resource_make_the_token(token: Seq<char>)
    ensures
        !host_of(token).contains('/'),
        token.contains('/') ==> host_of(token) + seq!['/'] + resource_of(token) == token,
        !token.contains('/') ==> host_of(token) == token && resource_of(token).len() == 0,
{
    lemma_first_slash_is_first(token);
    let place = first_slash(token);
    if place < token.len() {
        assert(host_of(token) + seq!['/'] + resource_of(token) =~= token);
    } else {
        assert(host_of(token) =~= token);
    }
    assert forall|j: int| 0 <= j < host_of(token).len() implies host_of(token)[j] != '/' by {
        assert(host_of(token)[j] == token[j]);
    }
}

proof fn lemma_first_slash_is_first(text: Seq<char>)
    ensures
        0 <= first_slash(text) <= text.len(),
        forall|j: int| 0 <= j < first_slash(text) ==> text[j] != '/',
        first_slash(text) < text.len() ==> text[first_slash(text)] == '/',
    decreases text.len(),
{
    if text.len() == 0 || text[0] == '/' {
    } else {
        let rest = text.drop_first();
        lemma_first_slash_is_first(rest);
        assert forall|j: int| 0 <= j < first_slash(text) implies text[j] != '/' by {
            if j > 0 {
                assert(text[j] == rest[j - 1]);
            }
        }
        if first_slash(text) < text.len() {
            assert(text[first_slash(text)] == rest[first_slash(rest)]);
        }
    }
}

/// A number written in decimal digits reads back as itself.
pub proof fn lemma_decimal_reads_back(n: u32)
    ensures
        number_of(decimal(n as nat)) == Some(n),
{
    lemma_decimal_value(n as nat);
}

proof fn lemma_decimal_value(n: nat)
    ensures
        decimal(n).len() > 0,
        decimal(n)[0] != '+',
        digits_value(decimal(n)) == Some(n),
    decreases n,
{
    if n < 10 {
        let text = seq![digit_char(n as int)];
        assert(text.drop_last() =~= Seq::<char>::empty());
        assert(digits_value(text.drop_last()) == Some(0nat));
        assert(text.last() == digit_char(n as int));
    } else {
        lemma_decimal_value(n / 10);
        let text = decimal(n / 10).push(digit_char((n % 10) as int));
        assert(text.drop_last() =~= decimal(n / 10));
        assert(text.last() == digit_char((n % 10) as int));
        assert(text[0] == decimal(n / 10)[0]);
    }
}

/// The value of a character as a decimal digit.
pub fn read_digit(c: char) -> (d: Option<u32>)
    ensures
        match d {
            Some(v) => digit_value(c) == Some(v as nat) && v < 10,
            None => digit_value(c) is None,
        },
{
    if c == '0' {
        Some(0)
    } else if c == '1' {
        Some(1)
    } else if c == '2' {
        Some(2)
    } else if c == '3' {
        Some(3)
    } else if c == '4' {
        Some(4)
    } else if c == '5' {
        Some(5)
    } else if c == '6' {
        Some(6)
    } else if c == '7' {
        Some(7)
    } else if c == '8' {
        Some(8)
    } else if c == '9' {
        Some(9)
    } else {
        None
    }
}

/// Reads a number: decimal digits, at least one, after at most one plus
/// sign. Anything else, and a number that 32 bits do not hold, is none.
pub fn parse_number(text: &str) -> (number: Option<u32>)
    ensures
        number == number_of(text@),
{
    let n: usize = text.unicode_len();
    let first: usize = if n > 0 && text.get_char(0) == '+' {
        1
    } else {
        0
    };
    if first == n {
        return None;
    }
    let ghost digits = text@.subrange(first as int, n as int);
    assert(first == 1 ==> digits =~= text@.drop_first());
    assert(first == 0 ==> digits =~= text@);
    let limit: u64 = 0x1_0000_0000;
    let mut value: u64 = 0;
    let mut i: usize = first;
    assert(digits.take(0) =~= Seq::<char>::empty());
    while i < n
        invariant
            first <= i <= n,
            n == text@.len(),
            limit == 0x1_0000_0000,
            first < n,
            digits == text@.subrange(first as int, n as int),
            number_of(text@) == digits_number(digits),
            digits_value(digits.take(i - first)) is Some,
            value <= limit,
            value == if digits_value(digits.take(i - first))->0 < limit {
                digits_value(digits.take(i - first))->0
            } else {
                limit as nat
            },
        decreases n - i,
    {
        assert(digits.take(i - first + 1).drop_last() =~= digits.take(i - first));
        assert(digits.take(i - first + 1).last() == text@[i as int]);
        match read_digit(text.get_char(i)) {
            None => {
                proof {
                    lemma_digits_stay_none(digits, i - first + 1);
                }
                return None;
            },
            Some(d) => {
                let next: u64 = value * 10 + d as u64;
                value = if next < limit {
                    next
                } else {
                    limit
                };
            },
        }
        i += 1;
    }
    assert(digits.take(n - first) =~= digits);
    if value < limit {
        Some(value as u32)
    } else {
        None
    }
}

/// Splits a `host/path` token at its first slash. A token without a
/// slash is all host.
pub fn split_host_path(token: &str) -> (parts: (String, String))
    ensures
        parts.0@ == host_of(token@),
        parts.1@ == resource_of(token@),
{
    let n: usize = token.unicode_len();
    let mut place: usize = 0;
    while place < n && token.get_char(place) != '/'
        invariant
            place <= n,
            n == token@.len(),
            forall|j: int| 0 <= j < place ==> token@[j] != '/',
        decreases n - place,
    {
        place += 1;
    }
    proof {
        lemma_first_slash(token@, place as int);
    }
    let host = String::from_str(token.substring_char(0, place));
    let resource = if place < n {
        String::from_str(token.substring_char(place + 1, n))
    } else {
        String::new()
    };
    (host, resource)
}

/// Takes one argument into the configuration: an option sets its flag or
/// makes the next argument its value; anything else is the value that was
/// waited for, or is passed over.
pub fn apply_arg(cfg: &mut Config, state: ArgState, arg: &str) -> (next: ArgState)
    ensures
        (final(cfg)@, next) == applied(old(cfg)@, state, arg@),
{
    if same_text(arg, "--msg-type") {
        ArgState::MsgType
    } else if same_text(arg, "--msg-target") {
        ArgState::MsgTarget
    } else if same_text(arg, "--node-type") {
        ArgState::NodeType
    } else if same_text(arg, "--node-register") {
        ArgState::NodeRegister
    } else if same_text(arg, "--node-service") {
        ArgState::NodeService
    } else if same_text(arg, "--node-state") {
        ArgState::NodeState
    } else if same_text(arg, "--text-content") {
        ArgState::TextContent
    } else if same_text(arg, "--test-action") {
        ArgState::TestAction
    } else if same_text(arg, "--unit-test") {
        cfg.unit_test = true;
        state
    } else if same_text(arg, "--fuzzy") {
        cfg.fuzzy = true;
        cfg.unit_test = true;
        state
    } else if same_text(arg, "--fuzzy-valid") {
        cfg.fuzzy_valid_msg = true;
        state
    } else if same_text(arg, "--fuzzy-loop") {
        ArgState::FuzzyLoop
    } else if same_text(arg, "--version") {
        state
    } else if same_text(arg, "--port") {
        ArgState::Port
    } else if same_text(arg, "--http") {
        cfg.http = true;
        ArgState::Http
    } else {
        match state {
            ArgState::Idle => {},
            ArgState::MsgType => {
                cfg.msg_type = modify_msg_type(arg);
            },
            ArgState::MsgTarget => {
                cfg.msg_target = String::from_str(arg);
            },
            ArgState::TextContent => {
                cfg.text_content = String::from_str(arg);
            },
            ArgState::NodeRegister => {
                cfg.node_register = modify_node_register(arg);
            },
            ArgState::NodeService => {
                cfg.node_service = modify_node_service(arg);
            },
            ArgState::NodeType => {
                cfg.node_type = modify_node_type(arg);
            },
            ArgState::NodeState => {
                cfg.node_state = modify_node_state(arg);
            },
            ArgState::TestAction => {
                cfg.test_action = modify_test_action(arg);
            },
            ArgState::FuzzyLoop => {
                cfg.fuzzy_loop = match parse_number(arg) {
                    Some(n) => n,
                    None => 1,
                };
            },
            ArgState::Port => {
                cfg.port = match parse_number(arg) {
                    Some(n) => n,
                    None => 0,
                };
            },
            ArgState::Http => {
                let (host, resource) = split_host_path(arg);
                cfg.http_host = host;
                cfg.http_res = resource;
            },
        }
        ArgState::Idle
    }
}

/// Reads the arguments of the program into a configuration. Where any of
/// them asks for the version, there is no run and no configuration.
pub fn parse_args(args: &Vec<String>) -> (parsed: Option<Config>)
    ensures
        parsed is None <==> asks_version(texts(args@)),
        parsed is Some ==> parsed->0@ == folded(texts(args@)).0,
{
    let mut cfg = Config::new();
    let mut state = ArgState::Idle;
    let mut i: usize = 0;
    assert(texts(args@).take(0) =~= Seq::<Seq<char>>::empty());
    while i < args.len()
        invariant
            i <= args@.len(),
            (cfg@, state) == folded(texts(args@).take(i as int)),
            forall|j: int| 0 <= j < i ==> texts(args@)[j] != "--version"@,
        decreases args@.len() - i,
    {
        let arg: &str = args[i].as_str();
        assert(texts(args@)[i as int] == arg@);
        if same_text(arg, "--version") {
            return None;
        }
        assert(texts(args@).take(i as int + 1).drop_last() =~= texts(args@).take(i as int));
        assert(texts(args@).take(i as int + 1).last() == arg@);
        state = apply_arg(&mut cfg, state, arg);
        i += 1;
    }
    assert(texts(args@).take(args@.len() as int) =~= texts(args@));
    Some(cfg)
}

} // verus!
