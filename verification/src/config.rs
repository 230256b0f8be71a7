//! Where the supervised server listens: host, port and base path, taken from
//! the command line first, then from the environment, then from defaults.

use crate::text::{
    lemma_trim_start_matches_head, decimal_digits, decimal_string, parse_u16, parse_u16_spec, str_eq, strip_prefix,
    strip_prefix_str, trim, trim_start_matches, trim_start_matches_str, trim_str,
};
use vstd::prelude::*;
use vstd::string::*;

verus! {

/// Port the server listens on when nothing names another.
pub const DEFAULT_PORT: u16 = 8080;

/// Host the desktop client connects to when nothing names another.
pub open spec fn default_host() -> Seq<char> {
    "127.0.0.1"@
}

/// The first choice that is made in a row of choices, if any is.
pub open spec fn first_some<T>(choices: Seq<Option<T>>) -> Option<T>
    decreases choices.len(),
{
    if choices.len() == 0 {
        None
    } else if choices[0] is Some {
        choices[0]
    } else {
        first_some(choices.drop_first())
    }
}

/// The port that the argument at position `i` chooses: the number after
/// `--port` or `-p`, or the number in `--port=<number>`.
pub open spec fn port_at(args: Seq<Seq<char>>, i: int) -> Option<u16> {
    let arg = args[i];
    if arg == "--port"@ || arg == "-p"@ {
        if i + 1 < args.len() {
            parse_u16_spec(args[i + 1])
        } else {
            None
        }
    } else {
        match strip_prefix(arg, "--port="@) {
            Some(rest) => parse_u16_spec(rest),
            None => None,
        }
    }
}

/// A host name as given: trimmed, and no choice if nothing is left.
pub open spec fn clean_host(value: Seq<char>) -> Option<Seq<char>> {
    if trim(value).len() > 0 {
        Some(trim(value))
    } else {
        None
    }
}

/// The host that the argument at position `i` chooses: the value after
/// `--host` or `-H`, or the value in `--host=<value>`.
pub open spec fn host_at(args: Seq<Seq<char>>, i: int) -> Option<Seq<char>> {
    let arg = args[i];
    if arg == "--host"@ || arg == "-H"@ {
        if i + 1 < args.len() {
            clean_host(args[i + 1])
        } else {
            None
        }
    } else {
        match strip_prefix(arg, "--host="@) {
            Some(rest) => clean_host(rest),
            None => None,
        }
    }
}

/// A base path as given: trimmed, without leading slashes, and absent if
/// nothing is left.
pub open spec fn clean_base_path(value: Seq<char>) -> Option<Seq<char>> {
    let path = trim_start_matches(trim(value), '/');
    if path.len() > 0 {
        Some(path)
    } else {
        None
    }
}

/// The value of `--base-url=<value>` or `--base_url=<value>`.
pub open spec fn base_path_assignment(arg: Seq<char>) -> Option<Seq<char>> {
    match strip_prefix(arg, "--base-url="@) {
        Some(rest) => Some(rest),
        None => strip_prefix(arg, "--base_url="@),
    }
}

/// What the argument at position `i` settles about the base path. `None`:
/// nothing. `Some(None)`: that there is no base path. `Some(Some(p))`: that
/// it is `p`. A base path option settles the matter even when its value
/// is empty.
pub open spec fn base_path_at(args: Seq<Seq<char>>, i: int) -> Option<Option<Seq<char>>> {
    let arg = args[i];
    if arg == "--base-url"@ || arg == "--base_url"@ || arg == "-b"@ {
        if i + 1 < args.len() {
            Some(clean_base_path(args[i + 1]))
        } else {
            None
        }
    } else {
        match base_path_assignment(arg) {
            Some(rest) => Some(clean_base_path(rest)),
            None => None,
        }
    }
}

/// The port the command line chooses, if it chooses one.
pub open spec fn port_from_args(args: Seq<Seq<char>>) -> Option<u16> {
    first_some(Seq::new(args.len(), |i: int| port_at(args, i)))
}

/// The host the command line chooses, if it chooses one.
pub open spec fn host_from_args(args: Seq<Seq<char>>) -> Option<Seq<char>> {
    first_some(Seq::new(args.len(), |i: int| host_at(args, i)))
}

/// What the command line settles about the base path, if anything.
pub open spec fn base_path_from_args(args: Seq<Seq<char>>) -> Option<Option<Seq<char>>> {
    first_some(Seq::new(args.len(), |i: int| base_path_at(args, i)))
}

/// The port in effect: the command line's, else the environment's if it
/// is a number once trimmed, else the default.
pub open spec fn effective_port(args: Seq<Seq<char>>, env_port: Option<Seq<char>>) -> u16 {
    match port_from_args(args) {
        Some(port) => port,
        None => match env_port {
            Some(value) => match parse_u16_spec(trim(value)) {
                Some(port) => port,
                None => DEFAULT_PORT,
            },
            None => DEFAULT_PORT,
        },
    }
}

/// The host in effect: the command line's, else the environment's if it
/// is not blank, else the default.
pub open spec fn effective_host(args: Seq<Seq<char>>, env_host: Option<Seq<char>>) -> Seq<char> {
    match host_from_args(args) {
        Some(host) => host,
        None => match env_host {
            Some(value) => match clean_host(value) {
                Some(host) => host,
                None => default_host(),
            },
            None => default_host(),
        },
    }
}

/// The base path in effect: what the command line settles, else the
/// environment's.
pub open spec fn effective_base_path(
    args: Seq<Seq<char>>,
    env_base: Option<Seq<char>>,
) -> Option<Seq<char>> {
    match base_path_from_args(args) {
        Some(settled) => settled,
        None => match env_base {
            Some(value) => clean_base_path(value),
            None => None,
        },
    }
}

/// The address under which the server answers.
pub open spec fn server_url(host: Seq<char>, port: u16, base_path: Option<Seq<char>>) -> Seq<
    char,
> {
    let origin = "http://"@ + host + ":"@ + decimal_digits(port as nat);
    match base_path {
        Some(path) => origin + "/"@ + path,
        None => origin,
    }
}

/// A row of choices from position `i` on decides as the whole row does,
/// when no position before `i` makes a choice.
proof fn lemma_first_some_skip<T>(choices: Seq<Option<T>>, i: int)
    requires
        0 <= i < choices.len(),
        choices[i] is None,
    ensures
        first_some(choices.skip(i)) == first_some(choices.skip(i + 1)),
{
    assert(choices.skip(i).drop_first() == choices.skip(i + 1));
}

/// The first choice made in a row of choices is one of them.
proof fn lemma_first_some_is_a_choice<T>(choices: Seq<Option<T>>)
    ensures
        first_some(choices) is Some ==> exists|i: int|
            0 <= i < choices.len() && #[trigger] choices[i] == first_some(choices),
    decreases choices.len(),
{
    if choices.len() > 0 {
        if choices[0] is Some {
            assert(choices[0] == first_some(choices));
        } else {
            let rest = choices.drop_first();
            lemma_first_some_is_a_choice(rest);
            if first_some(rest) is Some {
                let i = choose|i: int| 0 <= i < rest.len() && #[trigger] rest[i] == first_some(rest);
                assert(choices[i + 1] == first_some(choices));
            }
        }
    }
}

/// A base path joins the address with exactly one slash: whatever the
/// command line and the environment hold, the base path in effect is not
/// empty and does not begin with a slash, and the address is the origin, one
/// slash, and the base path.
pub proof fn lemma_base_path_joins_with_one_slash(
    args: Seq<Seq<char>>,
    env_base: Option<Seq<char>>,
    host: Seq<char>,
    port: u16,
)
    ensures
        match effective_base_path(args, env_base) {
            Some(path) => {
                &&& path.len() > 0
                &&& path[0] != '/'
                &&& server_url(host, port, Some(path)) == server_url(host, port, None) + "/"@ + path
            },
            None => true,
        },
{
    assert forall|value: Seq<char>| true implies match #[trigger] clean_base_path(value) {
        Some(path) => path.len() > 0 && path[0] != '/',
        None => true,
    } by {
        lemma_trim_start_matches_head(trim(value), '/');
    }
    let choices = Seq::new(args.len(), |i: int| base_path_at(args, i));
    lemma_first_some_is_a_choice(choices);
    if first_some(choices) is Some {
        let i = choose|i: int| 0 <= i < choices.len() && #[trigger] choices[i] == first_some(choices);
        assert(choices[i] == base_path_at(args, i));
    }
}

fn parse_port_at(args: &[String], i: usize) -> (r: Option<u16>)
    requires
        i < args.len(),
    ensures
        r == port_at(args.deep_view(), i as int),
{
    let arg = args[i].as_str();
    if str_eq(arg, "--port") || str_eq(arg, "-p") {
        if i + 1 < args.len() {
            parse_u16(args[i + 1].as_str())
        } else {
            None
        }
    } else {
        match strip_prefix_str(arg, "--port=") {
            Some(rest) => parse_u16(rest),
            None => None,
        }
    }
}

fn parse_clean_host(value: &str) -> (r: Option<String>)
    ensures
        r.deep_view() == clean_host(value@),
{
    let s = trim_str(value);
    if s.unicode_len() > 0 {
        Some(String::from_str(s))
    } else {
        None
    }
}

fn parse_host_at(args: &[String], i: usize) -> (r: Option<String>)
    requires
        i < args.len(),
    ensures
        r.deep_view() == host_at(args.deep_view(), i as int),
{
    let arg = args[i].as_str();
    if str_eq(arg, "--host") || str_eq(arg, "-H") {
        if i + 1 < args.len() {
            parse_clean_host(args[i + 1].as_str())
        } else {
            None
        }
    } else {
        match strip_prefix_str(arg, "--host=") {
            Some(rest) => parse_clean_host(rest),
            None => None,
        }
    }
}

fn parse_clean_base_path(value: &str) -> (r: Option<String>)
    ensures
        r.deep_view() == clean_base_path(value@),
{
    let s = trim_start_matches_str(trim_str(value), '/');
    if s.unicode_len() > 0 {
        Some(String::from_str(s))
    } else {
        None
    }
}

fn parse_base_path_at(args: &[String], i: usize) -> (r: Option<Option<String>>)
    requires
        i < args.len(),
    ensures
        r.deep_view() == base_path_at(args.deep_view(), i as int),
{
    let arg = args[i].as_str();
    if str_eq(arg, "--base-url") || str_eq(arg, "--base_url") || str_eq(arg, "-b") {
        if i + 1 < args.len() {
            Some(parse_clean_base_path(args[i + 1].as_str()))
        } else {
            None
        }
    } else {
        let assigned = match strip_prefix_str(arg, "--base-url=") {
            Some(rest) => Some(rest),
            None => strip_prefix_str(arg, "--base_url="),
        };
        match assigned {
            Some(rest) => Some(parse_clean_base_path(rest)),
            None => None,
        }
    }
}

/// The port in effect, given the command line and the value of the
/// environment's port variable.
pub fn parse_port_from_args(args: &[String], env_port: Option<&str>) -> (port: u16)
    ensures
        port == effective_port(args.deep_view(), env_port.deep_view()),
{
    let ghost choices = Seq::new(args.len() as nat, |i: int| port_at(args.deep_view(), i));
    assert(choices.skip(0) == choices);
    let mut i: usize = 0;
    while i < args.len()
        invariant
            i <= args.len(),
            choices == Seq::new(args.len() as nat, |i: int| port_at(args.deep_view(), i)),
            first_some(choices) == first_some(choices.skip(i as int)),
        decreases args.len() - i,
    {
        match parse_port_at(args, i) {
            Some(port) => {
                return port;
            },
            None => {
                proof {
                    lemma_first_some_skip(choices, i as int);
                }
            },
        }
        i += 1;
    }
    match env_port {
        Some(value) => match parse_u16(trim_str(value)) {
            Some(port) => port,
            None => DEFAULT_PORT,
        },
        None => DEFAULT_PORT,
    }
}

/// The host in effect, given the command line and the value of the
/// environment's host variable.
pub fn parse_host_from_args(args: &[String], env_host: Option<&str>) -> (host: String)
    ensures
        host@ == effective_host(args.deep_view(), env_host.deep_view()),
{
    let ghost choices = Seq::new(args.len() as nat, |i: int| host_at(args.deep_view(), i));
    assert(choices.skip(0) == choices);
    let mut i: usize = 0;
    while i < args.len()
        invariant
            i <= args.len(),
            choices == Seq::new(args.len() as nat, |i: int| host_at(args.deep_view(), i)),
            first_some(choices) == first_some(choices.skip(i as int)),
        decreases args.len() - i,
    {
        match parse_host_at(args, i) {
            Some(host) => {
                return host;
            },
            None => {
                proof {
                    lemma_first_some_skip(choices, i as int);
                }
            },
        }
        i += 1;
    }
    let from_env = match env_host {
        Some(value) => parse_clean_host(value),
        None => None,
    };
    match from_env {
        Some(host) => host,
        None => String::from_str("127.0.0.1"),
    }
}

/// The base path in effect, given the command line and the value of the
/// environment's base path variable.
pub fn parse_base_url_from_args(args: &[String], env_base: Option<&str>) -> (base_path: Option<
    String,
>)
    ensures
        base_path.deep_view() == effective_base_path(args.deep_view(), env_base.deep_view()),
{
    let ghost choices = Seq::new(args.len() as nat, |i: int| base_path_at(args.deep_view(), i));
    assert(choices.skip(0) == choices);
    let mut i: usize = 0;
    while i < args.len()
        invariant
            i <= args.len(),
            choices == Seq::new(args.len() as nat, |i: int| base_path_at(args.deep_view(), i)),
            first_some(choices) == first_some(choices.skip(i as int)),
        decreases args.len() - i,
    {
        match parse_base_path_at(args, i) {
            Some(settled) => {
                return settled;
            },
            None => {
                proof {
                    lemma_first_some_skip(choices, i as int);
                }
            },
        }
        i += 1;
    }
    match env_base {
        Some(value) => parse_clean_base_path(value),
        None => None,
    }
}

/// The address under which a server on `host` and `port` answers, with
/// `base_path` below it if there is one.
pub fn build_server_url(host: &str, port: u16, base_path: Option<&str>) -> (url: String)
    ensures
        url@ == server_url(host@, port, base_path.deep_view()),
{
    let mut url = String::from_str("http://");
    url.append(host);
    url.append(":");
    let digits = decimal_string(port as u64);
    url.append(digits.as_str());
    match base_path {
        Some(path) => {
            url.append("/");
            url.append(path);
        },
        None => {},
    }
    url
}

} // verus!
