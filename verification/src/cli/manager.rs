//! The options that the service was started with. They are parsed once, at
//! the entry point, and handed by reference to whoever needs them.

use crate::text::join;
use crate::text::joined;
use vstd::prelude::*;

verus! {

/// The name under which the program presents itself.
pub const PROGRAM_NAME: &'static str = "mavlink-camera-manager";

/// The version that `--version` shows.
pub const PROGRAM_VERSION: &'static str = "0.1.0";

/// The line that `--help` shows under the name.
pub const PROGRAM_ABOUT: &'static str = "Serves the video of cameras as network streams";

/// The option that sets the mavlink connection string.
pub const MAVLINK: &'static str = "mavlink";

/// The mavlink connection string that is used where none is given.
pub const MAVLINK_DEFAULT: &'static str = "udpout:0.0.0.0:14550";

/// The option that sets the address of the REST API server.
pub const REST_SERVER: &'static str = "rest-server";

/// The address of the REST API server that is used where none is given.
pub const REST_SERVER_DEFAULT: &'static str = "0.0.0.0:6020";

/// The flag that turns all log categories up to debug.
pub const VERBOSE: &'static str = "verbose";

/// `clap::ArgMatches`: what clap found on a command line. It is opaque
/// here and read through `is_present` and `value_of` only.
#[verifier::external_type_specification]
#[verifier::external_body]
pub struct ExArgMatches<'a>(clap::ArgMatches<'a>);

/// `clap::Error`: why clap gave no matches. It is opaque here.
#[verifier::external_type_specification]
#[verifier::external_body]
pub struct ExClapError(clap::Error);

/// The names that `clap::ArgMatches::is_present` answers `true` for.
pub uninterp spec fn present_arguments(matches: clap::ArgMatches<'static>) -> Set<Seq<char>>;

/// For each name that `clap::ArgMatches` holds a value of, the first value:
/// its text, or `None` where the value is no valid UTF-8.
pub uninterp spec fn first_values(matches: clap::ArgMatches<'static>) -> Map<
    Seq<char>,
    Option<Seq<char>>,
>;

/// What `clap::App::get_matches_from_safe` makes of a command line, for the
/// options of this program: the names present and the first values, or
/// `None` where it returns an error (a misuse, or a request for the help or
/// the version).
pub uninterp spec fn parsed(args: Seq<Seq<char>>) -> Option<
    (Set<Seq<char>>, Map<Seq<char>, Option<Seq<char>>>),
>;

/// Every first value is text.
pub open spec fn all_text(values: Map<Seq<char>, Option<Seq<char>>>) -> bool {
    forall|name: Seq<char>| values.contains_key(name) ==> (#[trigger] values[name]) is Some
}

/// Declares the options of this program to clap (`clap::App::new`,
/// `clap::App::arg` and the builders of `clap::Arg`) and parses `args` with
/// `clap::App::get_matches_from_safe`. The first of `args` is taken as the
/// program's name. The outcome depends on `args` alone; the values of a
/// command line made of strings are text.
#[verifier::external_body]
fn get_clap_matches(args: &Vec<String>) -> (result: Result<
    clap::ArgMatches<'static>,
    clap::Error,
>)
    ensures
        match result {
            Ok(matches) => parsed(args.deep_view()) == Some(
                (present_arguments(matches), first_values(matches)),
            ) && all_text(first_values(matches)),
            Err(_) => parsed(args.deep_view()) is None,
        },
{
    clap::App::new(PROGRAM_NAME).version(PROGRAM_VERSION).about(PROGRAM_ABOUT)
        .arg(clap::Arg::with_name(MAVLINK).long(MAVLINK).value_name("TYPE:<IP/SERIAL>:<PORT/BAUDRATE>")
            .help("Sets the mavlink connection string").takes_value(true).default_value(MAVLINK_DEFAULT))
        .arg(clap::Arg::with_name(REST_SERVER).long(REST_SERVER)
            .help("Sets the address for the REST API server").takes_value(true).default_value(REST_SERVER_DEFAULT))
        .arg(clap::Arg::with_name(VERBOSE).short("v").long(VERBOSE)
            .help("Turn all log categories up to Debug, for more information check RUST_LOG env variable.").takes_value(false))
        .get_matches_from_safe(args)
}

/// `clap::ArgMatches::is_present`: whether the argument `name` was given, or
/// stands in by a default value.
#[verifier::external_body]
fn is_present(matches: &clap::ArgMatches<'static>, name: &str) -> (present: bool)
    ensures
        present == present_arguments(*matches).contains(name@),
{
    matches.is_present(name)
}

/// `clap::ArgMatches::value_of`: the first value of the argument `name`, if
/// it has one. The call fails hard on a value that is no valid UTF-8.
#[verifier::external_body]
fn value_of<'a>(matches: &'a clap::ArgMatches<'static>, name: &str) -> (value: Option<&'a str>)
    requires
        first_values(*matches).contains_key(name@) ==> first_values(*matches)[name@] is Some,
    ensures
        match value {
            Some(text) => first_values(*matches).contains_key(name@) && first_values(
                *matches,
            )[name@] == Some(text@),
            None => !first_values(*matches).contains_key(name@),
        },
{
    matches.value_of(name)
}

/// `Clone::clone` of `clap::ArgMatches`: a copy that holds the same.
#[verifier::external_body]
fn clone_matches(matches: &clap::ArgMatches<'static>) -> (copy: clap::ArgMatches<'static>)
    ensures
        present_arguments(copy) == present_arguments(*matches),
        first_values(copy) == first_values(*matches),
{
    matches.clone()
}

/// Takes the message out of a `clap::Error` and asks
/// `clap::Error::use_stderr` whether it reports a misuse.
#[verifier::external_body]
fn usage_error(error: clap::Error) -> (usage: UsageError) {
    UsageError { misuse: error.use_stderr(), message: error.message }
}

/// Why the command line gave no options: it was misused, or it asked for
/// the help or the version. The message is for the user; a misuse is for
/// the error stream and ends the program with a failure.
#[derive(Debug)]
pub struct UsageError {
    pub message: String,
    pub misuse: bool,
}

/// The options that the service was started with.
#[derive(Debug)]
pub struct Manager {
    clap_matches: clap::ArgMatches<'static>,
}

impl Manager {
    #[verifier::type_invariant]
    spec fn values_are_text(self) -> bool {
        all_text(first_values(self.clap_matches))
    }

    /// The names of the options that are present.
    pub closed spec fn present(&self) -> Set<Seq<char>> {
        present_arguments(self.clap_matches)
    }

    /// The first value of each option that has one.
    pub closed spec fn values(&self) -> Map<Seq<char>, Option<Seq<char>>> {
        first_values(self.clap_matches)
    }

    /// The value of the option `name`, or `fallback` where it has none.
    pub open spec fn value_or(&self, name: Seq<char>, fallback: Seq<char>) -> Seq<char> {
        if self.values().contains_key(name) && self.values()[name] is Some {
            self.values()[name]->0
        } else {
            fallback
        }
    }

    fn new(clap_matches: clap::ArgMatches<'static>) -> (manager: Manager)
        requires
            all_text(first_values(clap_matches)),
        ensures
            manager.present() == present_arguments(clap_matches),
            manager.values() == first_values(clap_matches),
    {
        Manager { clap_matches }
    }
}

/// The value, or the fallback where there is none.
pub fn or_default<'a>(value: Option<&'a str>, fallback: &'a str) -> (text: &'a str)
    ensures
        text@ == match value {
            Some(given) => given@,
            None => fallback@,
        },
{
    match value {
        Some(given) => given,
        None => fallback,
    }
}

/// Parses the command line `args`, whose first string is the name that the
/// program was called by. This is to be done once, at the entry point.
pub fn init(args: &Vec<String>) -> (result: Result<Manager, UsageError>)
    ensures
        match result {
            Ok(manager) => parsed(args.deep_view()) == Some((manager.present(), manager.values())),
            Err(_) => parsed(args.deep_view()) is None,
        },
{
    match get_clap_matches(args) {
        Ok(clap_matches) => Ok(Manager::new(clap_matches)),
        Err(error) => Err(usage_error(error)),
    }
}

/// Whether the verbosity flag was used.
pub fn is_verbose(manager: &Manager) -> (verbose: bool)
    ensures
        verbose == manager.present().contains(VERBOSE@),
{
    is_present(&manager.clap_matches, VERBOSE)
}

/// The mavlink connection string.
pub fn mavlink_connection_string(manager: &Manager) -> (text: &str)
    ensures
        text@ == manager.value_or(MAVLINK@, MAVLINK_DEFAULT@),
{
    proof {
        use_type_invariant(manager);
    }
    or_default(value_of(&manager.clap_matches, MAVLINK), MAVLINK_DEFAULT)
}

/// The address that the REST API is served at.
pub fn server_address(manager: &Manager) -> (text: &str)
    ensures
        text@ == manager.value_or(REST_SERVER@, REST_SERVER_DEFAULT@),
{
    proof {
        use_type_invariant(manager);
    }
    or_default(value_of(&manager.clap_matches, REST_SERVER), REST_SERVER_DEFAULT)
}

/// The command line that started the program: its strings with a space
/// between them.
pub fn command_line_string(args: &Vec<String>) -> (line: String)
    ensures
        line@ == joined(args.deep_view(), " "@),
{
    join(args, " ")
}

/// What clap made of the command line, for those who read further options
/// from it.
pub fn matches(manager: &Manager) -> (copy: clap::ArgMatches<'static>)
    ensures
        present_arguments(copy) == manager.present(),
        first_values(copy) == manager.values(),
{
    clone_matches(&manager.clap_matches)
}

} // verus!
