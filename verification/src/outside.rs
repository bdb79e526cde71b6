use vstd::prelude::*;
use clap::Error as ClapArgError;
use serde_json::Error as JsonCodecError;

verus! {

/// The error type of filesystem and stream operations, `std::io::Error`,
/// declared so that it can stand in signatures; the library only wraps it.
#[verifier::external_type_specification]
#[verifier::external_body]
pub struct ExIoError(std::io::Error);

/// The error type of command-line argument parsing, `clap::Error`, declared
/// so that it can stand in signatures; the library only wraps it.
#[verifier::external_type_specification]
#[verifier::external_body]
pub struct ExClapError(ClapArgError);

/// The error returned when the global logging sink is installed a second
/// time, `log::SetLoggerError`, declared so that it can stand in signatures;
/// the library only wraps it.
#[verifier::external_type_specification]
#[verifier::external_body]
pub struct ExSetLoggerError(log::SetLoggerError);

/// The error type of configuration loading, `config::ConfigError`, declared
/// so that it can stand in signatures; the library only wraps it.
#[verifier::external_type_specification]
#[verifier::external_body]
pub struct ExConfigError(config::ConfigError);

/// The error type of the underlying profiling engine,
/// `pyroscope::PyroscopeError`, declared so that it can stand in signatures;
/// the library only wraps it.
#[verifier::external_type_specification]
#[verifier::external_body]
pub struct ExPyroscopeError(pyroscope::PyroscopeError);

/// The error type of JSON encoding and decoding, `serde_json::Error`,
/// declared so that it can stand in signatures; the library only wraps it.
#[verifier::external_type_specification]
#[verifier::external_body]
pub struct ExJsonError(JsonCodecError);

/// The payload of a failed lock acquisition, `std::sync::PoisonError`,
/// declared so that it can stand in signatures; the library discards it.
#[verifier::external_type_specification]
#[verifier::external_body]
#[verifier::reject_recursive_types(T)]
pub struct ExPoisonError<T>(std::sync::PoisonError<T>);

/// The text a `clap::Error` renders to.  clap builds it from the pieces
/// stored in the error alone, so it is a function of the value.
pub uninterp spec fn clap_display_of(e: ClapArgError) -> Seq<char>;

/// Relies on the `Display` impl of `clap::Error`, through
/// `ToString::to_string`: the rendered text is built from the stored pieces
/// of the error alone, named here by `clap_display_of`.
#[verifier::external_body]
pub(crate) fn clap_display(e: &ClapArgError) -> (r: String)
    ensures
        r@ == clap_display_of(*e),
{
    e.to_string()
}

/// Relies on the `Display` impl of `log::SetLoggerError`, through
/// `ToString::to_string`: it always writes one fixed sentence.
#[verifier::external_body]
pub(crate) fn set_logger_display(e: &log::SetLoggerError) -> (r: String)
    ensures
        r@ == "attempted to set a logger after the logging system was already initialized"@,
{
    e.to_string()
}

} // verus!
