use vstd::prelude::*;
use vstd::string::StringExecFns;
use crate::cause::Cause;
use crate::cause::debug_text;
use crate::outside::clap_display;
use crate::outside::clap_display_of;
use crate::outside::set_logger_display;

verus! {

/// Shared result alias: the return channel of every fallible operation of
/// the surrounding tool.
pub type Result<T> = std::result::Result<T, Error>;

/// The unified failure type of the tool: exactly one variant is active per
/// value.  The union is open for extension — more variants may be added later
/// without that being a breaking change — so code matching on it must keep a
/// catch-all arm.
#[non_exhaustive]
pub enum Error {
    /// A failure with no structured cause, described only by a message.
    AdHoc(String),
    /// A failure attributed to a caught error object, annotated with a
    /// message; the caught error is retained as the causal chain.
    Compat { msg: String, source: Cause },
    /// A failure from filesystem or stream operations.
    Io(Cause),
    /// A failure from command-line argument parsing.
    Clap(Cause),
    /// A failure from installing the global logging sink.
    SetLogger(Cause),
    /// A failure from loading or parsing configuration.
    Config(Cause),
    /// A failure surfaced by the underlying profiling engine.
    PyroscopeError(Cause),
    /// A failure from JSON encoding or decoding.
    Json(Cause),
}

impl Error {
    /// The text this error renders to for users: ad-hoc messages carry the
    /// `"Other: "` prefix, contextualized failures show the message and the
    /// cause's diagnostic text, and every wrapped failure passes its cause's
    /// own text through unchanged.
    pub open spec fn spec_render(&self) -> Seq<char> {
        match *self {
            Error::AdHoc(m) => "Other: "@ + m@,
            Error::Compat { msg, source } => msg@ + ": "@ + source.debug@,
            Error::Io(c) => c.display@,
            Error::Clap(c) => c.display@,
            Error::SetLogger(c) => c.display@,
            Error::Config(c) => c.display@,
            Error::PyroscopeError(c) => c.display@,
            Error::Json(c) => c.display@,
        }
    }

    /// The causal source of this error: the wrapped cause where there is one,
    /// nothing for an ad-hoc message, which is a leaf.
    pub open spec fn spec_source(&self) -> Option<Cause> {
        match *self {
            Error::AdHoc(_) => None,
            Error::Compat { msg: _, source } => Some(source),
            Error::Io(c) => Some(c),
            Error::Clap(c) => Some(c),
            Error::SetLogger(c) => Some(c),
            Error::Config(c) => Some(c),
            Error::PyroscopeError(c) => Some(c),
            Error::Json(c) => Some(c),
        }
    }

    /// Create an ad-hoc error from a free-form message.
    pub fn new(msg: &str) -> (r: Error)
        ensures
            (r matches Error::AdHoc(m) && m@ == msg@),
            r.spec_render() == "Other: "@ + msg@,
            r.spec_source() is None,
    {
        Error::AdHoc(msg.to_owned())
    }

    /// Create an error from a message and a caught error object, keeping the
    /// caught object as this error's causal source.  The cause's concrete
    /// type is erased: only the texts it renders to are retained.
    pub fn new_with_source<E: std::error::Error + Send + Sync + 'static>(
        msg: &str,
        source: E,
    ) -> (r: Error)
        ensures
            (r matches Error::Compat { msg: m, source: c } && m@ == msg@ && r.spec_render()
                == msg@ + ": "@ + c.debug@ && r.spec_source() == Some(c)),
    {
        let cause = Cause::from_error(source);
        Error::Compat { msg: msg.to_owned(), source: cause }
    }

    /// Render this error as one human-readable line.
    pub fn render(&self) -> (r: String)
        ensures
            r@ == self.spec_render(),
    {
        match self {
            Error::AdHoc(m) => {
                let mut s = "Other: ".to_owned();
                s.append(m.as_str());
                s
            },
            Error::Compat { msg, source } => {
                let mut s = msg.as_str().to_owned();
                s.append(": ");
                s.append(source.debug.as_str());
                s
            },
            Error::Io(c) => c.display.clone(),
            Error::Clap(c) => c.display.clone(),
            Error::SetLogger(c) => c.display.clone(),
            Error::Config(c) => c.display.clone(),
            Error::PyroscopeError(c) => c.display.clone(),
            Error::Json(c) => c.display.clone(),
        }
    }

    /// Wrap a caught `std::io::Error`, retaining it as the causal source.
    pub fn from_io(e: std::io::Error) -> (r: Error)
        ensures
            (r matches Error::Io(c) && r.spec_render() == c.display@ && r.spec_source() == Some(
                c,
            )),
    {
        Error::Io(Cause::from_error(e))
    }

    /// Wrap a caught `clap::Error`, retaining it as the causal source.  The
    /// wrapped error's own rendered text, `clap_display_of(e)`, passes
    /// through unchanged.
    pub fn from_clap(e: clap::Error) -> (r: Error)
        ensures
            (r matches Error::Clap(c) && c.display@ == clap_display_of(e) && r.spec_render()
                == clap_display_of(e) && r.spec_source() == Some(c)),
    {
        let display = clap_display(&e);
        let debug = debug_text(&e);
        Error::Clap(Cause { display, debug })
    }

    /// Wrap a caught `log::SetLoggerError`, retaining it as the causal
    /// source.  That error renders to one fixed sentence, which passes
    /// through unchanged.
    pub fn from_set_logger(e: log::SetLoggerError) -> (r: Error)
        ensures
            (r matches Error::SetLogger(c) && c.display@
                == "attempted to set a logger after the logging system was already initialized"@
                && r.spec_render() == c.display@ && r.spec_source() == Some(c)),
    {
        let display = set_logger_display(&e);
        let debug = debug_text(&e);
        Error::SetLogger(Cause { display, debug })
    }

    /// Wrap a caught `config::ConfigError`, retaining it as the causal
    /// source.
    pub fn from_config(e: config::ConfigError) -> (r: Error)
        ensures
            (r matches Error::Config(c) && r.spec_render() == c.display@ && r.spec_source()
                == Some(c)),
    {
        Error::Config(Cause::from_error(e))
    }

    /// Wrap a caught `pyroscope::PyroscopeError`, retaining it as the causal
    /// source.
    pub fn from_pyroscope(e: pyroscope::PyroscopeError) -> (r: Error)
        ensures
            (r matches Error::PyroscopeError(c) && r.spec_render() == c.display@
                && r.spec_source() == Some(c)),
    {
        Error::PyroscopeError(Cause::from_error(e))
    }

    /// Wrap a caught `serde_json::Error`, retaining it as the causal source.
    pub fn from_json(e: serde_json::Error) -> (r: Error)
        ensures
            (r matches Error::Json(c) && r.spec_render() == c.display@ && r.spec_source() == Some(
                c,
            )),
    {
        Error::Json(Cause::from_error(e))
    }

    /// Convert a poisoned-lock condition into an ad-hoc error carrying the
    /// fixed text `"Poison Error"`.  The poisoned payload is deliberately
    /// discarded, whatever its type and content: a poisoned lock is treated
    /// as an unrecoverable, context-free condition.
    pub fn from_poison<T>(_e: std::sync::PoisonError<T>) -> (r: Error)
        ensures
            (r matches Error::AdHoc(m) && m@ == "Poison Error"@),
            r.spec_render() == "Other: Poison Error"@,
            r.spec_source() is None,
    {
        let r = Error::AdHoc("Poison Error".to_owned());
        proof {
            reveal_strlit("Other: ");
            reveal_strlit("Poison Error");
            reveal_strlit("Other: Poison Error");
            assert("Other: "@ + "Poison Error"@ =~= "Other: Poison Error"@);
        }
        r
    }

    /// The causal source of this error, if it has one.
    pub fn source(&self) -> (r: Option<&Cause>)
        ensures
            match r {
                Some(c) => self.spec_source() == Some(*c),
                None => self.spec_source() is None,
            },
    {
        match self {
            Error::AdHoc(_) => None,
            Error::Compat { msg: _, source } => Some(source),
            Error::Io(c) => Some(c),
            Error::Clap(c) => Some(c),
            Error::SetLogger(c) => Some(c),
            Error::Config(c) => Some(c),
            Error::PyroscopeError(c) => Some(c),
            Error::Json(c) => Some(c),
        }
    }
}

/// Law: every wrapped failure renders exactly as its cause does — pure
/// passthrough, with no added prefix and no truncation.
pub proof fn lemma_wrapped_render_passthrough(c: Cause)
    ensures
        Error::Io(c).spec_render() == c.display@,
        Error::Clap(c).spec_render() == c.display@,
        Error::SetLogger(c).spec_render() == c.display@,
        Error::Config(c).spec_render() == c.display@,
        Error::PyroscopeError(c).spec_render() == c.display@,
        Error::Json(c).spec_render() == c.display@,
{
}

/// Law: a contextualized failure renders as its message, the separator
/// `": "`, and its cause's diagnostic text.
pub proof fn lemma_compat_render(msg: String, c: Cause)
    ensures
        (Error::Compat { msg, source: c }).spec_render() == msg@ + ": "@ + c.debug@,
{
}

/// Law: building an error from a cause and then extracting the causal
/// source gives back exactly that cause — the round trip loses nothing —
/// for the contextualized and all six wrapped variants; an ad-hoc message
/// is a leaf and has no source.
pub proof fn lemma_source_round_trip(msg: String, m: String, c: Cause)
    ensures
        (Error::Compat { msg, source: c }).spec_source() == Some(c),
        Error::Io(c).spec_source() == Some(c),
        Error::Clap(c).spec_source() == Some(c),
        Error::SetLogger(c).spec_source() == Some(c),
        Error::Config(c).spec_source() == Some(c),
        Error::PyroscopeError(c).spec_source() == Some(c),
        Error::Json(c).spec_source() == Some(c),
        Error::AdHoc(m).spec_source() is None,
{
}

} // verus!
