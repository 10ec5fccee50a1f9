use tower_lsp::lsp_types::Url;
use vstd::prelude::*;

verus! {

#[verifier::external_type_specification]
#[verifier::external_body]
pub struct ExUrl(Url);

/// Whether `Url::parse` accepts `text` as an absolute URL.
pub uninterp spec fn url_parses(text: Seq<char>) -> bool;

/// Relies on `url::Url::parse`, re-exported as `tower_lsp::lsp_types::Url`:
/// it returns a URL or an error, never panics, and which of the two comes
/// depends on the text alone.
#[verifier::external_body]
fn parse_url(text: &str) -> (r: Option<Url>)
    ensures
        r is Some <==> url_parses(text@),
{
    Url::parse(text).ok()
}

/// The shape of one argument of a command, as far as the handlers read it:
/// a JSON string with its text, or any other JSON value.
#[derive(Debug, Clone, PartialEq, Eq)]
pub enum Argument {
    Text(String),
    Other,
}

/// Why a command's arguments were refused. Every variant is reported to the
/// client as an invalid-parameters error.
#[derive(Debug, Clone, Copy, PartialEq, Eq, Structural)]
pub enum CommandError {
    /// No argument was given where one is required.
    MissingArgument,
    /// The argument is not a JSON string.
    WrongArgumentType,
    /// The string is not a syntactically valid URI.
    MalformedUri,
    /// The URI names no source file known to the workspace.
    UnknownResource,
}

/// The first violated precondition of the export command on `args`, if any:
/// a first argument must be present, be a string, and parse as a URI.
pub open spec fn export_argument_error(args: Seq<Argument>) -> Option<CommandError> {
    if args.len() == 0 {
        Some(CommandError::MissingArgument)
    } else {
        match args[0] {
            Argument::Text(text) => if url_parses(text@) {
                None
            } else {
                Some(CommandError::MalformedUri)
            },
            Argument::Other => Some(CommandError::WrongArgumentType),
        }
    }
}

/// The source to export, given what the workspace answered to the lookup of
/// the URI.
pub open spec fn source_lookup<H>(found: Option<H>) -> Result<H, CommandError> {
    match found {
        Some(source) => Ok(source),
        None => Err(CommandError::UnknownResource),
    }
}

/// Checks the arguments of the export command, in order, and returns the URI
/// of the document to export, or the first violated precondition.
pub fn export_pdf_uri(arguments: &Vec<Argument>) -> (r: Result<Url, CommandError>)
    ensures
        r is Ok <==> export_argument_error(arguments@) is None,
        r matches Err(e) ==> export_argument_error(arguments@) == Some(e),
{
    if arguments.len() == 0 {
        return Err(CommandError::MissingArgument);
    }
    match &arguments[0] {
        Argument::Text(text) => match parse_url(text.as_str()) {
            Some(uri) => Ok(uri),
            None => Err(CommandError::MalformedUri),
        },
        Argument::Other => Err(CommandError::WrongArgumentType),
    }
}

/// Turns the workspace's answer to the lookup of the URI into the source to
/// export, or the unknown-resource error.
pub fn export_pdf_source<H>(found: Option<H>) -> (r: Result<H, CommandError>)
    ensures
        r == source_lookup(found),
{
    match found {
        Some(source) => Ok(source),
        None => Err(CommandError::UnknownResource),
    }
}

/// What one dispatch of the export command does when the workspace answers
/// `found` to the lookup of its URI: the sources handed to the export routine,
/// in order, and the reply to the client. Arguments are checked first, then
/// the source is looked up, and only then is the export run and awaited.
pub open spec fn export_dispatch<H>(args: Seq<Argument>, found: Option<H>) -> (Seq<H>, Result<(), CommandError>) {
    match export_argument_error(args) {
        Some(e) => (Seq::empty(), Err(e)),
        None => match source_lookup(found) {
            Ok(source) => (seq![source], Ok(())),
            Err(e) => (Seq::empty(), Err(e)),
        },
    }
}

/// Arguments that break a precondition are refused with that error before the
/// workspace is asked anything, and nothing is exported.
pub proof fn lemma_refused_arguments_never_export<H>(args: Seq<Argument>, found: Option<H>)
    requires
        export_argument_error(args) is Some,
    ensures
        export_dispatch(args, found) == (Seq::<H>::empty(), Err::<(), CommandError>(export_argument_error(args)->0)),
{
}

/// Without arguments the export command is refused as missing its argument,
/// and nothing is exported.
pub proof fn lemma_export_without_arguments<H>(found: Option<H>)
    ensures
        export_dispatch(Seq::<Argument>::empty(), found) == (Seq::<H>::empty(), Err::<(), CommandError>(CommandError::MissingArgument)),
{
}

/// A first argument that is a string but no valid URI is refused as malformed,
/// an error distinct from the unknown-resource one, and nothing is exported.
pub proof fn lemma_malformed_uri_never_exports<H>(args: Seq<Argument>, found: Option<H>)
    requires
        args.len() > 0,
        args[0] matches Argument::Text(text) && !url_parses(text@),
    ensures
        export_dispatch(args, found) == (Seq::<H>::empty(), Err::<(), CommandError>(CommandError::MalformedUri)),
        CommandError::MalformedUri != CommandError::UnknownResource,
{
}

/// A valid URI that the workspace does not know is refused as an unknown
/// resource, and the export routine is never called.
pub proof fn lemma_unknown_source_never_exports<H>(args: Seq<Argument>)
    requires
        export_argument_error(args) is None,
    ensures
        export_dispatch(args, None::<H>) == (Seq::<H>::empty(), Err::<(), CommandError>(CommandError::UnknownResource)),
{
}

/// A valid URI that the workspace knows has its source exported exactly once,
/// and the client gets an empty success once the export has completed.
pub proof fn lemma_known_source_exported_once<H>(args: Seq<Argument>, source: H)
    requires
        export_argument_error(args) is None,
    ensures
        export_dispatch(args, Some(source)).0 == seq![source],
        export_dispatch(args, Some(source)).1 == Ok::<(), CommandError>(()),
{
}

/// Two dispatches for different known documents each succeed, and each
/// exports its own document only: the outcome of one depends on its own
/// arguments and lookup alone, whatever the other does.
pub proof fn lemma_independent_dispatches<H>(
    args1: Seq<Argument>,
    source1: H,
    args2: Seq<Argument>,
    source2: H,
)
    requires
        export_argument_error(args1) is None,
        export_argument_error(args2) is None,
        source1 != source2,
    ensures
        export_dispatch(args1, Some(source1)) == (seq![source1], Ok::<(), CommandError>(())),
        export_dispatch(args2, Some(source2)) == (seq![source2], Ok::<(), CommandError>(())),
        export_dispatch(args1, Some(source1)).0 != export_dispatch(args2, Some(source2)).0,
{
    assert(export_dispatch(args1, Some(source1)).0[0] != export_dispatch(args2, Some(source2)).0[0]);
}

} // verus!
