use vstd::prelude::*;

verus! {

/// The wire name of the PDF export command.
pub open spec fn export_pdf_identifier() -> Seq<char> {
    "typst-lsp.doPdfExport"@
}

/// A command that clients may ask the server to execute.
#[derive(Debug, Clone, Copy, PartialEq, Eq, Structural)]
pub enum LspCommand {
    ExportPdf,
}

/// The canonical name under which a command travels on the wire.
pub open spec fn identifier_of(command: LspCommand) -> Seq<char> {
    match command {
        LspCommand::ExportPdf => export_pdf_identifier(),
    }
}

/// Every registered command, in the order in which they are advertised.
pub open spec fn registered_commands() -> Seq<LspCommand> {
    seq![LspCommand::ExportPdf]
}

/// The identifiers of the registered commands, in advertisement order.
pub open spec fn registered_identifiers() -> Seq<Seq<char>> {
    registered_commands().map_values(|c: LspCommand| identifier_of(c))
}

/// The command whose identifier is `name`, if any.
pub open spec fn command_named(name: Seq<char>) -> Option<LspCommand> {
    if name == export_pdf_identifier() {
        Some(LspCommand::ExportPdf)
    } else {
        None
    }
}

impl LspCommand {
    /// The wire identifier of this command.
    pub fn identifier(self) -> (r: String)
        ensures
            r@ == identifier_of(self),
    {
        match self {
            LspCommand::ExportPdf => "typst-lsp.doPdfExport".to_owned(),
        }
    }

    /// The command whose identifier is exactly `command` (case-sensitive),
    /// or `None` when no registered command carries that name.
    pub fn parse(command: &str) -> (r: Option<Self>)
        ensures
            r == command_named(command@),
    {
        let name = command.to_owned();
        if name == LspCommand::ExportPdf.identifier() {
            Some(LspCommand::ExportPdf)
        } else {
            None
        }
    }

    /// The identifiers of all registered commands, as advertised to clients.
    pub fn all_as_string() -> (r: Vec<String>)
        ensures
            r@.map_values(|s: String| s@) == registered_identifiers(),
            r@.len() == registered_commands().len(),
            forall|i: int|
                0 <= i < r@.len() ==> #[trigger] r@[i]@ == identifier_of(registered_commands()[i]),
    {
        let mut names: Vec<String> = Vec::new();
        names.push(LspCommand::ExportPdf.identifier());
        assert(names@.map_values(|s: String| s@) =~= registered_identifiers());
        names
    }
}

impl From<LspCommand> for String {
    fn from(command: LspCommand) -> (r: String)
        ensures
            r@ == identifier_of(command),
    {
        command.identifier()
    }
}

impl vstd::std_specs::convert::FromSpecImpl<LspCommand> for String {
    open spec fn obeys_from_spec() -> bool {
        false
    }

    open spec fn from_spec(command: LspCommand) -> String {
        choose|s: String| s@ == identifier_of(command)
    }
}

/// Parsing the identifier of any command gives that command back.
pub proof fn lemma_parse_identifier(command: LspCommand)
    ensures
        command_named(identifier_of(command)) == Some(command),
{
}

/// A name that is no command's identifier parses to `None`.
pub proof fn lemma_parse_unknown(name: Seq<char>)
    requires
        forall|c: LspCommand| name != #[trigger] identifier_of(c),
    ensures
        command_named(name) is None,
{
    assert(name != identifier_of(LspCommand::ExportPdf));
}

/// The advertised identifiers name every command exactly once: each command's
/// identifier occurs among them, at a single position, and no identifier
/// occurs twice.
pub proof fn lemma_identifiers_enumerate_commands(command: LspCommand)
    ensures
        registered_identifiers().no_duplicates(),
        registered_identifiers().contains(identifier_of(command)),
        registered_commands().no_duplicates(),
        registered_commands().contains(command),
        registered_identifiers().len() == registered_commands().len(),
{
    assert(registered_commands()[0] == LspCommand::ExportPdf);
    assert(registered_identifiers()[0] == identifier_of(command));
}

} // verus!
