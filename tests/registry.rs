use lsp_commands::command::LspCommand;

#[test]
fn parse_export_pdf_identifier() {
    assert_eq!(
        LspCommand::parse("typst-lsp.doPdfExport"),
        Some(LspCommand::ExportPdf)
    );
}

#[test]
fn parse_round_trips_every_identifier() {
    for name in LspCommand::all_as_string() {
        let command = LspCommand::parse(&name).unwrap();
        assert_eq!(command.identifier(), name);
    }
}

#[test]
fn parse_unknown_names_gives_none() {
    assert_eq!(LspCommand::parse(""), None);
    assert_eq!(LspCommand::parse("typst-lsp.doPdfExpor"), None);
    assert_eq!(LspCommand::parse("typst-lsp.doPdfExport "), None);
    assert_eq!(LspCommand::parse("TYPST-LSP.DOPDFEXPORT"), None);
    assert_eq!(LspCommand::parse("typst-lsp.doPdfExportx"), None);
}

#[test]
fn all_as_string_lists_each_command_once() {
    let names = LspCommand::all_as_string();
    assert_eq!(names, vec!["typst-lsp.doPdfExport".to_string()]);
}

#[test]
fn identifier_of_export_pdf() {
    assert_eq!(LspCommand::ExportPdf.identifier(), "typst-lsp.doPdfExport");
    assert_eq!(String::from(LspCommand::ExportPdf), "typst-lsp.doPdfExport");
}
