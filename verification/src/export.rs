//! Export and import as the user interface asks for them: one call each, with
//! errors as text.

use vstd::prelude::*;
use vstd::string::*;
use crate::codec::{decode, encode, encoded, read_text, EncodeFault};
use crate::codegen::{gen_view, generate_source, rendered, GenError, GenFault};
use crate::fault::DecodeFault;
use crate::json::written_view;
use crate::model::{StyleModel, StyleModelView};

verus! {

/// The two kinds of file that a style is exported to.
#[derive(Clone, Copy, Debug, PartialEq, Eq, Structural)]
pub enum ExportFormat {
    RustSource,
    Json,
}

impl Default for ExportFormat {
    fn default() -> (r: ExportFormat)
        ensures
            r == ExportFormat::RustSource,
    {
        ExportFormat::RustSource
    }
}

impl ExportFormat {
    /// The name of the format, as the user reads it.
    pub fn name(self) -> (r: &'static str)
        ensures
            self == ExportFormat::RustSource ==> r@ == "Rust Source"@,
            self == ExportFormat::Json ==> r@ == "JSON"@,
    {
        match self {
            ExportFormat::RustSource => "Rust Source",
            ExportFormat::Json => "JSON",
        }
    }

    /// The extension of the files of the format.
    pub fn extension(self) -> (r: &'static str)
        ensures
            self == ExportFormat::RustSource ==> r@ == "rs"@,
            self == ExportFormat::Json ==> r@ == "json"@,
    {
        match self {
            ExportFormat::RustSource => "rs",
            ExportFormat::Json => "json",
        }
    }
}

/// What the user has chosen for the export.
#[derive(Clone, Copy, Debug, PartialEq, Eq, Structural)]
pub struct ExportMenu {
    /// Whether generated source brings `egui` in through `eframe`.
    pub eframe: bool,
    /// The kind of file to write.
    pub export_format: ExportFormat,
    /// Whether JSON is laid out over lines.
    pub json_pretty: bool,
}

impl Default for ExportMenu {
    fn default() -> (r: ExportMenu)
        ensures
            r == (ExportMenu {
                eframe: false,
                export_format: ExportFormat::RustSource,
                json_pretty: false,
            }),
    {
        ExportMenu { eframe: false, export_format: ExportFormat::RustSource, json_pretty: false }
    }
}

impl ExportMenu {
    /// The name that is proposed for the exported file.
    pub fn file_name(&self) -> (r: String)
        ensures
            self.export_format == ExportFormat::RustSource ==> r@ == "style."@ + "rs"@,
            self.export_format == ExportFormat::Json ==> r@ == "style."@ + "json"@,
    {
        let mut name = String::from_str("style.");
        name.append(self.export_format.extension());
        name
    }

    /// Exports a style in the chosen format: generated source, or JSON text.
    /// An error comes back as its message. Nothing is written anywhere.
    pub fn export(&self, style: &StyleModel) -> (r: Result<String, String>)
        ensures
            self.export_format == ExportFormat::Json ==> written_view(r) == exported_json(
                encoded(style@, self.json_pretty),
            ),
            self.export_format == ExportFormat::RustSource && rendered(style@, self.eframe)
                is Err ==> written_view(r) == exported_source(rendered(style@, self.eframe)),
    {
        match self.export_format {
            ExportFormat::RustSource => flattened(generate_source(style, self.eframe)),
            ExportFormat::Json => match encode(style, self.json_pretty) {
                Ok(text) => Ok(text),
                Err(error) => Err(error.message()),
            },
        }
    }
}

/// What the export of JSON comes to, for an outcome of encoding: the text, or
/// the fault in words.
pub open spec fn exported_json(outcome: Result<Seq<char>, EncodeFault>) -> Result<
    Seq<char>,
    Seq<char>,
> {
    match outcome {
        Ok(text) => Ok(text),
        Err(fault) => Err(fault.message()),
    }
}

/// What the export of source comes to, for an outcome of generating: the
/// source, or the message of the fault.
pub open spec fn exported_source(outcome: Result<Seq<char>, GenFault>) -> Result<
    Seq<char>,
    Seq<char>,
> {
    match outcome {
        Ok(text) => Ok(text),
        Err(fault) => Err(fault.message()),
    }
}

/// What the export returns for an outcome of generating: the source as it is,
/// or the message of the error as it is.
pub fn flattened(outcome: Result<String, GenError>) -> (r: Result<String, String>)
    ensures
        written_view(r) == exported_source(gen_view(outcome)),
{
    match outcome {
        Ok(source) => Ok(source),
        Err(error) => Err(error.message()),
    }
}

/// The import of a style from a JSON file.
#[derive(Clone, Copy, Debug, PartialEq, Eq, Structural)]
pub struct ImportMenu {}

impl Default for ImportMenu {
    fn default() -> (r: ImportMenu) {
        ImportMenu {}
    }
}

/// What an import comes to, for an outcome of decoding: the style, or the
/// fault in words.
pub open spec fn imported(outcome: Result<StyleModelView, DecodeFault>) -> Result<
    StyleModelView,
    Seq<char>,
> {
    match outcome {
        Ok(style) => Ok(style),
        Err(fault) => Err(fault.message()),
    }
}

/// What an import returned, as a mathematical value.
pub open spec fn import_view(r: Result<StyleModel, String>) -> Result<StyleModelView, Seq<char>> {
    match r {
        Ok(style) => Ok(style@),
        Err(message) => Err(message@),
    }
}

impl ImportMenu {
    /// Reads a style from the text of a JSON file. An error comes back as its
    /// message; the caller's own style is not touched.
    pub fn import(&self, text: &str) -> (r: Result<StyleModel, String>)
        ensures
            import_view(r) == imported(read_text(text@)),
            r matches Ok(style) ==> style@.valid(),
    {
        match decode(text) {
            Ok(style) => Ok(style),
            Err(error) => Err(error.message()),
        }
    }
}

} // verus!
