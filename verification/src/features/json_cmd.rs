//! The json command: formats and validates JSON through the `serde_json`
//! crate. Reading input from a file is the application shell's business;
//! the command prepares the request and works on content handed to it.

use vstd::prelude::*;

use crate::command_meta::{CommandInfo, CommandResult, Documentation, ExampleDoc, OptionDoc};
use crate::command_parser::parse;
use crate::features::echo::{join_space, recover_boolean_flag};

verus! {

/// The parsed JSON document type of the `serde_json` crate, carried
/// opaquely.
#[verifier::external_type_specification]
#[verifier::external_body]
pub struct ExJsonValue(serde_json::Value);

/// Whether a text is well-formed JSON, as the `serde_json` parser decides
/// it: a function of the text alone.
pub uninterp spec fn json_parses(s: Seq<char>) -> bool;

/// Relies on `serde_json::from_str::<Value>`: a document exactly when the
/// text is well-formed JSON.
#[verifier::external_body]
fn json_from_str(s: &str) -> (r: Option<serde_json::Value>)
    ensures
        (r is Some) == json_parses(s@),
{
    serde_json::from_str::<serde_json::Value>(s).ok()
}

/// Relies on `serde_json::to_string`: the compact rendering of a document;
/// rendering a `Value` cannot fail, so a failure gives the empty string.
#[verifier::external_body]
fn json_to_string(v: &serde_json::Value) -> String {
    serde_json::to_string(v).unwrap_or_default()
}

/// Relies on `serde_json::to_string_pretty`: the indented rendering of a
/// document; a failure gives the empty string.
#[verifier::external_body]
fn json_to_string_pretty(v: &serde_json::Value) -> String {
    serde_json::to_string_pretty(v).unwrap_or_default()
}

/// A prepared json-command request: what to do with which input.
#[derive(Debug)]
pub struct JsonRequest {
    pub from_file: bool,
    pub input: String,
    pub validate: bool,
    pub compact: bool,
}

/// JSON command - formats and validates JSON.
#[derive(Debug)]
pub struct JsonCommand {
    pub info: CommandInfo,
}

impl JsonCommand {
    /// Creates the json command with its metadata and documentation.
    pub fn new() -> (r: JsonCommand)
        ensures
            r.info.name@ == "json"@,
            r.info.category@ == "encoding"@,
            r.info.aliases@.len() == 1,
            r.info.documentation is Some,
    {
        let mut aliases: Vec<String> = Vec::new();
        aliases.push(String::from_str("jq"));
        let info = CommandInfo::new("json", "Formatea y valida JSON").with_category(
            "encoding",
        ).with_aliases(aliases).with_documentation(
            Documentation::new("json [opciones] <json|archivo>").with_long_description(
                "Formatea JSON para mejor legibilidad o valida su estructura. Puede recibir JSON directamente o un archivo.",
            ).with_option(
                OptionDoc::flag("validate", "Solo valida sin formatear").with_short("v"),
            ).with_option(
                OptionDoc::flag("compact", "Salida compacta (sin espacios)").with_short("c"),
            ).with_option(OptionDoc::flag("file", "Lee desde un archivo").with_short("f"))
                .with_example(ExampleDoc::new("json '{\"name\":\"test\"}'", "Formatea el JSON"))
                .with_example(ExampleDoc::new("json -v '{\"invalid'", "Valida el JSON (reporta error)"))
                .with_example(ExampleDoc::new("json -f data.json", "Formatea el contenido del archivo"))
                .with_example(ExampleDoc::new("json -c '{\"a\": 1, \"b\": 2}'", "Compacta el JSON")),
        );
        JsonCommand { info }
    }

    /// The command metadata.
    pub fn info(&self) -> (r: &CommandInfo)
        ensures
            *r == self.info,
    {
        &self.info
    }

    /// Prepares a request from arguments: the joined input text and the
    /// flags; fails exactly when no input text is left.
    pub fn prepare(&self, args: &[String]) -> (r: Result<JsonRequest, CommandResult>)
        ensures
            args@.len() == 0 ==> r is Err,
            r matches Err(e) ==> e is Failure,
    {
        if args.len() == 0 {
            return Err(CommandResult::failure("Se requiere JSON o un archivo"));
        }
        let parsed = parse(args);
        let mut text_parts: Vec<String> = Vec::new();
        let n = parsed.positional.len();
        let mut i: usize = 0;
        while i < n
            invariant
                n == parsed.positional@.len(),
                i <= n,
            decreases n - i,
        {
            text_parts.push(parsed.positional[i].clone());
            i = i + 1;
        }
        let validate = recover_boolean_flag(&parsed, "validate", "v", &mut text_parts);
        let compact = recover_boolean_flag(&parsed, "compact", "c", &mut text_parts);
        let from_file = recover_boolean_flag(&parsed, "file", "f", &mut text_parts);
        if text_parts.len() == 0 {
            return Err(CommandResult::failure("Se requiere JSON o un archivo"));
        }
        let input = join_space(&text_parts);
        Ok(JsonRequest { from_file, input, validate, compact })
    }

    /// Formats or validates JSON content: succeeds exactly when the content
    /// is well-formed JSON, and prints one line on success.
    pub fn run_on_content(&self, content: &str, validate: bool, compact: bool) -> (r: (
        CommandResult,
        Vec<String>,
    ))
        ensures
            (r.0 is Success) == json_parses(content@),
            r.0 is Success ==> r.1@.len() == 1,
    {
        let mut lines: Vec<String> = Vec::new();
        match json_from_str(content) {
            Some(value) => {
                if validate {
                    lines.push(String::from_str("JSON valido"));
                    (CommandResult::success(), lines)
                } else if compact {
                    lines.push(json_to_string(&value));
                    (CommandResult::success(), lines)
                } else {
                    lines.push(json_to_string_pretty(&value));
                    (CommandResult::success(), lines)
                }
            },
            None => {
                if validate {
                    (CommandResult::failure("Validacion fallida"), lines)
                } else {
                    (CommandResult::failure("JSON invalido"), lines)
                }
            },
        }
    }

    /// Runs the command on inline input. A request naming a file is handed
    /// back as a failure here: the application shell reads files through
    /// [`JsonCommand::prepare`] and [`JsonCommand::run_on_content`].
    pub fn run(&self, args: &[String]) -> (r: (CommandResult, Vec<String>))
        ensures
            args@.len() == 0 ==> r.0 is Failure,
    {
        match self.prepare(args) {
            Ok(req) => {
                if req.from_file {
                    (
                        CommandResult::failure("La lectura de archivos corresponde a la consola"),
                        Vec::new(),
                    )
                } else {
                    self.run_on_content(req.input.as_str(), req.validate, req.compact)
                }
            },
            Err(e) => (e, Vec::new()),
        }
    }
}

} // verus!
