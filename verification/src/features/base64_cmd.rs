//! The base64 command: encodes and decodes text through the `base64` crate.

use vstd::prelude::*;

use crate::command_meta::{CommandInfo, CommandResult, Documentation, ExampleDoc, OptionDoc};
use crate::command_parser::{pairs_view, parse};
use crate::features::echo::{join_space, recover_boolean_flag, spec_recover_flag};
use crate::strutil::{spec_trim, str_trim};
use base64::Engine;
use vstd::string::*;

verus! {

/// The standard-alphabet encoding of a byte sequence.
pub uninterp spec fn b64_standard_of(b: Seq<u8>) -> Seq<char>;

/// The URL-safe-alphabet encoding of a byte sequence.
pub uninterp spec fn b64_url_of(b: Seq<u8>) -> Seq<char>;

/// What the standard-alphabet decoder returns for a text: the decoded bytes,
/// or nothing for text that is not valid base64.
pub uninterp spec fn b64_standard_decode(s: Seq<char>) -> Option<Seq<u8>>;

/// What the URL-safe-alphabet decoder returns for a text.
pub uninterp spec fn b64_url_decode(s: Seq<char>) -> Option<Seq<u8>>;

/// Relies on `base64::engine::general_purpose::STANDARD.encode`: the
/// standard-alphabet, padded encoding of the input bytes, a function of the
/// bytes alone; empty input encodes to the empty string.
#[verifier::external_body]
fn b64_encode_standard(b: &[u8]) -> (r: String)
    ensures
        r@ == b64_standard_of(b@),
        b@.len() == 0 ==> r@.len() == 0,
{
    base64::engine::general_purpose::STANDARD.encode(b)
}

/// Relies on `base64::engine::general_purpose::URL_SAFE.encode`: the
/// URL-safe-alphabet encoding of the input bytes, a function of the bytes
/// alone.
#[verifier::external_body]
fn b64_encode_url(b: &[u8]) -> (r: String)
    ensures
        r@ == b64_url_of(b@),
        b@.len() == 0 ==> r@.len() == 0,
{
    base64::engine::general_purpose::URL_SAFE.encode(b)
}

/// Relies on `base64::engine::general_purpose::STANDARD.decode`: the bytes
/// the text encodes, or an error for text outside the base64 alphabet; the
/// outcome is a function of the text alone, carried here as an option.
#[verifier::external_body]
fn b64_decode_standard(s: &str) -> (r: Option<Vec<u8>>)
    ensures
        match r {
            Some(v) => b64_standard_decode(s@) == Some(v@),
            None => b64_standard_decode(s@) is None,
        },
{
    base64::engine::general_purpose::STANDARD.decode(s).ok()
}

/// Relies on `base64::engine::general_purpose::URL_SAFE.decode`: as the
/// standard decoder, over the URL-safe alphabet.
#[verifier::external_body]
fn b64_decode_url(s: &str) -> (r: Option<Vec<u8>>)
    ensures
        match r {
            Some(v) => b64_url_decode(s@) == Some(v@),
            None => b64_url_decode(s@) is None,
        },
{
    base64::engine::general_purpose::URL_SAFE.decode(s).ok()
}

/// What decoding bytes as UTF-8 yields: the characters they encode, or
/// nothing where they are not valid UTF-8; a function of the bytes alone.
pub uninterp spec fn utf8_of(b: Seq<u8>) -> Option<Seq<char>>;

/// Relies on `String::from_utf8`: the string whose UTF-8 bytes are the
/// input, or nothing where the bytes are not valid UTF-8.
#[verifier::external_body]
fn string_from_utf8(b: Vec<u8>) -> (r: Option<String>)
    ensures
        match r {
            Some(v) => utf8_of(b@) == Some(v@),
            None => utf8_of(b@) is None,
        },
{
    String::from_utf8(b).ok()
}

/// Base64 command - encodes and decodes Base64 strings.
#[derive(Debug)]
pub struct Base64Command {
    pub info: CommandInfo,
}

impl Base64Command {
    /// Creates the base64 command with its metadata and documentation.
    pub fn new() -> (r: Base64Command)
        ensures
            r.info.name@ == "base64"@,
            r.info.category@ == "encoding"@,
            r.info.aliases@.len() == 1,
            r.info.documentation is Some,
    {
        let mut aliases: Vec<String> = Vec::new();
        aliases.push(String::from_str("b64"));
        let info = CommandInfo::new("base64", "Codifica/decodifica texto en Base64")
            .with_category("encoding").with_aliases(aliases).with_documentation(
            Documentation::new("base64 [opciones] <texto>").with_long_description(
                "Codifica texto a Base64 o decodifica texto desde Base64. Por defecto codifica. Use --decode para decodificar.",
            ).with_option(
                OptionDoc::flag("decode", "Decodifica en lugar de codificar").with_short("d"),
            ).with_option(OptionDoc::flag("url", "Usa codificacion URL-safe")).with_example(
                ExampleDoc::new("base64 'Hola Mundo'", "Codifica 'Hola Mundo' a Base64"),
            ).with_example(
                ExampleDoc::new("base64 -d 'SG9sYSBNdW5kbw=='", "Decodifica el texto Base64"),
            ).with_example(
                ExampleDoc::new("base64 --url 'test+data'", "Codifica con caracteres URL-safe"),
            ),
        );
        Base64Command { info }
    }

    /// The command metadata.
    pub fn info(&self) -> (r: &CommandInfo)
        ensures
            *r == self.info,
    {
        &self.info
    }

    /// Decodes base64 text in the chosen alphabet: succeeds exactly when
    /// the trimmed text is valid base64 whose bytes are valid UTF-8, and
    /// then prints exactly that decoding.
    pub fn decode_text(&self, text: &str, url_safe: bool) -> (r: (CommandResult, Vec<String>))
        ensures
            ({
                let decoded = if url_safe {
                    b64_url_decode(spec_trim(text@))
                } else {
                    b64_standard_decode(spec_trim(text@))
                };
                match decoded {
                    Some(bytes) => match utf8_of(bytes) {
                        Some(chars) => r.0 is Success && r.1@.len() == 1 && r.1@[0]@ == chars,
                        None => r.0 is Failure,
                    },
                    None => r.0 is Failure,
                }
            }),
    {
        let mut lines: Vec<String> = Vec::new();
        let trimmed = str_trim(text);
        let decoded = if url_safe {
            b64_decode_url(trimmed.as_str())
        } else {
            b64_decode_standard(trimmed.as_str())
        };
        match decoded {
            Some(bytes) => match string_from_utf8(bytes) {
                Some(result) => {
                    lines.push(result);
                    (CommandResult::success(), lines)
                },
                None => (CommandResult::failure("Texto decodificado no es UTF-8 valido"), lines),
            },
            None => (CommandResult::failure("Texto Base64 invalido"), lines),
        }
    }

    /// Runs the command over parsed arguments, returning the result and the
    /// lines to print. Without text the command fails; encoding always
    /// succeeds with one line; decoding goes through
    /// [`Base64Command::decode_text`], succeeding exactly when the trimmed
    /// text is valid base64 in the chosen alphabet and decodes to UTF-8.
    pub fn run(&self, args: &[String]) -> (r: (CommandResult, Vec<String>))
        ensures
            args@.len() == 0 ==> r.0 is Failure,
            r.0 is Success ==> r.1@.len() == 1,
    {
        let mut lines: Vec<String> = Vec::new();
        if args.len() == 0 {
            return (
                CommandResult::failure("Se requiere texto para codificar/decodificar"),
                lines,
            );
        }
        let parsed = parse(args);
        let mut text_parts: Vec<String> = Vec::new();
        let n = parsed.positional.len();
        let mut i: usize = 0;
        while i < n
            invariant
                n == parsed.positional@.len(),
                i <= n,
            decreases n - i,
        {
            text_parts.push(parsed.positional[i].clone());
            i = i + 1;
        }
        let decode = recover_boolean_flag(&parsed, "decode", "d", &mut text_parts);
        let url_safe = recover_boolean_flag(&parsed, "url", "", &mut text_parts);
        if text_parts.len() == 0 {
            return (
                CommandResult::failure("Se requiere texto para codificar/decodificar"),
                lines,
            );
        }
        let text = join_space(&text_parts);
        if decode {
            self.decode_text(text.as_str(), url_safe)
        } else {
            let bytes = text.as_str().as_bytes_vec();
            let encoded = if url_safe {
                b64_encode_url(bytes.as_slice())
            } else {
                b64_encode_standard(bytes.as_slice())
            };
            lines.push(encoded);
            (CommandResult::success(), lines)
        }
    }
}

} // verus!
