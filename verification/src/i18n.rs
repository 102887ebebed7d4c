//! Internationalization: key-based lookups over built-in translation
//! tables, with fallback to the key itself.

use vstd::prelude::*;

use crate::command_parser::{pairs_view, spec_lookup};
use crate::numfmt::spec_digits;
use crate::strutil::{spec_lower, str_eq, str_eq_ignore_case, to_ascii_lower};

verus! {

/// Supported languages.
#[derive(Debug, Clone, Copy, PartialEq, Eq, Structural)]
pub enum Language {
    English,
    Spanish,
}

impl Language {
    /// The language code.
    pub open spec fn spec_code(&self) -> Seq<char> {
        match self {
            Language::English => "en"@,
            Language::Spanish => "es"@,
        }
    }

    pub fn code(&self) -> (r: &'static str)
        ensures
            r@ == self.spec_code(),
    {
        match self {
            Language::English => "en",
            Language::Spanish => "es",
        }
    }

    /// The language a code resolves to, case-insensitively; unknown codes
    /// give English.
    pub open spec fn spec_of_code(w: Seq<char>) -> Language {
        if w == "es"@ || w == "spanish"@ || w == "espanol"@ {
            Language::Spanish
        } else {
            Language::English
        }
    }

    /// Parses a language code into a language.
    pub fn from_code(code: &str) -> (r: Language)
        ensures
            r == Language::spec_of_code(spec_lower(code@)),
    {
        let low = to_ascii_lower(code);
        let w = low.as_str();
        if str_eq(w, "es") || str_eq(w, "spanish") || str_eq(w, "espanol") {
            Language::Spanish
        } else {
            Language::English
        }
    }
}

/// Internationalization service that provides translated strings.
#[derive(Debug)]
pub struct I18nService {
    pub current: Language,
    pub translations: Vec<(String, String)>,
}

impl I18nService {
    /// Creates a new service holding the table of the given language.
    pub fn new(language: Language) -> (r: I18nService)
        ensures
            r.current == language,
    {
        let translations = match language {
            Language::English => english_table(),
            Language::Spanish => spanish_table(),
        };
        I18nService { current: language, translations }
    }

    /// The current language.
    pub fn language(&self) -> (r: Language)
        ensures
            r == self.current,
    {
        self.current
    }

    /// Switches to a different language and reloads the table.
    pub fn set_language(&mut self, language: Language)
        ensures
            final(self).current == language,
    {
        if !language_eq(&self.current, &language) {
            self.current = language;
            self.translations = match language {
                Language::English => english_table(),
                Language::Spanish => spanish_table(),
            };
        }
    }

    /// Translates a key; an unknown key comes back as itself.
    pub fn t(&self, key: &str) -> (r: String)
        ensures
            r@ == match spec_lookup(pairs_view(self.translations@), key@) {
                Some(v) => v,
                None => key@,
            },
    {
        match self.lookup(key) {
            Some(v) => v,
            None => String::from_str(key),
        }
    }

    /// Translates a key and replaces `{0}`, `{1}`, ... with the arguments.
    pub fn t_args(&self, key: &str, args: &[&str]) -> (r: String) {
        let mut result = self.t(key);
        let n = args.len();
        let mut i: usize = 0;
        while i < n
            invariant
                n == args@.len(),
                i <= n,
                i <= 9,
            decreases n - i,
        {
            if i >= 9 {
                // Placeholders carry one digit.
                return result;
            }
            result = replace_placeholder(result.as_str(), i as u8, args[i]);
            i = i + 1;
        }
        result
    }

    /// The full translation table.
    pub fn translations(&self) -> (r: &Vec<(String, String)>)
        ensures
            r@ == self.translations@,
    {
        &self.translations
    }

    /// Looks a key up in the table.
    fn lookup(&self, key: &str) -> (r: Option<String>)
        ensures
            match r {
                Some(v) => spec_lookup(pairs_view(self.translations@), key@) == Some(v@),
                None => spec_lookup(pairs_view(self.translations@), key@) is None,
            },
    {
        let n = self.translations.len();
        proof {
            assert(pairs_view(self.translations@).take(n as int) =~= pairs_view(
                self.translations@,
            ));
        }
        let mut i: usize = n;
        while i > 0
            invariant
                n == self.translations@.len(),
                i <= n,
                spec_lookup(pairs_view(self.translations@), key@) == spec_lookup(
                    pairs_view(self.translations@).take(i as int),
                    key@,
                ),
            decreases i,
        {
            proof {
                assert(pairs_view(self.translations@).take(i as int).last() == (
                    self.translations@[i - 1].0@,
                    self.translations@[i - 1].1@,
                ));
                assert(pairs_view(self.translations@).take(i as int).drop_last() =~= pairs_view(
                    self.translations@,
                ).take(i - 1 as int));
            }
            if str_eq(self.translations[i - 1].0.as_str(), key) {
                return Some(self.translations[i - 1].1.clone());
            }
            i = i - 1;
        }
        proof {
            assert(pairs_view(self.translations@).take(0) =~= Seq::<(Seq<char>, Seq<char>)>::empty());
        }
        None
    }
}

/// Compares two languages.
fn language_eq(a: &Language, b: &Language) -> (r: bool)
    ensures
        r == (a == b),
{
    match (a, b) {
        (Language::English, Language::English) => true,
        (Language::Spanish, Language::Spanish) => true,
        _ => false,
    }
}

/// Replaces every occurrence of the placeholder `{k}` with the argument.
fn replace_placeholder(s: &str, k: u8, arg: &str) -> (r: String)
    requires
        k < 10,
{
    let n = s.unicode_len();
    let mut out = String::new();
    let digit = (48 + k) as u8 as char;
    let mut i: usize = 0;
    while i < n
        invariant
            n == s@.len(),
            i <= n,
        decreases n - i,
    {
        if n - i > 2 && s.get_char(i) == '{' && s.get_char(i + 1) == digit && s.get_char(i + 2)
            == '}' {
            out.append(arg);
            i = i + 3;
        } else {
            out.push(s.get_char(i));
            i = i + 1;
        }
    }
    out
}

/// The built-in English table.
fn english_table() -> (r: Vec<(String, String)>) {
    let mut t: Vec<(String, String)> = Vec::new();
    t.push((String::from_str("app.title"), String::from_str("HEFESTO Desktop")));
    t.push((String::from_str("sidebar.dashboard"), String::from_str("Dashboard")));
    t.push((String::from_str("sidebar.network"), String::from_str("Network Explorer")));
    t.push((String::from_str("sidebar.processes"), String::from_str("Process Explorer")));
    t.push((String::from_str("sidebar.monitor"), String::from_str("Process Monitor")));
    t.push((String::from_str("sidebar.tools"), String::from_str("Tools")));
    t.push((String::from_str("sidebar.preferences"), String::from_str("Preferences")));
    t.push((String::from_str("common.refresh"), String::from_str("Refresh")));
    t.push((String::from_str("common.search"), String::from_str("Search")));
    t.push((String::from_str("common.cancel"), String::from_str("Cancel")));
    t.push((String::from_str("common.confirm"), String::from_str("Confirm")));
    t.push((
        String::from_str("portinfo.kill.confirm"),
        String::from_str("Kill process {0} on port {1}?"),
    ));
    t
}

/// The built-in Spanish table.
fn spanish_table() -> (r: Vec<(String, String)>) {
    let mut t: Vec<(String, String)> = Vec::new();
    t.push((String::from_str("app.title"), String::from_str("HEFESTO Escritorio")));
    t.push((String::from_str("sidebar.dashboard"), String::from_str("Tablero")));
    t.push((String::from_str("sidebar.network"), String::from_str("Explorador de red")));
    t.push((String::from_str("sidebar.processes"), String::from_str("Explorador de procesos")));
    t.push((String::from_str("sidebar.monitor"), String::from_str("Monitor de procesos")));
    t.push((String::from_str("sidebar.tools"), String::from_str("Herramientas")));
    t.push((String::from_str("sidebar.preferences"), String::from_str("Preferencias")));
    t.push((String::from_str("common.refresh"), String::from_str("Actualizar")));
    t.push((String::from_str("common.search"), String::from_str("Buscar")));
    t.push((String::from_str("common.cancel"), String::from_str("Cancelar")));
    t.push((String::from_str("common.confirm"), String::from_str("Confirmar")));
    t.push((
        String::from_str("portinfo.kill.confirm"),
        String::from_str("Terminar proceso {0} en el puerto {1}?"),
    ));
    t
}

} // verus!
