//! Metadata describing commands: names, aliases, documentation, and the
//! outcome of one execution.

use vstd::prelude::*;

use crate::strutil::{spec_lower, str_eq_ignore_case};

verus! {

/// Documentation for a command option or flag.
#[derive(Debug)]
pub struct OptionDoc {
    pub name: String,
    pub short: Option<String>,
    pub description: String,
    pub has_value: bool,
}

impl OptionDoc {
    /// A boolean flag without a value.
    pub fn flag(name: &str, description: &str) -> (r: OptionDoc)
        ensures
            r.name@ == name@,
            r.short is None,
            r.description@ == description@,
            r.has_value == false,
    {
        OptionDoc {
            name: String::from_str(name),
            short: None,
            description: String::from_str(description),
            has_value: false,
        }
    }

    /// An option that takes a value.
    pub fn with_value(name: &str, description: &str) -> (r: OptionDoc)
        ensures
            r.name@ == name@,
            r.short is None,
            r.description@ == description@,
            r.has_value == true,
    {
        OptionDoc {
            name: String::from_str(name),
            short: None,
            description: String::from_str(description),
            has_value: true,
        }
    }

    /// Adds a short form.
    pub fn with_short(self, short: &str) -> (r: OptionDoc)
        ensures
            r.name@ == self.name@,
            r.short matches Some(s) && s@ == short@,
            r.description@ == self.description@,
            r.has_value == self.has_value,
    {
        OptionDoc { short: Some(String::from_str(short)), ..self }
    }
}

/// Example usage for a command.
#[derive(Debug)]
pub struct ExampleDoc {
    pub command: String,
    pub description: String,
}

impl ExampleDoc {
    pub fn new(command: &str, description: &str) -> (r: ExampleDoc)
        ensures
            r.command@ == command@,
            r.description@ == description@,
    {
        ExampleDoc { command: String::from_str(command), description: String::from_str(description) }
    }
}

/// Documentation for a command.
#[derive(Debug)]
pub struct Documentation {
    pub usage: String,
    pub long_description: String,
    pub options: Vec<OptionDoc>,
    pub examples: Vec<ExampleDoc>,
}

impl Documentation {
    /// Documentation holding only a usage line.
    pub fn new(usage: &str) -> (r: Documentation)
        ensures
            r.usage@ == usage@,
            r.long_description@ == Seq::<char>::empty(),
            r.options@.len() == 0,
            r.examples@.len() == 0,
    {
        Documentation {
            usage: String::from_str(usage),
            long_description: String::new(),
            options: Vec::new(),
            examples: Vec::new(),
        }
    }

    /// Replaces the long description.
    pub fn with_long_description(self, desc: &str) -> (r: Documentation)
        ensures
            r.usage@ == self.usage@,
            r.long_description@ == desc@,
            r.options@ == self.options@,
            r.examples@ == self.examples@,
    {
        Documentation { long_description: String::from_str(desc), ..self }
    }

    /// Appends an option.
    pub fn with_option(self, opt: OptionDoc) -> (r: Documentation)
        ensures
            r.usage@ == self.usage@,
            r.long_description@ == self.long_description@,
            r.options@ == self.options@.push(opt),
            r.examples@ == self.examples@,
    {
        let mut options = self.options;
        options.push(opt);
        Documentation { options, ..self }
    }

    /// Appends an example.
    pub fn with_example(self, example: ExampleDoc) -> (r: Documentation)
        ensures
            r.usage@ == self.usage@,
            r.long_description@ == self.long_description@,
            r.options@ == self.options@,
            r.examples@ == self.examples@.push(example),
    {
        let mut examples = self.examples;
        examples.push(example);
        Documentation { examples, ..self }
    }
}

/// Metadata for a command.
#[derive(Debug)]
pub struct CommandInfo {
    pub name: String,
    pub description: String,
    pub category: String,
    pub aliases: Vec<String>,
    pub documentation: Option<Documentation>,
}

impl CommandInfo {
    /// Metadata with the default `general` category and no aliases.
    pub fn new(name: &str, description: &str) -> (r: CommandInfo)
        ensures
            r.name@ == name@,
            r.description@ == description@,
            r.category@ == "general"@,
            r.aliases@.len() == 0,
            r.documentation is None,
    {
        CommandInfo {
            name: String::from_str(name),
            description: String::from_str(description),
            category: String::from_str("general"),
            aliases: Vec::new(),
            documentation: None,
        }
    }

    /// Replaces the category.
    pub fn with_category(self, category: &str) -> (r: CommandInfo)
        ensures
            r.name@ == self.name@,
            r.description@ == self.description@,
            r.category@ == category@,
            r.aliases@ == self.aliases@,
            r.documentation == self.documentation,
    {
        CommandInfo { category: String::from_str(category), ..self }
    }

    /// Replaces the aliases.
    pub fn with_aliases(self, aliases: Vec<String>) -> (r: CommandInfo)
        ensures
            r.name@ == self.name@,
            r.description@ == self.description@,
            r.category@ == self.category@,
            r.aliases@ == aliases@,
            r.documentation == self.documentation,
    {
        CommandInfo { aliases, ..self }
    }

    /// Attaches documentation.
    pub fn with_documentation(self, docs: Documentation) -> (r: CommandInfo)
        ensures
            r.name@ == self.name@,
            r.description@ == self.description@,
            r.category@ == self.category@,
            r.aliases@ == self.aliases@,
            r.documentation matches Some(d) && d == docs,
    {
        CommandInfo { documentation: Some(docs), ..self }
    }

    /// Whether this command answers to a name: its own name or any alias,
    /// compared ignoring ASCII case.
    pub open spec fn spec_matches(&self, command_name: Seq<char>) -> bool {
        spec_lower(self.name@) == spec_lower(command_name) || exists|i: int|
            0 <= i < self.aliases@.len() && spec_lower(#[trigger] self.aliases@[i]@) == spec_lower(
                command_name,
            )
    }

    /// Checks if this command matches the given name or alias.
    pub fn matches(&self, command_name: &str) -> (r: bool)
        ensures
            r == self.spec_matches(command_name@),
    {
        if str_eq_ignore_case(self.name.as_str(), command_name) {
            return true;
        }
        let n = self.aliases.len();
        let mut i: usize = 0;
        while i < n
            invariant
                n == self.aliases@.len(),
                i <= n,
                forall|j: int|
                    0 <= j < i ==> spec_lower(#[trigger] self.aliases@[j]@) != spec_lower(
                        command_name@,
                    ),
            decreases n - i,
        {
            if str_eq_ignore_case(self.aliases[i].as_str(), command_name) {
                return true;
            }
            i = i + 1;
        }
        false
    }
}

/// Result of a command execution.
#[derive(Debug)]
pub enum CommandResult {
    /// Successful execution.
    Success(String),
    /// Failed execution with error.
    Failure { error: String, cause: Option<String> },
    /// Request to exit the application.
    Exit(i32),
    /// Continue execution (for menu navigation).
    Continue,
}

impl CommandResult {
    /// Success carrying no message.
    pub fn success() -> (r: CommandResult)
        ensures
            r matches CommandResult::Success(m) && m@ == Seq::<char>::empty(),
    {
        CommandResult::Success(String::new())
    }

    /// Success carrying a message.
    pub fn success_msg(message: &str) -> (r: CommandResult)
        ensures
            r matches CommandResult::Success(m) && m@ == message@,
    {
        CommandResult::Success(String::from_str(message))
    }

    /// Failure without a recorded cause.
    pub fn failure(error: &str) -> (r: CommandResult)
        ensures
            r matches CommandResult::Failure { error: e, cause } && e@ == error@ && cause is None,
    {
        CommandResult::Failure { error: String::from_str(error), cause: None }
    }

    /// Failure with a recorded cause.
    pub fn failure_with_cause(error: &str, cause: &str) -> (r: CommandResult)
        ensures
            r matches CommandResult::Failure { error: e, cause: c } && e@ == error@ && (c matches
            Some(cs) && cs@ == cause@),
    {
        CommandResult::Failure {
            error: String::from_str(error),
            cause: Some(String::from_str(cause)),
        }
    }

    /// Exit with status 0.
    pub fn exit() -> (r: CommandResult)
        ensures
            r == CommandResult::Exit(0i32),
    {
        CommandResult::Exit(0)
    }

    /// Exit with the given status.
    pub fn exit_with_code(code: i32) -> (r: CommandResult)
        ensures
            r == CommandResult::Exit(code),
    {
        CommandResult::Exit(code)
    }

    /// Continue execution.
    pub fn cont() -> (r: CommandResult)
        ensures
            r is Continue,
    {
        CommandResult::Continue
    }
}

} // verus!
