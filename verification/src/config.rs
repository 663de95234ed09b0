//! Options of the command-line consumers of this library.
//!
//! A command-line caller can name each setting on the command line or in
//! a configuration file (whose entries the caller also fills from its
//! environment before handing them here). Merging is the library's rule:
//! a value given on the command line wins; an absent one falls back to
//! the configuration file's entry.

use vstd::prelude::*;

use core::str::FromStr;

verus! {

/// How a command-line consumer formats its output.
#[derive(Clone, Copy, Debug, PartialEq, Eq, Structural)]
pub enum OutputMode {
    /// Output human-readable text.
    Text,
    /// Output machine-readable JSON.
    Json,
}

impl OutputMode {
    /// Parse an output mode: exactly `"text"` and `"json"` are accepted;
    /// every other string gets the fixed error message. Total, and never
    /// panics.
    pub fn parse(s: &str) -> (r: Result<OutputMode, &'static str>)
        ensures
            s@ == "text"@ ==> r == Ok::<OutputMode, &'static str>(OutputMode::Text),
            s@ == "json"@ ==> r == Ok::<OutputMode, &'static str>(OutputMode::Json),
            s@ != "text"@ && s@ != "json"@ ==> (r matches Err(m) && m@
                == "Invalid output mode, expected 'text' or 'json'."@),
    {
        proof {
            reveal_strlit("text");
            reveal_strlit("json");
            assert("text"@[0] == 't');
            assert("json"@[0] == 'j');
            assert("text"@ != "json"@);
        }
        if s.to_owned() == "text".to_owned() {
            Ok(OutputMode::Text)
        } else if s.to_owned() == "json".to_owned() {
            Ok(OutputMode::Json)
        } else {
            Err("Invalid output mode, expected 'text' or 'json'.")
        }
    }
}

impl FromStr for OutputMode {
    type Err = &'static str;

    fn from_str(s: &str) -> Result<OutputMode, &'static str> {
        OutputMode::parse(s)
    }
}

/// The settings a configuration file can provide.
pub struct ConfigFile {
    pub solido_program_id: Option<String>,
    pub solido_address: Option<String>,
    pub anker_program_id: Option<String>,
    pub anker_address: Option<String>,
}

/// A command-line value falls back to the configuration file's entry
/// when absent.
pub open spec fn spec_merge_option(cli: Option<String>, config: Option<String>) -> Option<
    String,
> {
    if cli is Some {
        cli
    } else {
        config
    }
}

fn merge_option(opt: &mut Option<String>, default: &Option<String>)
    ensures
        *final(opt) == spec_merge_option(*old(opt), *default),
{
    if opt.is_none() {
        match default {
            Some(v) => {
                *opt = Some(v.clone());
            },
            None => {
                *opt = None;
            },
        }
    }
}

/// Options of the command that creates a satellite instance over a
/// deployed core instance.
pub struct CreateAnkerOpts {
    pub solido_program_id: Option<String>,
    pub solido_address: Option<String>,
    pub anker_program_id: Option<String>,
}

impl CreateAnkerOpts {
    /// These options with every absent value taken from the
    /// configuration file.
    pub open spec fn spec_merged(self, config_file: Option<&ConfigFile>) -> CreateAnkerOpts {
        match config_file {
            None => self,
            Some(c) => CreateAnkerOpts {
                solido_program_id: spec_merge_option(self.solido_program_id, c.solido_program_id),
                solido_address: spec_merge_option(self.solido_address, c.solido_address),
                anker_program_id: spec_merge_option(self.anker_program_id, c.anker_program_id),
            },
        }
    }

    /// Fill every absent option from the configuration file; a value
    /// given on the command line wins.
    pub fn merge_with_config_and_environment(&mut self, config_file: Option<&ConfigFile>)
        ensures
            *final(self) == old(self).spec_merged(config_file),
    {
        match config_file {
            Some(c) => {
                merge_option(&mut self.solido_program_id, &c.solido_program_id);
                merge_option(&mut self.solido_address, &c.solido_address);
                merge_option(&mut self.anker_program_id, &c.anker_program_id);
            },
            None => {},
        }
    }
}

/// Options of the command that displays a satellite instance.
pub struct ShowAnkerOpts {
    pub anker_program_id: Option<String>,
    pub anker_address: Option<String>,
}

impl ShowAnkerOpts {
    /// These options with every absent value taken from the
    /// configuration file.
    pub open spec fn spec_merged(self, config_file: Option<&ConfigFile>) -> ShowAnkerOpts {
        match config_file {
            None => self,
            Some(c) => ShowAnkerOpts {
                anker_program_id: spec_merge_option(self.anker_program_id, c.anker_program_id),
                anker_address: spec_merge_option(self.anker_address, c.anker_address),
            },
        }
    }

    /// Fill every absent option from the configuration file; a value
    /// given on the command line wins.
    pub fn merge_with_config_and_environment(&mut self, config_file: Option<&ConfigFile>)
        ensures
            *final(self) == old(self).spec_merged(config_file),
    {
        match config_file {
            Some(c) => {
                merge_option(&mut self.anker_program_id, &c.anker_program_id);
                merge_option(&mut self.anker_address, &c.anker_address);
            },
            None => {},
        }
    }
}

/// The satellite subcommands.
pub enum AnkerSubCommand {
    /// Create a new satellite instance.
    Create(CreateAnkerOpts),
    /// Display the details of a satellite instance.
    Show(ShowAnkerOpts),
}

/// Options of the satellite command group.
pub struct AnkerOpts {
    pub subcommand: AnkerSubCommand,
}

impl AnkerOpts {
    /// Fill every absent option of the chosen subcommand from the
    /// configuration file; a value given on the command line wins.
    pub fn merge_with_config_and_environment(&mut self, config_file: Option<&ConfigFile>)
        ensures
            match old(self).subcommand {
                AnkerSubCommand::Create(o) => final(self).subcommand matches AnkerSubCommand::Create(m)
                    && m == o.spec_merged(config_file),
                AnkerSubCommand::Show(o) => final(self).subcommand matches AnkerSubCommand::Show(m)
                    && m == o.spec_merged(config_file),
            },
    {
        match &mut self.subcommand {
            AnkerSubCommand::Create(opts) => opts.merge_with_config_and_environment(config_file),
            AnkerSubCommand::Show(opts) => opts.merge_with_config_and_environment(config_file),
        }
    }
}

} // verus!
