//! What can go wrong with the configuration file.

use vstd::prelude::*;

verus! {

/// One of the three fields of the configuration.
#[derive(Clone, Copy, Debug, PartialEq, Eq, Structural)]
pub enum Field {
    RpcUrl,
    CommitmentLevel,
    KeypairPath,
}

impl Field {
    /// The key under which the field stands in the configuration file.
    pub open spec fn key(self) -> Seq<char> {
        match self {
            Field::RpcUrl => "rpc-url"@,
            Field::CommitmentLevel => "commitment-level"@,
            Field::KeypairPath => "keypair-path"@,
        }
    }

    /// The key under which the field stands in the configuration file.
    pub fn name(self) -> (key: &'static str)
        ensures
            key@ == self.key(),
    {
        match self {
            Field::RpcUrl => "rpc-url",
            Field::CommitmentLevel => "commitment-level",
            Field::KeypairPath => "keypair-path",
        }
    }

    /// No two fields share a key.
    pub proof fn lemma_keys_differ(self, other: Field)
        ensures
            self.key() == other.key() <==> self == other,
    {
        reveal_strlit("rpc-url");
        reveal_strlit("commitment-level");
        reveal_strlit("keypair-path");
        assert("rpc-url"@.len() == 7);
        assert("commitment-level"@.len() == 16);
        assert("keypair-path"@.len() == 12);
    }
}

/// Why a text is not a configuration.
#[derive(Debug, PartialEq, Eq)]
pub enum ParseFault {
    /// The text is not a TOML document; the parser's own words are kept.
    Syntax(String),
    /// The document has no entry for the field.
    MissingField(Field),
    /// The field's value is not a string.
    WrongType(Field),
    /// The commitment level is none of the known tags; the tag found is kept.
    UnknownCommitment(String),
}

/// A `ParseFault` as contracts speak of it: the parser's words left out.
pub enum Fault {
    Syntax,
    MissingField(Field),
    WrongType(Field),
    UnknownCommitment(Seq<char>),
}

impl View for ParseFault {
    type V = Fault;

    open spec fn view(&self) -> Fault {
        match *self {
            ParseFault::Syntax(_) => Fault::Syntax,
            ParseFault::MissingField(field) => Fault::MissingField(field),
            ParseFault::WrongType(field) => Fault::WrongType(field),
            ParseFault::UnknownCommitment(tag) => Fault::UnknownCommitment(tag@),
        }
    }
}

/// Why a configuration could not be loaded or saved.
#[derive(Debug, PartialEq, Eq)]
pub enum ConfigError {
    /// There is no file at the configuration path.
    PathDoesNotExist,
    /// The filesystem, or the start of a program, failed; the host's message
    /// is kept.
    Io(String),
    /// The file is there, but what it holds is not a configuration.
    Parse(ParseFault),
    /// The configuration could not be written as TOML; the writer's own words
    /// are kept.
    Serialize(String),
}

/// A `ConfigError` as contracts speak of it.
pub enum ErrorView {
    PathDoesNotExist,
    Io(Seq<char>),
    Parse(Fault),
    Serialize,
}

impl View for ConfigError {
    type V = ErrorView;

    open spec fn view(&self) -> ErrorView {
        match *self {
            ConfigError::PathDoesNotExist => ErrorView::PathDoesNotExist,
            ConfigError::Io(message) => ErrorView::Io(message@),
            ConfigError::Parse(fault) => ErrorView::Parse(fault@),
            ConfigError::Serialize(_) => ErrorView::Serialize,
        }
    }
}

} // verus!
