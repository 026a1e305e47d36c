//! The configuration record: its defaults, how it is read from a TOML table
//! and written to one, and what loading and saving come to.

use crate::document::{
    all_text, entry_of, parse_table, parsed_document, pretty_document, table_entries, table_get,
    table_insert_text, table_new, table_to_pretty, Lookup,
};
use crate::error::{ConfigError, ErrorView, Fault, Field, ParseFault};
use crate::level::{level_from_tag, level_to_tag, CommitmentLevel};
use crate::path::{
    config_dir, config_path, default_keypair_path, join, scilla_config_dir, scilla_config_path,
    DEFAULT_KEYPAIR_RELATIVE_PATH,
};
use vstd::prelude::*;
use vstd::string::*;

verus! {

/// The endpoint that a fresh configuration points at.
pub const DEFAULT_RPC_URL: &'static str = "https://api.mainnet-beta.solana.com";

/// The persisted configuration.
#[derive(Debug, PartialEq, Eq)]
pub struct ScillaConfig {
    /// The endpoint that the tool talks to.
    pub rpc_url: String,
    /// How settled a slot must be before the tool trusts it.
    pub commitment_level: CommitmentLevel,
    /// Where the keypair file lies.
    pub keypair_path: String,
}

/// A configuration as contracts speak of it.
pub struct ConfigView {
    pub rpc_url: Seq<char>,
    pub commitment_level: CommitmentLevel,
    pub keypair_path: Seq<char>,
}

impl View for ScillaConfig {
    type V = ConfigView;

    open spec fn view(&self) -> ConfigView {
        ConfigView {
            rpc_url: self.rpc_url@,
            commitment_level: self.commitment_level,
            keypair_path: self.keypair_path@,
        }
    }
}

/// What the host found at the configuration path.
#[derive(Debug, PartialEq, Eq)]
pub enum ConfigFile {
    /// No file is there.
    Absent,
    /// A file is there but could not be read; the host's message is kept.
    Unreadable(String),
    /// A file is there, with this text.
    Present(String),
}

/// What saving a configuration asks of the host: make sure that `directory`
/// and all its ancestors exist, then write `contents` to `path`, in place of
/// whatever was there.
#[derive(Debug, PartialEq, Eq)]
pub struct SavePlan {
    pub directory: String,
    pub path: String,
    pub contents: String,
}

/// A `SavePlan` as contracts speak of it.
pub struct SavePlanView {
    pub directory: Seq<char>,
    pub path: Seq<char>,
    pub contents: Seq<char>,
}

impl View for SavePlan {
    type V = SavePlanView;

    open spec fn view(&self) -> SavePlanView {
        SavePlanView { directory: self.directory@, path: self.path@, contents: self.contents@ }
    }
}

impl ConfigView {
    /// The entries of the table that holds this configuration, in the order
    /// in which they are written.
    pub open spec fn entries(self) -> Seq<(Seq<char>, Option<Seq<char>>)> {
        Seq::<(Seq<char>, Option<Seq<char>>)>::empty().push(
            (Field::RpcUrl.key(), Some(self.rpc_url)),
        ).push((Field::CommitmentLevel.key(), Some(self.commitment_level.tag()))).push(
            (Field::KeypairPath.key(), Some(self.keypair_path)),
        )
    }

    /// The configuration that a fresh installation starts with.
    pub open spec fn fresh(home: Seq<char>) -> ConfigView {
        ConfigView {
            rpc_url: DEFAULT_RPC_URL@,
            commitment_level: CommitmentLevel::Confirmed,
            keypair_path: default_keypair_path(home),
        }
    }
}

/// The text of a field in a table: the field must be there and be a string.
pub open spec fn text_of(entries: Seq<(Seq<char>, Option<Seq<char>>)>, field: Field) -> Result<
    Seq<char>,
    Fault,
> {
    match entry_of(entries, field.key()) {
        None => Err(Fault::MissingField(field)),
        Some(None) => Err(Fault::WrongType(field)),
        Some(Some(text)) => Ok(text),
    }
}

/// The configuration that a table's entries hold. The fields are looked at in
/// the order `rpc-url`, `commitment-level`, `keypair-path`, and the first one
/// that is missing, is no string or (for the level) is no known tag decides
/// the fault. Entries under other keys are passed over.
pub open spec fn decoded(entries: Seq<(Seq<char>, Option<Seq<char>>)>) -> Result<
    ConfigView,
    Fault,
> {
    match text_of(entries, Field::RpcUrl) {
        Err(fault) => Err(fault),
        Ok(rpc_url) => match text_of(entries, Field::CommitmentLevel) {
            Err(fault) => Err(fault),
            Ok(tag) => match CommitmentLevel::of_tag(tag) {
                None => Err(Fault::UnknownCommitment(tag)),
                Some(commitment_level) => match text_of(entries, Field::KeypairPath) {
                    Err(fault) => Err(fault),
                    Ok(keypair_path) => Ok(ConfigView { rpc_url, commitment_level, keypair_path }),
                },
            },
        },
    }
}

/// Whether a decoding's result is the one the contract names.
pub open spec fn decoding_is(
    got: Result<ScillaConfig, ParseFault>,
    want: Result<ConfigView, Fault>,
) -> bool {
    match want {
        Ok(config) => got matches Ok(c) && c@ == config,
        Err(fault) => got matches Err(e) && e@ == fault,
    }
}

/// The configuration that a text holds: the text must be a TOML document,
/// and the document's entries must hold a configuration.
pub open spec fn read(text: Seq<char>) -> Result<ConfigView, Fault> {
    match parsed_document(text) {
        None => Err(Fault::Syntax),
        Some(entries) => decoded(entries),
    }
}

/// What loading comes to, given what the host found: no file is
/// `PathDoesNotExist`, an unreadable one is `Io` with the host's message, a
/// text that is no TOML document or holds no configuration is `Parse`, and
/// any other text is the configuration it holds.
pub open spec fn loaded(file: ConfigFile) -> Result<ConfigView, ErrorView> {
    match file {
        ConfigFile::Absent => Err(ErrorView::PathDoesNotExist),
        ConfigFile::Unreadable(message) => Err(ErrorView::Io(message@)),
        ConfigFile::Present(text) => match read(text@) {
            Ok(config) => Ok(config),
            Err(fault) => Err(ErrorView::Parse(fault)),
        },
    }
}

/// What saving comes to: the plan to write the configuration's TOML text to
/// the configuration path below `home`, or `Serialize` where the
/// configuration has no TOML text from which it can be read again.
pub open spec fn saved(config: ConfigView, home: Seq<char>) -> Result<SavePlanView, ErrorView> {
    match pretty_document(config.entries()) {
        None => Err(ErrorView::Serialize),
        Some(contents) => if read(contents) == Ok::<ConfigView, Fault>(config) {
            Ok(SavePlanView { directory: config_dir(home), path: config_path(home), contents })
        } else {
            Err(ErrorView::Serialize)
        },
    }
}

/// Whether a loading's result is the one the contract names.
pub open spec fn loading_is(
    got: Result<ScillaConfig, ConfigError>,
    want: Result<ConfigView, ErrorView>,
) -> bool {
    match want {
        Ok(config) => got matches Ok(c) && c@ == config,
        Err(error) => got matches Err(e) && e@ == error,
    }
}

/// Whether a saving's result is the one the contract names.
pub open spec fn saving_is(
    got: Result<SavePlan, ConfigError>,
    want: Result<SavePlanView, ErrorView>,
) -> bool {
    match want {
        Ok(plan) => got matches Ok(p) && p@ == plan,
        Err(error) => got matches Err(e) && e@ == error,
    }
}

/// Reads one field of a table as text.
fn text_field(table: &toml::Table, field: Field) -> (text: Result<String, ParseFault>)
    ensures
        match text_of(table_entries(*table), field) {
            Ok(want) => text matches Ok(s) && s@ == want,
            Err(fault) => text matches Err(e) && e@ == fault,
        },
{
    match table_get(table, field.name()) {
        Lookup::Missing => Err(ParseFault::MissingField(field)),
        Lookup::NotText => Err(ParseFault::WrongType(field)),
        Lookup::Text(text) => Ok(text),
    }
}

impl ScillaConfig {
    /// Reads a configuration from a TOML table.
    pub fn from_table(table: &toml::Table) -> (config: Result<ScillaConfig, ParseFault>)
        ensures
            decoding_is(config, decoded(table_entries(*table))),
    {
        let rpc_url = match text_field(table, Field::RpcUrl) {
            Ok(text) => text,
            Err(fault) => { return Err(fault); },
        };
        let tag = match text_field(table, Field::CommitmentLevel) {
            Ok(text) => text,
            Err(fault) => { return Err(fault); },
        };
        let commitment_level = match level_from_tag(tag.as_str()) {
            Some(level) => level,
            None => { return Err(ParseFault::UnknownCommitment(tag)); },
        };
        let keypair_path = match text_field(table, Field::KeypairPath) {
            Ok(text) => text,
            Err(fault) => { return Err(fault); },
        };
        Ok(ScillaConfig { rpc_url, commitment_level, keypair_path })
    }

    /// Writes the configuration into a fresh TOML table: the three fields as
    /// strings, in the order `rpc-url`, `commitment-level`, `keypair-path`.
    pub fn to_table(&self) -> (table: toml::Table)
        ensures
            table_entries(table) == self@.entries(),
            all_text(table_entries(table)),
    {
        let mut table = table_new();
        let tag = level_to_tag(self.commitment_level);
        proof {
            let none = Seq::<(Seq<char>, Option<Seq<char>>)>::empty();
            let first = (Field::RpcUrl.key(), Some(self.rpc_url@));
            let second = (Field::CommitmentLevel.key(), Some(tag@));
            Field::RpcUrl.lemma_keys_differ(Field::CommitmentLevel);
            Field::RpcUrl.lemma_keys_differ(Field::KeypairPath);
            Field::CommitmentLevel.lemma_keys_differ(Field::KeypairPath);
            lemma_entry_of_push(none, first, Field::CommitmentLevel.key());
            lemma_entry_of_push(none, first, Field::KeypairPath.key());
            lemma_entry_of_push(none.push(first), second, Field::KeypairPath.key());
        }
        table_insert_text(&mut table, Field::RpcUrl.name(), self.rpc_url.as_str());
        table_insert_text(&mut table, Field::CommitmentLevel.name(), tag.as_str());
        table_insert_text(&mut table, Field::KeypairPath.name(), self.keypair_path.as_str());
        table
    }

    /// The configuration of a fresh installation: the public mainnet
    /// endpoint, the level `Confirmed`, and the keypair at
    /// `.config/solana/id.json` below `home`.
    pub fn default(home: &str) -> (config: ScillaConfig)
        ensures
            config@ == ConfigView::fresh(home@),
            config.commitment_level == CommitmentLevel::Confirmed,
            config.rpc_url@.len() > 0,
    {
        proof {
            reveal_strlit("https://api.mainnet-beta.solana.com");
        }
        ScillaConfig {
            rpc_url: String::from_str(DEFAULT_RPC_URL),
            commitment_level: CommitmentLevel::Confirmed,
            keypair_path: join(home, DEFAULT_KEYPAIR_RELATIVE_PATH),
        }
    }

    /// Reads a configuration from the text of a configuration file.
    pub fn from_text(text: &str) -> (config: Result<ScillaConfig, ParseFault>)
        ensures
            decoding_is(config, read(text@)),
    {
        match parse_table(text) {
            Err(error) => Err(ParseFault::Syntax(error.to_string())),
            Ok(table) => ScillaConfig::from_table(&table),
        }
    }

    /// Loads the configuration from what the host found at the
    /// configuration path.
    pub fn load(file: &ConfigFile) -> (config: Result<ScillaConfig, ConfigError>)
        ensures
            loading_is(config, loaded(*file)),
    {
        match file {
            ConfigFile::Absent => Err(ConfigError::PathDoesNotExist),
            ConfigFile::Unreadable(message) => Err(ConfigError::Io(message.clone())),
            ConfigFile::Present(text) => match ScillaConfig::from_text(text.as_str()) {
                Ok(config) => Ok(config),
                Err(fault) => Err(ConfigError::Parse(fault)),
            },
        }
    }

    /// Whether `text` holds exactly this configuration.
    pub fn is_read_from(&self, text: &str) -> (same: bool)
        ensures
            same == (read(text@) == Ok::<ConfigView, Fault>(self@)),
    {
        match ScillaConfig::from_text(text) {
            Err(_) => false,
            Ok(found) => found.rpc_url == self.rpc_url && found.commitment_level
                == self.commitment_level && found.keypair_path == self.keypair_path,
        }
    }

    /// Plans the saving of the configuration below `home`. Nothing is
    /// written here: the host carries the plan out. The text of a plan is
    /// read once before it is handed out, so a plan never holds a text that
    /// would load as another configuration or as none.
    pub fn save(&self, home: &str) -> (plan: Result<SavePlan, ConfigError>)
        ensures
            saving_is(plan, saved(self@, home@)),
    {
        let table = self.to_table();
        match table_to_pretty(&table) {
            Err(error) => Err(ConfigError::Serialize(error.to_string())),
            Ok(contents) => if self.is_read_from(contents.as_str()) {
                Ok(
                    SavePlan {
                        directory: scilla_config_dir(home),
                        path: scilla_config_path(home),
                        contents,
                    },
                )
            } else {
                Err(
                    ConfigError::Serialize(
                        String::from_str("the text written does not read back as the configuration"),
                    ),
                )
            },
        }
    }
}

/// Looking a key up after one more entry was put behind the others: an
/// earlier entry under the key still answers, else the new one does if it
/// stands under the key.
pub proof fn lemma_entry_of_push(
    entries: Seq<(Seq<char>, Option<Seq<char>>)>,
    last: (Seq<char>, Option<Seq<char>>),
    key: Seq<char>,
)
    ensures
        entry_of(entries.push(last), key) == if entry_of(entries, key) is Some {
            entry_of(entries, key)
        } else if last.0 == key {
            Some(last.1)
        } else {
            None
        },
    decreases entries.len(),
{
    let longer = entries.push(last);
    if entries.len() == 0 {
        assert(longer.drop_first() =~= entries);
    } else {
        assert(longer.drop_first() =~= entries.drop_first().push(last));
        if entries[0].0 != key {
            lemma_entry_of_push(entries.drop_first(), last, key);
        }
    }
}

/// A configuration written into a table is read back from it unchanged,
/// whatever its three fields hold.
pub proof fn lemma_decoded_entries(config: ConfigView)
    ensures
        decoded(config.entries()) == Ok::<ConfigView, Fault>(config),
        all_text(config.entries()),
{
    let none = Seq::<(Seq<char>, Option<Seq<char>>)>::empty();
    let first = (Field::RpcUrl.key(), Some(config.rpc_url));
    let second = (Field::CommitmentLevel.key(), Some(config.commitment_level.tag()));
    let third = (Field::KeypairPath.key(), Some(config.keypair_path));
    let one = none.push(first);
    let two = one.push(second);
    Field::RpcUrl.lemma_keys_differ(Field::CommitmentLevel);
    Field::RpcUrl.lemma_keys_differ(Field::KeypairPath);
    Field::CommitmentLevel.lemma_keys_differ(Field::KeypairPath);
    lemma_entry_of_push(none, first, Field::RpcUrl.key());
    lemma_entry_of_push(none, first, Field::CommitmentLevel.key());
    lemma_entry_of_push(none, first, Field::KeypairPath.key());
    lemma_entry_of_push(one, second, Field::RpcUrl.key());
    lemma_entry_of_push(one, second, Field::CommitmentLevel.key());
    lemma_entry_of_push(one, second, Field::KeypairPath.key());
    lemma_entry_of_push(two, third, Field::RpcUrl.key());
    lemma_entry_of_push(two, third, Field::CommitmentLevel.key());
    lemma_entry_of_push(two, third, Field::KeypairPath.key());
    config.commitment_level.lemma_tag_round_trip();
}

/// Saving, then loading: a file that holds the text of a configuration's
/// save plan loads as that configuration, equal in all three fields.
pub proof fn lemma_save_then_load(config: ConfigView, home: Seq<char>, file: ConfigFile)
    requires
        saved(config, home) matches Ok(plan) && file matches ConfigFile::Present(text) && text@
            == plan.contents,
    ensures
        loaded(file) == Ok::<ConfigView, ErrorView>(config),
{
}

/// A malformed file fails to load as `Parse`, never as `Io`: a TOML document
/// without the key `rpc-url` as the fault that names the missing field, and
/// one whose commitment level is a string but no known tag as a fault too.
pub proof fn lemma_malformed_is_parse_fault(
    file: ConfigFile,
    entries: Seq<(Seq<char>, Option<Seq<char>>)>,
)
    requires
        file matches ConfigFile::Present(text) && parsed_document(text@) == Some(entries),
    ensures
        entry_of(entries, Field::RpcUrl.key()) is None ==> loaded(file) == Err::<
            ConfigView,
            ErrorView,
        >(ErrorView::Parse(Fault::MissingField(Field::RpcUrl))),
        entry_of(entries, Field::CommitmentLevel.key()) matches Some(Some(tag))
            && CommitmentLevel::of_tag(tag) is None ==> loaded(file) matches Err(
            ErrorView::Parse(_),
        ),
{
}

/// Whatever a file that is there and readable holds, loading it never fails
/// as `Io` or `PathDoesNotExist`.
pub proof fn lemma_present_never_io(file: ConfigFile)
    requires
        file is Present,
    ensures
        loaded(file) is Ok || loaded(file) matches Err(ErrorView::Parse(_)),
{
}

} // verus!
