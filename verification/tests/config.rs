use scilla_config::config::{ConfigFile, SavePlan, ScillaConfig, DEFAULT_RPC_URL};
use scilla_config::error::{ConfigError, Field, ParseFault};
use scilla_config::level::CommitmentLevel;
use scilla_config::path::{
    join, scilla_config_dir, scilla_config_path, DEFAULT_KEYPAIR_RELATIVE_PATH,
    SCILLA_CONFIG_RELATIVE_DIR, SCILLA_CONFIG_RELATIVE_PATH,
};

fn sample(level: CommitmentLevel) -> ScillaConfig {
    ScillaConfig {
        rpc_url: String::from("http://localhost:8899"),
        commitment_level: level,
        keypair_path: String::from("/home/ada/.config/solana/id.json"),
    }
}

fn table(text: &str) -> toml::Table {
    match text.parse::<toml::Table>() {
        Ok(table) => table,
        Err(error) => panic!("not a TOML document: {}", error),
    }
}

fn present(text: &str) -> ConfigFile {
    ConfigFile::Present(String::from(text))
}

fn contents_of(config: &ScillaConfig) -> String {
    match config.save("/home/ada") {
        Ok(plan) => plan.contents,
        Err(error) => panic!("save failed: {:?}", error),
    }
}

#[test]
fn relative_paths_are_fixed() {
    assert_eq!(SCILLA_CONFIG_RELATIVE_PATH, ".config/scilla.toml");
    assert_eq!(SCILLA_CONFIG_RELATIVE_DIR, ".config");
    assert_eq!(DEFAULT_KEYPAIR_RELATIVE_PATH, ".config/solana/id.json");
}

#[test]
fn join_puts_one_separator_between() {
    assert_eq!(join("/home/ada", "x/y"), "/home/ada/x/y");
}

#[test]
fn join_keeps_a_separator_that_is_there() {
    assert_eq!(join("/home/ada/", "x"), "/home/ada/x");
    assert_eq!(join("/", "x"), "/x");
}

#[test]
fn join_below_nothing_is_the_relative_path() {
    assert_eq!(join("", "x/y"), "x/y");
}

#[test]
fn join_looks_at_the_last_character_not_the_last_byte() {
    assert_eq!(join("/home/zo\u{eb}", "x"), "/home/zo\u{eb}/x");
}

#[test]
fn config_path_lies_below_home() {
    assert_eq!(scilla_config_path("/home/ada"), "/home/ada/.config/scilla.toml");
    assert_eq!(scilla_config_path("/home/ada/"), "/home/ada/.config/scilla.toml");
}

#[test]
fn config_path_is_the_file_in_the_config_dir() {
    let home = "/srv/users/grace";
    assert_eq!(scilla_config_dir(home), "/srv/users/grace/.config");
    assert_eq!(
        scilla_config_path(home),
        format!("{}/scilla.toml", scilla_config_dir(home))
    );
}

#[test]
fn config_path_is_the_same_each_time() {
    assert_eq!(scilla_config_path("/home/ada"), scilla_config_path("/home/ada"));
}

#[test]
fn default_is_confirmed_on_mainnet() {
    let config = ScillaConfig::default("/home/ada");
    assert_eq!(config.commitment_level, CommitmentLevel::Confirmed);
    assert_eq!(config.rpc_url, "https://api.mainnet-beta.solana.com");
    assert_eq!(config.rpc_url, DEFAULT_RPC_URL);
    assert!(!config.rpc_url.is_empty());
    assert_eq!(config.keypair_path, "/home/ada/.config/solana/id.json");
}

#[test]
fn default_is_the_same_each_time() {
    assert_eq!(ScillaConfig::default("/home/ada"), ScillaConfig::default("/home/ada"));
}

#[test]
fn field_names_are_hyphenated() {
    assert_eq!(Field::RpcUrl.name(), "rpc-url");
    assert_eq!(Field::CommitmentLevel.name(), "commitment-level");
    assert_eq!(Field::KeypairPath.name(), "keypair-path");
}

#[test]
fn from_table_reads_the_three_fields() {
    let found = ScillaConfig::from_table(&table(
        "rpc-url = \"http://localhost:8899\"\ncommitment-level = \"finalized\"\nkeypair-path = \"/tmp/id.json\"\n",
    ));
    assert_eq!(
        found,
        Ok(ScillaConfig {
            rpc_url: String::from("http://localhost:8899"),
            commitment_level: CommitmentLevel::Finalized,
            keypair_path: String::from("/tmp/id.json"),
        })
    );
}

#[test]
fn from_table_knows_each_level_by_its_tag() {
    let levels = [
        ("processed", CommitmentLevel::Processed),
        ("confirmed", CommitmentLevel::Confirmed),
        ("finalized", CommitmentLevel::Finalized),
    ];
    for (tag, level) in levels {
        let text = format!(
            "rpc-url = \"u\"\ncommitment-level = \"{}\"\nkeypair-path = \"k\"\n",
            tag
        );
        match ScillaConfig::from_table(&table(&text)) {
            Ok(config) => assert_eq!(config.commitment_level, level),
            Err(fault) => panic!("{} refused: {:?}", tag, fault),
        }
    }
}

#[test]
fn from_table_takes_the_fields_in_any_order_and_passes_over_others() {
    let found = ScillaConfig::from_table(&table(
        "theme = \"dark\"\nkeypair-path = \"k\"\nretries = 3\ncommitment-level = \"processed\"\nrpc-url = \"u\"\n[extra]\nrpc-url = \"other\"\n",
    ));
    assert_eq!(
        found,
        Ok(ScillaConfig {
            rpc_url: String::from("u"),
            commitment_level: CommitmentLevel::Processed,
            keypair_path: String::from("k"),
        })
    );
}

#[test]
fn from_table_names_the_missing_field() {
    assert_eq!(
        ScillaConfig::from_table(&table("commitment-level = \"confirmed\"\nkeypair-path = \"k\"\n")),
        Err(ParseFault::MissingField(Field::RpcUrl))
    );
    assert_eq!(
        ScillaConfig::from_table(&table("rpc-url = \"u\"\nkeypair-path = \"k\"\n")),
        Err(ParseFault::MissingField(Field::CommitmentLevel))
    );
    assert_eq!(
        ScillaConfig::from_table(&table("rpc-url = \"u\"\ncommitment-level = \"confirmed\"\n")),
        Err(ParseFault::MissingField(Field::KeypairPath))
    );
    assert_eq!(
        ScillaConfig::from_table(&toml::Table::new()),
        Err(ParseFault::MissingField(Field::RpcUrl))
    );
}

#[test]
fn from_table_names_the_field_that_is_no_string() {
    assert_eq!(
        ScillaConfig::from_table(&table(
            "rpc-url = 8899\ncommitment-level = \"confirmed\"\nkeypair-path = \"k\"\n"
        )),
        Err(ParseFault::WrongType(Field::RpcUrl))
    );
    assert_eq!(
        ScillaConfig::from_table(&table(
            "rpc-url = \"u\"\ncommitment-level = true\nkeypair-path = \"k\"\n"
        )),
        Err(ParseFault::WrongType(Field::CommitmentLevel))
    );
    assert_eq!(
        ScillaConfig::from_table(&table(
            "rpc-url = \"u\"\ncommitment-level = \"confirmed\"\nkeypair-path = [\"k\"]\n"
        )),
        Err(ParseFault::WrongType(Field::KeypairPath))
    );
}

#[test]
fn from_table_keeps_the_unknown_tag() {
    assert_eq!(
        ScillaConfig::from_table(&table(
            "rpc-url = \"u\"\ncommitment-level = \"Confirmed\"\nkeypair-path = \"k\"\n"
        )),
        Err(ParseFault::UnknownCommitment(String::from("Confirmed")))
    );
    assert_eq!(
        ScillaConfig::from_table(&table(
            "rpc-url = \"u\"\ncommitment-level = \"\"\nkeypair-path = \"k\"\n"
        )),
        Err(ParseFault::UnknownCommitment(String::new()))
    );
}

#[test]
fn from_table_reports_the_first_fault_in_field_order() {
    assert_eq!(
        ScillaConfig::from_table(&table("commitment-level = \"soon\"\nkeypair-path = 1\n")),
        Err(ParseFault::MissingField(Field::RpcUrl))
    );
    assert_eq!(
        ScillaConfig::from_table(&table("rpc-url = \"u\"\ncommitment-level = \"soon\"\n")),
        Err(ParseFault::UnknownCommitment(String::from("soon")))
    );
}

#[test]
fn to_table_holds_the_fields_in_writing_order() {
    let table = sample(CommitmentLevel::Processed).to_table();
    let entries: Vec<(String, Option<String>)> = table
        .iter()
        .map(|(key, value)| (key.clone(), value.as_str().map(String::from)))
        .collect();
    assert_eq!(
        entries,
        vec![
            (String::from("rpc-url"), Some(String::from("http://localhost:8899"))),
            (String::from("commitment-level"), Some(String::from("processed"))),
            (
                String::from("keypair-path"),
                Some(String::from("/home/ada/.config/solana/id.json"))
            ),
        ]
    );
}

#[test]
fn to_table_writes_each_level_as_its_tag() {
    let levels = [
        (CommitmentLevel::Processed, "processed"),
        (CommitmentLevel::Confirmed, "confirmed"),
        (CommitmentLevel::Finalized, "finalized"),
    ];
    for (level, tag) in levels {
        let table = sample(level).to_table();
        assert_eq!(table.get("commitment-level").and_then(|v| v.as_str()), Some(tag));
    }
}

#[test]
fn from_table_reads_back_what_to_table_wrote() {
    let config = ScillaConfig {
        rpc_url: String::from("rpc-url"),
        commitment_level: CommitmentLevel::Finalized,
        keypair_path: String::from("commitment-level"),
    };
    assert_eq!(ScillaConfig::from_table(&config.to_table()), Ok(config));
}

#[test]
fn save_plans_the_default_file() {
    let plan = ScillaConfig::default("/home/ada").save("/home/ada");
    assert_eq!(
        plan,
        Ok(SavePlan {
            directory: String::from("/home/ada/.config"),
            path: String::from("/home/ada/.config/scilla.toml"),
            contents: String::from(
                "rpc-url = \"https://api.mainnet-beta.solana.com\"\ncommitment-level = \"confirmed\"\nkeypair-path = \"/home/ada/.config/solana/id.json\"\n"
            ),
        })
    );
}

#[test]
fn save_writes_below_the_home_it_is_given() {
    match sample(CommitmentLevel::Confirmed).save("/root/") {
        Ok(plan) => {
            assert_eq!(plan.directory, "/root/.config");
            assert_eq!(plan.path, "/root/.config/scilla.toml");
        }
        Err(error) => panic!("save failed: {:?}", error),
    }
}

#[test]
fn load_without_a_file_is_path_does_not_exist() {
    assert_eq!(ScillaConfig::load(&ConfigFile::Absent), Err(ConfigError::PathDoesNotExist));
}

#[test]
fn load_of_an_unreadable_file_is_io() {
    assert_eq!(
        ScillaConfig::load(&ConfigFile::Unreadable(String::from("permission denied"))),
        Err(ConfigError::Io(String::from("permission denied")))
    );
}

#[test]
fn load_of_what_is_no_toml_is_a_syntax_fault() {
    for text in ["rpc-url = ", "rpc-url \"u\"", "a = 1\na = 2\n", "[", "\u{0}"] {
        match ScillaConfig::load(&present(text)) {
            Err(ConfigError::Parse(ParseFault::Syntax(message))) => assert!(!message.is_empty()),
            other => panic!("{:?} gave {:?}", text, other),
        }
    }
}

#[test]
fn load_of_an_empty_file_misses_the_rpc_url() {
    assert_eq!(
        ScillaConfig::load(&present("")),
        Err(ConfigError::Parse(ParseFault::MissingField(Field::RpcUrl)))
    );
}

#[test]
fn load_without_rpc_url_is_a_parse_fault() {
    let found = ScillaConfig::load(&present(
        "commitment-level = \"confirmed\"\nkeypair-path = \"/home/ada/.config/solana/id.json\"\n",
    ));
    assert_eq!(found, Err(ConfigError::Parse(ParseFault::MissingField(Field::RpcUrl))));
    assert!(!matches!(found, Err(ConfigError::Io(_))));
}

#[test]
fn load_with_an_unknown_commitment_is_a_parse_fault() {
    let found = ScillaConfig::load(&present(
        "rpc-url = \"http://localhost:8899\"\ncommitment-level = \"eventually\"\nkeypair-path = \"k\"\n",
    ));
    assert_eq!(
        found,
        Err(ConfigError::Parse(ParseFault::UnknownCommitment(String::from("eventually"))))
    );
    assert!(!matches!(found, Err(ConfigError::Io(_))));
}

#[test]
fn load_with_a_field_of_the_wrong_type_is_a_parse_fault() {
    assert_eq!(
        ScillaConfig::load(&present(
            "rpc-url = \"u\"\ncommitment-level = \"confirmed\"\nkeypair-path = 7\n"
        )),
        Err(ConfigError::Parse(ParseFault::WrongType(Field::KeypairPath)))
    );
}

#[test]
fn load_reads_a_file_written_by_hand() {
    let found = ScillaConfig::load(&present(
        "# my settings\nrpc-url = 'http://localhost:8899'   # local validator\n\n  commitment-level=\"processed\"\nkeypair-path = \"\"\"/tmp/id.json\"\"\"\n",
    ));
    assert_eq!(
        found,
        Ok(ScillaConfig {
            rpc_url: String::from("http://localhost:8899"),
            commitment_level: CommitmentLevel::Processed,
            keypair_path: String::from("/tmp/id.json"),
        })
    );
}

#[test]
fn load_reads_back_what_save_wrote() {
    for level in [
        CommitmentLevel::Processed,
        CommitmentLevel::Confirmed,
        CommitmentLevel::Finalized,
    ] {
        let config = sample(level);
        let found = ScillaConfig::load(&ConfigFile::Present(contents_of(&config)));
        assert_eq!(found, Ok(config));
    }
}

#[test]
fn load_reads_back_the_default() {
    let config = ScillaConfig::default("/home/ada");
    let found = ScillaConfig::load(&ConfigFile::Present(contents_of(&config)));
    assert_eq!(found, Ok(ScillaConfig::default("/home/ada")));
}

#[test]
fn load_reads_back_awkward_text() {
    let awkward = [
        "",
        " ",
        "\"quoted\"",
        "back\\slash",
        "two\nlines",
        "tab\there",
        "'single'",
        "'''",
        "\"\"\"",
        "caf\u{e9} \u{1f980}",
        "# no comment",
        "a = \"b\"",
        "\u{7f}\u{1}",
        "C:\\Users\\ada\\id.json",
    ];
    for text in awkward {
        let config = ScillaConfig {
            rpc_url: String::from(text),
            commitment_level: CommitmentLevel::Confirmed,
            keypair_path: format!("/keys/{}", text),
        };
        let found = ScillaConfig::load(&ConfigFile::Present(contents_of(&config)));
        assert_eq!(found, Ok(config));
    }
}

#[test]
fn from_text_reads_a_document() {
    assert_eq!(
        ScillaConfig::from_text(
            "keypair-path = \"k\"\nrpc-url = \"u\"\ncommitment-level = \"processed\"\n"
        ),
        Ok(ScillaConfig {
            rpc_url: String::from("u"),
            commitment_level: CommitmentLevel::Processed,
            keypair_path: String::from("k"),
        })
    );
}

#[test]
fn from_text_tells_bad_syntax_from_a_bad_record() {
    assert!(matches!(
        ScillaConfig::from_text("rpc-url = \"u"),
        Err(ParseFault::Syntax(_))
    ));
    assert_eq!(
        ScillaConfig::from_text("rpc-url = \"u\"\n"),
        Err(ParseFault::MissingField(Field::CommitmentLevel))
    );
}

#[test]
fn is_read_from_its_own_text_only() {
    let config = sample(CommitmentLevel::Confirmed);
    let text = contents_of(&config);
    assert!(config.is_read_from(&text));
    assert!(!sample(CommitmentLevel::Finalized).is_read_from(&text));
    assert!(!ScillaConfig::default("/home/ada").is_read_from(&text));
    assert!(!config.is_read_from(""));
    assert!(!config.is_read_from("rpc-url = "));
    let mut other = sample(CommitmentLevel::Confirmed);
    other.keypair_path.push('x');
    assert!(!other.is_read_from(&text));
    let mut third = sample(CommitmentLevel::Confirmed);
    third.rpc_url = String::from("http://localhost:8898");
    assert!(!third.is_read_from(&text));
}
