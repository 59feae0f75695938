//! What is stored in the database and how it is read and written.

use vstd::prelude::*;
use vstd::string::*;

use crate::text::{decimal, parse_u32, parsed_u32, law_parse_of_decimal, u32_to_string};
use crate::time::{rfc3339_text, Timestamp};

pub mod alert;
pub mod config;
pub mod notifications;
pub mod ping;
pub mod property;
pub mod util;

verus! {

/// tokio_postgres's settings of a connection.
#[verifier::external_type_specification]
#[verifier::external_body]
pub struct ExPgConfig(tokio_postgres::Config);

/// tokio_postgres's errors.
#[verifier::external_type_specification]
#[verifier::external_body]
pub struct ExPgError(tokio_postgres::Error);

/// What tokio_postgres reads from a connection string: the settings, or nothing if the string is
/// not one.
pub uninterp spec fn pg_config(config_str: Seq<char>) -> Option<tokio_postgres::Config>;

/// Reads a connection string with `str::parse::<tokio_postgres::Config>`.
///
/// Not proved: the outcome depends on the string alone (and on the operating system that the
/// program is built for, which decides whether a host may be a path). What the error says is left
/// open.
#[verifier::external_body]
fn parse_pg_config(config_str: &str) -> (res: Result<
    tokio_postgres::Config,
    tokio_postgres::Error,
>)
    ensures
        match pg_config(config_str@) {
            Some(config) => res is Ok && res->Ok_0 == config,
            None => res is Err,
        },
{
    config_str.parse::<tokio_postgres::Config>()
}

/// How to reach the database.
#[derive(Debug)]
pub struct DatabaseConfig {
    pub pg_config: tokio_postgres::Config,
}

/// A connection string that cannot be read.
pub struct ConfigError {
    pub source: tokio_postgres::Error,
}

impl DatabaseConfig {
    /// Reads a connection string.
    pub fn new(config_str: &str) -> (res: Result<Self, ConfigError>)
        ensures
            match pg_config(config_str@) {
                Some(config) => res is Ok && res->Ok_0.pg_config == config,
                None => res is Err,
            },
    {
        match parse_pg_config(config_str) {
            Ok(pg_config) => Ok(DatabaseConfig { pg_config }),
            Err(source) => Err(ConfigError { source }),
        }
    }
}

/// The properties that are stored in the database.
pub type Properties = Map<Seq<char>, Seq<char>>;

/// A change of one property.
#[derive(Debug)]
pub enum PropertyWrite {
    /// Store the value under the name, in place of any other.
    Upsert { name: String, value: String },
    /// Remove the value under the name.
    Delete { name: String },
}

/// A change of one property, in mathematical terms: a new value, or none.
pub struct PropertySpec {
    pub name: Seq<char>,
    pub value: Option<Seq<char>>,
}

impl View for PropertyWrite {
    type V = PropertySpec;

    open spec fn view(&self) -> PropertySpec {
        match self {
            PropertyWrite::Upsert { name, value } => PropertySpec {
                name: name@,
                value: Some(value@),
            },
            PropertyWrite::Delete { name } => PropertySpec { name: name@, value: None },
        }
    }
}

impl PropertySpec {
    /// The properties after the change.
    pub open spec fn apply(self, properties: Properties) -> Properties {
        match self.value {
            Some(value) => properties.insert(self.name, value),
            None => properties.remove(self.name),
        }
    }
}

/// The properties after several changes, made one after the other.
pub open spec fn apply_all(writes: Seq<PropertySpec>, properties: Properties) -> Properties
    decreases writes.len(),
{
    if writes.len() == 0 {
        properties
    } else {
        writes.last().apply(apply_all(writes.drop_last(), properties))
    }
}

/// The value of a property, if it has one.
pub open spec fn property_value(properties: Properties, name: Seq<char>) -> Option<Seq<char>> {
    if properties.contains_key(name) {
        Some(properties[name])
    } else {
        None
    }
}

/// The view of a text that may be missing.
pub open spec fn view_text(text: Option<String>) -> Option<Seq<char>> {
    match text {
        Some(s) => Some(s@),
        None => None,
    }
}

/// The views of a list of changes.
pub open spec fn view_writes(writes: Seq<PropertyWrite>) -> Seq<PropertySpec> {
    writes.map_values(|w: PropertyWrite| w@)
}

/// The change that gives a property a value, or takes its value away.
pub fn set_property(name: &str, value: Option<&str>) -> (res: PropertyWrite)
    ensures
        res@ == (PropertySpec {
            name: name@,
            value: match value {
                Some(v) => Some(v@),
                None => None,
            },
        }),
{
    match value {
        Some(value) => PropertyWrite::Upsert { name: name.to_string(), value: value.to_string() },
        None => PropertyWrite::Delete { name: name.to_string() },
    }
}

/// A property reads as it was last set, and every other property as before.
pub proof fn law_property_reads_as_set(
    write: PropertySpec,
    properties: Properties,
    other: Seq<char>,
)
    requires
        other != write.name,
    ensures
        property_value(write.apply(properties), write.name) == write.value,
        property_value(write.apply(properties), other) == property_value(properties, other),
{
}

/// The version of the database schema that this program works with.
pub const SCHEMA_VERSION: u32 = 1;

/// A schema version that is not a number.
#[derive(Debug, Clone, Copy, PartialEq, Eq, Structural)]
pub struct VersionError {}

/// The schema version that a property stands for.
pub open spec fn schema_version_of(value: Option<Seq<char>>) -> Result<Option<u32>, VersionError> {
    match value {
        None => Ok(None),
        Some(s) => match parsed_u32(s, 10) {
            Some(version) => Ok(Some(version)),
            None => Err(VersionError {  }),
        },
    }
}

/// Reads the schema version from the value of its property. There is none before the schema has
/// been created.
pub fn get_schema_version(value: Option<String>) -> (res: Result<Option<u32>, VersionError>)
    ensures
        res == schema_version_of(view_text(value)),
{
    match value {
        None => Ok(None),
        Some(s) => match parse_u32(s.as_str(), 10) {
            Some(version) => Ok(Some(version)),
            None => Err(VersionError {  }),
        },
    }
}

/// What to do next to make the schema usable.
#[derive(Debug, Clone, Copy, PartialEq, Eq, Structural)]
pub enum InitStep {
    /// Create the schema, then check its version.
    Create,
    /// Check the version of the schema.
    Migrate,
}

/// What to do about a schema of the given version: one without a version is yet to be created.
pub fn init_schema(version: Option<u32>) -> (res: InitStep)
    ensures
        res == match version {
            None => InitStep::Create,
            Some(_) => InitStep::Migrate,
        },
{
    if version.is_none() {
        InitStep::Create
    } else {
        InitStep::Migrate
    }
}

/// A property to be stored that must not have a value yet.
#[derive(Debug)]
pub struct PropertyInsert {
    pub name: String,
    pub value: String,
}

/// A property to be stored that must not have a value yet, in mathematical terms.
pub struct InsertSpec {
    pub name: Seq<char>,
    pub value: Seq<char>,
}

impl View for PropertyInsert {
    type V = InsertSpec;

    open spec fn view(&self) -> InsertSpec {
        InsertSpec { name: self.name@, value: self.value@ }
    }
}

/// The views of a list of properties to be stored.
pub open spec fn view_inserts(inserts: Seq<PropertyInsert>) -> Seq<InsertSpec> {
    inserts.map_values(|i: PropertyInsert| i@)
}

/// The properties once several more have been stored, one after the other. That fails as a whole
/// if one of them has a value already.
pub open spec fn insert_all(inserts: Seq<InsertSpec>, properties: Properties) -> Option<Properties>
    decreases inserts.len(),
{
    if inserts.len() == 0 {
        Some(properties)
    } else {
        match insert_all(inserts.drop_last(), properties) {
            Some(before) if !before.contains_key(inserts.last().name) => Some(
                before.insert(inserts.last().name, inserts.last().value),
            ),
            _ => None,
        }
    }
}

/// The properties of a schema created at the given point in time.
pub open spec fn initial_properties(now: int) -> Seq<InsertSpec> {
    seq![
        InsertSpec { name: property::SCHEMA_VERSION@, value: decimal(SCHEMA_VERSION as nat) },
        InsertSpec { name: property::CREATED_AT@, value: rfc3339_text(now) },
    ]
}

/// The properties that are stored when the schema is created. They belong into one transaction,
/// which fails if one of them has a value already.
pub fn create_schema(now: Timestamp) -> (res: Vec<PropertyInsert>)
    ensures
        view_inserts(res@) == initial_properties(now@),
{
    let mut res: Vec<PropertyInsert> = Vec::new();
    res.push(
        PropertyInsert {
            name: property::SCHEMA_VERSION.to_string(),
            value: u32_to_string(SCHEMA_VERSION),
        },
    );
    res.push(
        PropertyInsert { name: property::CREATED_AT.to_string(), value: now.to_rfc3339() },
    );
    assert(view_inserts(res@) =~= initial_properties(now@));
    res
}

/// Whether this program can work with a schema.
#[derive(Debug, Clone, Copy, PartialEq, Eq, Structural)]
pub enum SchemaStatus {
    /// The schema is the one that this program works with.
    Ready,
    /// The schema has no version.
    Unknown,
    /// The schema is older and has to be upgraded.
    Outdated(u32),
    /// The schema is newer.
    Unsupported(u32),
}

/// Whether this program can work with a schema of the given version.
pub open spec fn schema_status(version: Option<u32>) -> SchemaStatus {
    match version {
        None => SchemaStatus::Unknown,
        Some(v) => if v < SCHEMA_VERSION {
            SchemaStatus::Outdated(v)
        } else if v > SCHEMA_VERSION {
            SchemaStatus::Unsupported(v)
        } else {
            SchemaStatus::Ready
        },
    }
}

/// Checks whether this program can work with a schema of the given version.
pub fn migrate_schema(version: Option<u32>) -> (res: SchemaStatus)
    ensures
        res == schema_status(version),
{
    match version {
        None => SchemaStatus::Unknown,
        Some(v) => if v < SCHEMA_VERSION {
            SchemaStatus::Outdated(v)
        } else if v > SCHEMA_VERSION {
            SchemaStatus::Unsupported(v)
        } else {
            SchemaStatus::Ready
        },
    }
}

impl SchemaStatus {
    /// The message that is shown if the schema cannot be used.
    pub open spec fn message_text(self) -> Option<Seq<char>> {
        match self {
            SchemaStatus::Ready => None,
            SchemaStatus::Unknown => Some("unable to determine database schema version"@),
            SchemaStatus::Outdated(_) => Some("upgrade schema"@),
            SchemaStatus::Unsupported(v) => Some(
                "unsupported schema version "@ + decimal(v as nat) + " (supported version is "@
                    + decimal(SCHEMA_VERSION as nat) + ")"@,
            ),
        }
    }

    /// The message that is shown if the schema cannot be used.
    pub fn message(&self) -> (res: Option<String>)
        ensures
            view_text(res) == self.message_text(),
    {
        match self {
            SchemaStatus::Ready => None,
            SchemaStatus::Unknown => Some(
                "unable to determine database schema version".to_string(),
            ),
            SchemaStatus::Outdated(_) => Some("upgrade schema".to_string()),
            SchemaStatus::Unsupported(v) => {
                let mut text: String = "unsupported schema version ".to_string();
                text.append(u32_to_string(*v).as_str());
                text.append(" (supported version is ");
                text.append(u32_to_string(SCHEMA_VERSION).as_str());
                text.append(")");
                Some(text)
            },
        }
    }
}

/// A schema can be created if and only if neither its version nor its date of creation is stored
/// already. It is then one that this program works with: the version is read back as it was
/// stored, and no other property changes.
pub proof fn law_created_schema_is_ready(properties: Properties, now: int, other: Seq<char>)
    requires
        other != property::SCHEMA_VERSION@,
        other != property::CREATED_AT@,
    ensures
        insert_all(initial_properties(now), properties) is Some <==> property_value(
            properties,
            property::SCHEMA_VERSION@,
        ) is None && property_value(properties, property::CREATED_AT@) is None,
        insert_all(initial_properties(now), properties) matches Some(created) ==> {
            let version = schema_version_of(property_value(created, property::SCHEMA_VERSION@));
            &&& version == Ok::<Option<u32>, VersionError>(Some(SCHEMA_VERSION))
            &&& schema_status(version->Ok_0) == SchemaStatus::Ready
            &&& property_value(created, property::CREATED_AT@) == Some(rfc3339_text(now))
            &&& property_value(created, other) == property_value(properties, other)
        },
{
    law_parse_of_decimal(SCHEMA_VERSION);
    reveal_with_fuel(insert_all, 3);
    let inserts = initial_properties(now);
    assert(inserts.drop_last().drop_last() =~= Seq::<InsertSpec>::empty());
    assert(inserts.drop_last().last() == inserts[0]);
    lemma_property_names();
}

/// Properties do not share names.
pub(crate) proof fn lemma_property_names()
    ensures
        property::SCHEMA_VERSION@ != property::CREATED_AT@,
        property::TELEGRAM_BOT_TOKEN@ != property::TELEGRAM_CHAT_ID@,
{
    reveal_strlit("schema_version");
    reveal_strlit("created_at");
    reveal_strlit("telegram_bot_token");
    reveal_strlit("telegram_chat_id");
    assert("schema_version"@.len() != "created_at"@.len());
    assert("telegram_bot_token"@.len() != "telegram_chat_id"@.len());
}

/// The schema is the one of this program if and only if its version is 1. An older one is told
/// apart from a newer one, and either from none.
pub proof fn law_schema_status_by_version(version: Option<u32>)
    ensures
        schema_status(version) == SchemaStatus::Ready <==> version == Some(1u32),
        schema_status(version) == SchemaStatus::Unknown <==> version is None,
        version matches Some(v) ==> (v < 1 ==> schema_status(version) == SchemaStatus::Outdated(v)),
        version matches Some(v) ==> (v > 1 ==> schema_status(version)
            == SchemaStatus::Unsupported(v)),
{
}

/// There is a message unless the schema can be used. One about a newer schema names its version.
pub proof fn law_schema_messages(v: u32)
    ensures
        SchemaStatus::Ready.message_text() is None,
        SchemaStatus::Unknown.message_text() == Some(
            "unable to determine database schema version"@,
        ),
        SchemaStatus::Outdated(v).message_text() == Some("upgrade schema"@),
        SchemaStatus::Unsupported(v).message_text() == Some(
            "unsupported schema version "@ + decimal(v as nat) + " (supported version is "@
                + decimal(1) + ")"@,
        ),
{
}

/// Every version reads as it was written, no version reads as none, and what is no number of 32
/// bits is an error.
pub proof fn law_schema_version_reads_as_written(n: u32, s: Seq<char>)
    ensures
        schema_version_of(None) == Ok::<Option<u32>, VersionError>(None),
        schema_version_of(Some(decimal(n as nat))) == Ok::<Option<u32>, VersionError>(Some(n)),
        parsed_u32(s, 10) is None <==> schema_version_of(Some(s)) is Err,
        parsed_u32(s, 10) matches Some(v) ==> schema_version_of(Some(s)) == Ok::<
            Option<u32>,
            VersionError,
        >(Some(v)),
{
    law_parse_of_decimal(n);
}

/// Changes are made one after the other, and each one has its effect.
pub proof fn law_changes_one_by_one(
    writes: Seq<PropertySpec>,
    write: PropertySpec,
    properties: Properties,
)
    ensures
        apply_all(Seq::empty(), properties) == properties,
        apply_all(writes.push(write), properties) == write.apply(apply_all(writes, properties)),
{
    assert(writes.push(write).drop_last() =~= writes);
}

/// What is shown of a change is its name, and its value if it has one. What is shown of a list of
/// changes are the changes.
pub proof fn law_views_show_the_changes(
    name: String,
    value: String,
    writes: Seq<PropertyWrite>,
    inserts: Seq<PropertyInsert>,
    i: int,
)
    ensures
        (PropertyWrite::Upsert { name, value })@ == (PropertySpec {
            name: name@,
            value: Some(value@),
        }),
        (PropertyWrite::Delete { name })@ == (PropertySpec { name: name@, value: None }),
        view_text(Some(value)) == Some(value@),
        view_text(None) is None,
        view_writes(writes).len() == writes.len(),
        0 <= i < writes.len() ==> view_writes(writes)[i] == writes[i]@,
        view_inserts(inserts).len() == inserts.len(),
        0 <= i < inserts.len() ==> view_inserts(inserts)[i].name == inserts[i].name@
            && view_inserts(inserts)[i].value == inserts[i].value@,
{
}

/// Properties are stored one after the other, as long as none of them has a value already.
pub proof fn law_inserts_one_by_one(
    inserts: Seq<InsertSpec>,
    insert: InsertSpec,
    properties: Properties,
)
    ensures
        insert_all(Seq::empty(), properties) == Some(properties),
        insert_all(inserts, properties) is None ==> insert_all(inserts.push(insert), properties)
            is None,
        insert_all(inserts, properties) matches Some(before) ==> (before.contains_key(insert.name)
            ==> insert_all(inserts.push(insert), properties) is None),
        insert_all(inserts, properties) matches Some(before) ==> (!before.contains_key(insert.name)
            ==> insert_all(inserts.push(insert), properties) == Some(
            before.insert(insert.name, insert.value),
        )),
{
    assert(inserts.push(insert).drop_last() =~= inserts);
}

} // verus!
