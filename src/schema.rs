use vstd::prelude::*;

verus! {

/// The schema version this library writes.
pub const VERSION: i64 = 0;

pub const CREATE_TABLE_PLACES_SQL: &'static str = "CREATE TABLE IF NOT EXISTS moz_places (
            id INTEGER PRIMARY KEY,
            url LONGVARCHAR,
            title LONGVARCHAR,
            visit_count_local INTEGER DEFAULT 0,
            visit_count_remote INTEGER DEFAULT 0,
            hidden INTEGER DEFAULT 0 NOT NULL,
            typed INTEGER DEFAULT 0 NOT NULL,
            frecency INTEGER DEFAULT -1 NOT NULL,
            last_visit_date_local INTEGER,
            last_visit_date_remote INTEGER,
            guid TEXT UNIQUE,
            foreign_count INTEGER DEFAULT 0 NOT NULL,
            url_hash INTEGER DEFAULT 0 NOT NULL,
            description TEXT,
            preview_image_url TEXT,
            origin_id INTEGER NOT NULL,

            FOREIGN KEY(origin_id) REFERENCES moz_origins(id) ON DELETE CASCADE
        )";

pub const CREATE_TABLE_HISTORYVISITS_SQL: &'static str = "CREATE TABLE moz_historyvisits (
            id INTEGER PRIMARY KEY,
            is_local INTEGER NOT NULL,
            from_visit INTEGER,
            place_id INTEGER NOT NULL,
            visit_date INTEGER,
            visit_type INTEGER,
            session INTEGER,

            FOREIGN KEY(place_id) REFERENCES moz_places(id) ON DELETE CASCADE,
            FOREIGN KEY(from_visit) REFERENCES moz_historyvisits(id)
        )";

pub const CREATE_TABLE_INPUTHISTORY_SQL: &'static str = "CREATE TABLE moz_inputhistory (
            place_id INTEGER NOT NULL,
            input LONGVARCHAR NOT NULL,
            use_count INTEGER,

            PRIMARY KEY (place_id, input),
            FOREIGN KEY(place_id) REFERENCES moz_places(id) ON DELETE CASCADE
        )";

pub const CREATE_TABLE_ORIGINS_SQL: &'static str = "CREATE TABLE moz_origins (
            id INTEGER PRIMARY KEY,
            prefix TEXT NOT NULL,
            host TEXT NOT NULL,
            rev_host TEXT NOT NULL,
            frecency INTEGER NOT NULL,
            UNIQUE (prefix, host)
        )";

/// Key-value metadata, such as the last sync time.
pub const CREATE_TABLE_META_SQL: &'static str = "CREATE TABLE moz_meta (
            key TEXT PRIMARY KEY,
            value NOT NULL
        ) WITHOUT ROWID";

pub const SET_VERSION_SQL: &'static str = "PRAGMA user_version = 0";

/// What opening a database must do to its schema.
#[derive(Debug, Clone, Copy, PartialEq, Eq, Structural)]
pub enum SchemaAction {
    /// A fresh database: create every table.
    Create,
    /// An older schema, at the given version: upgrade it.
    Upgrade(i64),
    /// A schema newer than this library knows, at the given version: use it
    /// as it is.
    Future(i64),
    /// Nothing to do.
    UpToDate,
}

/// The schema action for a database at `user_version`, given whether its
/// `tableList` table exists.
pub open spec fn schema_action(user_version: i64, table_list_exists: bool) -> SchemaAction {
    if user_version == 0 && !table_list_exists {
        SchemaAction::Create
    } else if user_version == VERSION {
        SchemaAction::UpToDate
    } else if user_version < VERSION {
        SchemaAction::Upgrade(user_version)
    } else {
        SchemaAction::Future(user_version)
    }
}

/// Decides what opening a database does to its schema.
pub fn init(user_version: i64, table_list_exists: bool) -> (r: SchemaAction)
    ensures
        r == schema_action(user_version, table_list_exists),
{
    if user_version == 0 && !table_list_exists {
        return SchemaAction::Create;
    }
    if user_version != VERSION {
        if user_version < VERSION {
            SchemaAction::Upgrade(user_version)
        } else {
            SchemaAction::Future(user_version)
        }
    } else {
        SchemaAction::UpToDate
    }
}

/// The statements that create the schema, in the order they run.
pub fn create() -> (r: Vec<&'static str>)
    ensures
        r@ == seq![
            CREATE_TABLE_PLACES_SQL,
            CREATE_TABLE_HISTORYVISITS_SQL,
            CREATE_TABLE_INPUTHISTORY_SQL,
            CREATE_TABLE_ORIGINS_SQL,
            CREATE_TABLE_META_SQL,
            SET_VERSION_SQL,
        ],
{
    vec![
        CREATE_TABLE_PLACES_SQL,
        CREATE_TABLE_HISTORYVISITS_SQL,
        CREATE_TABLE_INPUTHISTORY_SQL,
        CREATE_TABLE_ORIGINS_SQL,
        CREATE_TABLE_META_SQL,
        SET_VERSION_SQL,
    ]
}

} // verus!
