//! Shared data shapes: connection settings, schema introspection results,
//! grid requests and the small result records of the host operations.

use vstd::prelude::*;

use crate::json::Row;

verus! {

/// TLS settings of a connection. `mode` is one of `disabled`, `required`,
/// `verify-ca` or `verify-identity`; the other fields are file paths.
#[derive(Debug, PartialEq)]
pub struct SslConfig {
    pub mode: String,
    pub ca: Option<String>,
    pub cert: Option<String>,
    pub key: Option<String>,
}

/// A copy of an optional string.
pub fn copy_opt(o: &Option<String>) -> (r: Option<String>)
    ensures
        r == *o,
{
    match o {
        Some(s) => Some(s.clone()),
        None => None,
    }
}

impl Clone for SslConfig {
    fn clone(&self) -> (r: Self)
        ensures
            r == *self,
    {
        SslConfig {
            mode: self.mode.clone(),
            ca: copy_opt(&self.ca),
            cert: copy_opt(&self.cert),
            key: copy_opt(&self.key),
        }
    }
}

/// SSH tunnel settings of a connection. `auth_method` is `password` or `key`.
#[derive(Debug, PartialEq)]
pub struct SshConfig {
    pub enabled: bool,
    pub host: String,
    pub port: u16,
    pub username: String,
    pub auth_method: String,
    pub password: Option<String>,
    pub key_path: Option<String>,
}

impl Clone for SshConfig {
    fn clone(&self) -> (r: Self)
        ensures
            r == *self,
    {
        SshConfig {
            enabled: self.enabled,
            host: self.host.clone(),
            port: self.port,
            username: self.username.clone(),
            auth_method: self.auth_method.clone(),
            password: copy_opt(&self.password),
            key_path: copy_opt(&self.key_path),
        }
    }
}

/// The part of a stored connection that the database layer consumes.
/// `kind` is `postgres`, `mysql` or `sqlite`.
#[derive(Debug, PartialEq)]
pub struct ConnectionConfig {
    pub id: String,
    pub kind: String,
    pub host: String,
    pub port: u16,
    pub database: String,
    pub username: String,
    pub password: String,
    pub filepath: Option<String>,
    pub ssl: Option<SslConfig>,
    pub ssh: Option<SshConfig>,
    pub startup_commands: Option<String>,
}

impl Clone for ConnectionConfig {
    fn clone(&self) -> (r: Self)
        ensures
            r == *self,
    {
        ConnectionConfig {
            id: self.id.clone(),
            kind: self.kind.clone(),
            host: self.host.clone(),
            port: self.port,
            database: self.database.clone(),
            username: self.username.clone(),
            password: self.password.clone(),
            filepath: copy_opt(&self.filepath),
            ssl: match &self.ssl {
                Some(s) => Some(s.clone()),
                None => None,
            },
            ssh: match &self.ssh {
                Some(s) => Some(s.clone()),
                None => None,
            },
            startup_commands: copy_opt(&self.startup_commands),
        }
    }
}

/// A saved connection. `kind` is `postgres`, `sqlite` or `mysql`;
/// `safe_mode` is `off`, `confirm` or `readonly`; members the application
/// does not know are kept in `extra` so that they survive a save.
#[derive(Debug)]
pub struct StoredConnection {
    pub id: String,
    pub name: String,
    pub kind: String,
    pub host: String,
    pub port: u16,
    pub database: String,
    pub username: String,
    pub password: String,
    pub color: String,
    pub filepath: Option<String>,
    pub ssl: Option<SslConfig>,
    pub ssh: Option<SshConfig>,
    pub startup_commands: Option<String>,
    pub safe_mode: Option<String>,
    pub group: Option<String>,
    pub tags: Option<Vec<String>>,
    pub extra: Row,
}

impl StoredConnection {
    /// What the database layer sees of the connection: everything but the
    /// display-only settings (name, colour, safe mode, group, tags, extras).
    pub fn config(&self) -> (r: ConnectionConfig)
        ensures
            r.id == self.id,
            r.kind == self.kind,
            r.host == self.host,
            r.port == self.port,
            r.database == self.database,
            r.username == self.username,
            r.password == self.password,
            r.filepath == self.filepath,
            r.ssl == self.ssl,
            r.ssh == self.ssh,
            r.startup_commands == self.startup_commands,
    {
        ConnectionConfig {
            id: self.id.clone(),
            kind: self.kind.clone(),
            host: self.host.clone(),
            port: self.port,
            database: self.database.clone(),
            username: self.username.clone(),
            password: self.password.clone(),
            filepath: copy_opt(&self.filepath),
            ssl: match &self.ssl {
                Some(s) => Some(s.clone()),
                None => None,
            },
            ssh: match &self.ssh {
                Some(s) => Some(s.clone()),
                None => None,
            },
            startup_commands: copy_opt(&self.startup_commands),
        }
    }
}

/// A table or view of the connected database. `kind` is `table` or `view`;
/// `row_count` is `None` when unknown.
#[derive(Clone, Debug, PartialEq)]
pub struct TableInfo {
    pub name: String,
    pub kind: String,
    pub row_count: Option<i64>,
}

/// One column of a table.
#[derive(Clone, Debug, PartialEq)]
pub struct ColumnInfo {
    pub name: String,
    pub data_type: String,
    pub nullable: bool,
    pub default_value: Option<String>,
    pub is_primary_key: bool,
    pub comment: Option<String>,
}

/// One index of a table.
#[derive(Clone, Debug, PartialEq)]
pub struct IndexInfo {
    pub name: String,
    pub columns: Vec<String>,
    pub kind: String,
    pub unique: bool,
}

/// One foreign key of a table.
#[derive(Clone, Debug, PartialEq)]
pub struct ForeignKeyInfo {
    pub name: String,
    pub columns: Vec<String>,
    pub referenced_table: String,
    pub referenced_columns: Vec<String>,
    pub on_delete: String,
    pub on_update: String,
}

/// Columns, indexes and foreign keys of one table.
#[derive(Clone, Debug, PartialEq)]
pub struct TableStructure {
    pub columns: Vec<ColumnInfo>,
    pub indexes: Vec<IndexInfo>,
    pub foreign_keys: Vec<ForeignKeyInfo>,
}

/// One condition of the grid's filter panel.
#[derive(Clone, Debug, PartialEq)]
pub struct FilterCondition {
    pub id: String,
    pub column: String,
    pub operator: String,
    pub value: String,
    pub value2: Option<String>,
}

/// The grid's sort: a column and `asc` or `desc`.
#[derive(Clone, Debug, PartialEq)]
pub struct SortSpec {
    pub column: String,
    pub direction: String,
}

/// A page request of the data grid; `page` counts from 1.
#[derive(Clone, Debug, PartialEq)]
pub struct RowsRequest {
    pub table: String,
    pub page: u64,
    pub page_size: u64,
    pub sort: Option<SortSpec>,
    pub filters: Option<Vec<FilterCondition>>,
    pub filter_logic: Option<String>,
}

/// One executed statement of the query history.
#[derive(Clone, Debug, PartialEq)]
pub struct HistoryEntry {
    pub id: String,
    pub sql: String,
    pub connection_id: String,
    pub executed_at: String,
    pub execution_time: u64,
    pub rows_affected: u64,
    pub error: Option<String>,
}

/// A saved query.
#[derive(Clone, Debug, PartialEq)]
pub struct Favorite {
    pub id: String,
    pub name: String,
    pub sql: String,
    pub created_at: String,
}

/// A query editor tab kept across restarts.
#[derive(Clone, Debug, PartialEq)]
pub struct SavedTab {
    pub id: String,
    pub title: String,
    pub sql: String,
}

/// One step of a macro. `action` is `query`, `navigate` or `switchdb`.
#[derive(Debug)]
pub struct MacroStep {
    pub action: String,
    pub params: Row,
}

/// A recorded macro: named steps, with optional parameters and shortcut.
#[derive(Debug)]
pub struct Macro {
    pub id: String,
    pub name: String,
    pub steps: Vec<MacroStep>,
    pub parameters: Option<Vec<String>>,
    pub shortcut: Option<String>,
    pub created_at: String,
}

/// A plugin's manifest. `kind` is `driver`, `export` or `theme`; members
/// the application does not know are kept in `extra`.
#[derive(Debug)]
pub struct PluginManifest {
    pub name: String,
    pub version: String,
    pub description: String,
    pub kind: String,
    pub author: Option<String>,
    pub entry: Option<String>,
    pub extra: Row,
}

/// An installed plugin: its manifest, where it lives, and whether it is on.
#[derive(Debug)]
pub struct InstalledPlugin {
    pub manifest: PluginManifest,
    pub path: String,
    pub enabled: bool,
}

/// One difference between two schemas. `kind` is `added`, `removed` or
/// `modified`.
#[derive(Clone, Debug, PartialEq)]
pub struct SchemaDiff {
    pub table: String,
    pub kind: String,
    pub details: String,
    pub sql: String,
}

/// A frequent value of a column and how often it occurs.
#[derive(Clone, Debug, PartialEq)]
pub struct TopValue {
    pub value: String,
    pub count: i64,
}

/// How many statements of an import ran before the first failure, and that
/// failure.
#[derive(Clone, Debug, PartialEq)]
pub struct ImportResult {
    pub inserted: u64,
    pub total: u64,
    pub error: Option<String>,
}

/// Outcome of running one imported SQL statement.
#[derive(Clone, Debug, PartialEq)]
pub struct ImportSqlResult {
    pub success: bool,
    pub error: Option<String>,
    pub rows_affected: u64,
}

/// Where an export was written, and how many rows it holds.
#[derive(Clone, Debug, PartialEq)]
pub struct ExportFileResult {
    pub path: Option<String>,
    pub rows: u64,
}

/// Outcome of a connection test.
#[derive(Clone, Debug, PartialEq)]
pub struct ConnectionTestResult {
    pub ok: bool,
    pub version: Option<String>,
    pub error: Option<String>,
}

/// Health of a watched connection.
#[derive(Clone, Copy, Debug, PartialEq, Eq, Structural)]
pub enum Health {
    Healthy,
    Degraded,
    Disconnected,
}

} // verus!
