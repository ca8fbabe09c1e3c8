//! Configuration for the synchronization engine: database connection
//! parameters, per-table query templates and scan state, and the global
//! polling cadence.

use vstd::prelude::*;

verus! {

/// Classifies a table's watermark column.  The tag is interpreted only by
/// the query-building collaborator, never by the engine itself.
#[derive(Clone, Copy, PartialEq, Eq, Structural, Debug)]
pub enum WhereClauseDataType {
    UnixTime,
    ID,
}

/// Column indices of a key/value pair inside a fetched row.
#[derive(Clone, Copy, PartialEq, Eq, Structural, Debug)]
pub struct KeyValConfig {
    pub key_index: usize,
    pub val_index: usize,
}

impl KeyValConfig {
    pub fn new(key_index: usize, val_index: usize) -> (r: KeyValConfig)
        ensures
            r.key_index == key_index,
            r.val_index == val_index,
    {
        KeyValConfig { key_index, val_index }
    }
}

impl Default for KeyValConfig {
    fn default() -> (r: KeyValConfig)
        ensures
            r.key_index == 1,
            r.val_index == 2,
    {
        KeyValConfig { key_index: 1, val_index: 2 }
    }
}

/// What [`TableConfig::default`] returns.
pub open spec fn is_default_table_config(r: &TableConfig) -> bool {
    &&& r.kanudo_table_name@ == "turing_vault_pan"@
    &&& r.select_query@ == "select id, hash, token, enc_value from turing_vault_pan where id > {id} "@
    &&& r.count_query@ == "select COUNT(*) from turing_vault_pan where id > {id} "@
    &&& r.where_clause_type == WhereClauseDataType::ID
    &&& r.id_index == 0
    &&& r.key_val_pairs@ == seq![
        KeyValConfig { key_index: 1, val_index: 2 },
        KeyValConfig { key_index: 2, val_index: 3 },
    ]
    &&& r.offset == 0
    &&& r.last_updated@ == ""@
    &&& r.total_rows == 0
}

/// Per-table configuration: the logical table name, the opaque query
/// templates, the watermark classifier, the key/value column layout, and the
/// scan-scoped working state (`offset`, `total_rows`).
pub struct TableConfig {
    pub kanudo_table_name: String,
    pub select_query: String,
    pub count_query: String,
    pub where_clause_type: WhereClauseDataType,
    pub id_index: usize,
    pub key_val_pairs: Vec<KeyValConfig>,
    pub offset: u64,
    pub last_updated: String,
    pub total_rows: u64,
}

/// Field-wise equality of two table configurations, comparing the text
/// fields by their character sequences.
pub open spec fn table_config_congruent(a: &TableConfig, b: &TableConfig) -> bool {
    &&& a.kanudo_table_name@ == b.kanudo_table_name@
    &&& a.select_query@ == b.select_query@
    &&& a.count_query@ == b.count_query@
    &&& a.where_clause_type == b.where_clause_type
    &&& a.id_index == b.id_index
    &&& a.key_val_pairs@ == b.key_val_pairs@
    &&& a.offset == b.offset
    &&& a.last_updated@ == b.last_updated@
    &&& a.total_rows == b.total_rows
}

impl Clone for TableConfig {
    fn clone(&self) -> (r: TableConfig)
        ensures
            table_config_congruent(&r, self),
    {
        TableConfig {
            kanudo_table_name: self.kanudo_table_name.clone(),
            select_query: self.select_query.clone(),
            count_query: self.count_query.clone(),
            where_clause_type: self.where_clause_type,
            id_index: self.id_index,
            key_val_pairs: self.key_val_pairs.clone(),
            offset: self.offset,
            last_updated: self.last_updated.clone(),
            total_rows: self.total_rows,
        }
    }
}

impl Default for TableConfig {
    fn default() -> (r: TableConfig)
        ensures
            is_default_table_config(&r),
    {
        let mut key_val: Vec<KeyValConfig> = Vec::with_capacity(2);
        key_val.push(KeyValConfig::new(1, 2));
        key_val.push(KeyValConfig::new(2, 3));
        proof {
            assert(key_val@ =~= seq![
                KeyValConfig { key_index: 1, val_index: 2 },
                KeyValConfig { key_index: 2, val_index: 3 },
            ]);
        }
        TableConfig {
            kanudo_table_name: "turing_vault_pan".to_owned(),
            select_query: "select id, hash, token, enc_value from turing_vault_pan where id > {id} "
                .to_owned(),
            count_query: "select COUNT(*) from turing_vault_pan where id > {id} ".to_owned(),
            where_clause_type: WhereClauseDataType::ID,
            id_index: 0,
            key_val_pairs: key_val,
            offset: 0,
            last_updated: "".to_owned(),
            total_rows: 0,
        }
    }
}

/// What [`DbConfig::default`] returns.
pub open spec fn is_default_db_config(r: &DbConfig) -> bool {
    &&& r.host@ == "localhost"@
    &&& r.port == 3306
    &&& r.user@ == "root"@
    &&& r.password@ == "root1234"@
    &&& r.db_name@ == "turing_db"@
    &&& r.read_timeout == 60000
    &&& r.write_timeout == 60000
    &&& r.tcp_connect_timeout == 60000
    &&& r.tcp_keepalive_time == 60000
}

/// Connection parameters for the database; timeouts are in milliseconds.
pub struct DbConfig {
    pub host: String,
    pub port: u16,
    pub user: String,
    pub password: String,
    pub db_name: String,
    pub read_timeout: u64,
    pub write_timeout: u64,
    pub tcp_connect_timeout: u64,
    pub tcp_keepalive_time: u32,
}

/// Field-wise equality of two database configurations.
pub open spec fn db_config_congruent(a: &DbConfig, b: &DbConfig) -> bool {
    &&& a.host@ == b.host@
    &&& a.port == b.port
    &&& a.user@ == b.user@
    &&& a.password@ == b.password@
    &&& a.db_name@ == b.db_name@
    &&& a.read_timeout == b.read_timeout
    &&& a.write_timeout == b.write_timeout
    &&& a.tcp_connect_timeout == b.tcp_connect_timeout
    &&& a.tcp_keepalive_time == b.tcp_keepalive_time
}

impl Clone for DbConfig {
    fn clone(&self) -> (r: DbConfig)
        ensures
            db_config_congruent(&r, self),
    {
        DbConfig {
            host: self.host.clone(),
            port: self.port,
            user: self.user.clone(),
            password: self.password.clone(),
            db_name: self.db_name.clone(),
            read_timeout: self.read_timeout,
            write_timeout: self.write_timeout,
            tcp_connect_timeout: self.tcp_connect_timeout,
            tcp_keepalive_time: self.tcp_keepalive_time,
        }
    }
}

impl Default for DbConfig {
    fn default() -> (r: DbConfig)
        ensures
            is_default_db_config(&r),
    {
        DbConfig {
            host: "localhost".to_owned(),
            port: 3306,
            user: "root".to_owned(),
            password: "root1234".to_owned(),
            db_name: "turing_db".to_owned(),
            read_timeout: 60000,
            write_timeout: 60000,
            tcp_connect_timeout: 60000,
            tcp_keepalive_time: 60000,
        }
    }
}

/// Engine configuration: the enabled flag, the connection parameters, the
/// configured tables (each entry pairs a table name with its configuration;
/// the engine processes entries in order), the inter-cycle sleep in
/// milliseconds, and the fetch batch size.
pub struct MySqlConfig {
    pub enabled: bool,
    pub db_config: DbConfig,
    pub tables: Vec<(String, TableConfig)>,
    pub periodic_fetch_duration: u32,
    pub fetch_limit: usize,
}

/// Field-wise equality of two engine configurations.
pub open spec fn my_sql_config_congruent(a: &MySqlConfig, b: &MySqlConfig) -> bool {
    &&& a.enabled == b.enabled
    &&& db_config_congruent(&a.db_config, &b.db_config)
    &&& a.tables@.len() == b.tables@.len()
    &&& forall|i: int|
        0 <= i < a.tables@.len() ==> {
            &&& (#[trigger] a.tables@[i]).0@ == b.tables@[i].0@
            &&& table_config_congruent(&a.tables@[i].1, &b.tables@[i].1)
        }
    &&& a.periodic_fetch_duration == b.periodic_fetch_duration
    &&& a.fetch_limit == b.fetch_limit
}

impl Clone for MySqlConfig {
    fn clone(&self) -> (r: MySqlConfig)
        ensures
            my_sql_config_congruent(&r, self),
    {
        let mut tables: Vec<(String, TableConfig)> = Vec::new();
        let mut i: usize = 0;
        while i < self.tables.len()
            invariant
                i <= self.tables@.len(),
                tables@.len() == i,
                forall|j: int|
                    0 <= j < i ==> {
                        &&& (#[trigger] tables@[j]).0@ == self.tables@[j].0@
                        &&& table_config_congruent(&tables@[j].1, &self.tables@[j].1)
                    },
            decreases self.tables@.len() - i,
        {
            let entry = &self.tables[i];
            tables.push((entry.0.clone(), entry.1.clone()));
            i = i + 1;
        }
        MySqlConfig {
            enabled: self.enabled,
            db_config: self.db_config.clone(),
            tables,
            periodic_fetch_duration: self.periodic_fetch_duration,
            fetch_limit: self.fetch_limit,
        }
    }
}

impl Default for MySqlConfig {
    fn default() -> (r: MySqlConfig)
        ensures
            r.enabled == true,
            is_default_db_config(&r.db_config),
            r.tables@.len() == 1,
            r.tables@[0].0@ == "turing_vault_pan"@,
            is_default_table_config(&r.tables@[0].1),
            r.periodic_fetch_duration == 10000,
            r.fetch_limit == 5000,
    {
        let mut tables: Vec<(String, TableConfig)> = Vec::with_capacity(1);
        tables.push(("turing_vault_pan".to_owned(), TableConfig::default()));
        MySqlConfig {
            enabled: true,
            db_config: DbConfig::default(),
            tables,
            periodic_fetch_duration: 10000,
            fetch_limit: 5000,
        }
    }
}

} // verus!
