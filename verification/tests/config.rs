use mysql_updater::config::{DbConfig, KeyValConfig, MySqlConfig, TableConfig, WhereClauseDataType};

#[test]
fn key_val_config_new_keeps_indices() {
    let kv = KeyValConfig::new(3, 9);
    assert_eq!(kv.key_index, 3);
    assert_eq!(kv.val_index, 9);
}

#[test]
fn key_val_config_default_indices() {
    let kv = KeyValConfig::default();
    assert_eq!(kv.key_index, 1);
    assert_eq!(kv.val_index, 2);
}

#[test]
fn table_config_default_values() {
    let t = TableConfig::default();
    assert_eq!(t.kanudo_table_name, "turing_vault_pan");
    assert_eq!(
        t.select_query,
        "select id, hash, token, enc_value from turing_vault_pan where id > {id} "
    );
    assert_eq!(t.count_query, "select COUNT(*) from turing_vault_pan where id > {id} ");
    assert!(matches!(t.where_clause_type, WhereClauseDataType::ID));
    assert_eq!(t.id_index, 0);
    assert_eq!(t.key_val_pairs, vec![KeyValConfig::new(1, 2), KeyValConfig::new(2, 3)]);
    assert_eq!(t.offset, 0);
    assert_eq!(t.last_updated, "");
    assert_eq!(t.total_rows, 0);
}

#[test]
fn db_config_default_values() {
    let d = DbConfig::default();
    assert_eq!(d.host, "localhost");
    assert_eq!(d.port, 3306);
    assert_eq!(d.user, "root");
    assert_eq!(d.password, "root1234");
    assert_eq!(d.db_name, "turing_db");
    assert_eq!(d.read_timeout, 60000);
    assert_eq!(d.write_timeout, 60000);
    assert_eq!(d.tcp_connect_timeout, 60000);
    assert_eq!(d.tcp_keepalive_time, 60000);
}

#[test]
fn my_sql_config_default_values() {
    let c = MySqlConfig::default();
    assert!(c.enabled);
    assert_eq!(c.periodic_fetch_duration, 10000);
    assert_eq!(c.fetch_limit, 5000);
    assert_eq!(c.tables.len(), 1);
    assert_eq!(c.tables[0].0, "turing_vault_pan");
    assert_eq!(c.tables[0].1.kanudo_table_name, "turing_vault_pan");
}

#[test]
fn config_clone_is_faithful() {
    let c = MySqlConfig::default();
    let d = c.clone();
    assert_eq!(d.tables.len(), c.tables.len());
    assert_eq!(d.tables[0].0, c.tables[0].0);
    assert_eq!(d.db_config.host, c.db_config.host);
    assert_eq!(d.fetch_limit, c.fetch_limit);
}
