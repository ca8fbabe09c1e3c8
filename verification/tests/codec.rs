use mysql_updater::util::{MySqlUtils, SqlValue};

#[test]
fn it_works() {
    assert_eq!(2 + 2, 4);
}

#[test]
fn null_is_empty() {
    assert_eq!(MySqlUtils::convert_to_sql_string(SqlValue::Null), "");
}

#[test]
fn integers_are_plain_decimal() {
    assert_eq!(MySqlUtils::convert_to_sql_string(SqlValue::Int(0)), "0");
    assert_eq!(MySqlUtils::convert_to_sql_string(SqlValue::Int(42)), "42");
    assert_eq!(MySqlUtils::convert_to_sql_string(SqlValue::Int(-7)), "-7");
    assert_eq!(
        MySqlUtils::convert_to_sql_string(SqlValue::Int(i64::MIN)),
        "-9223372036854775808"
    );
    assert_eq!(
        MySqlUtils::convert_to_sql_string(SqlValue::UInt(u64::MAX)),
        "18446744073709551615"
    );
    assert_eq!(MySqlUtils::convert_to_sql_string(SqlValue::UInt(1000)), "1000");
}

#[test]
fn float_text_passes_through() {
    assert_eq!(
        MySqlUtils::convert_to_sql_string(SqlValue::Float("3.25".to_string())),
        "3.25"
    );
}

#[test]
fn date_with_zero_time_is_date_only() {
    assert_eq!(
        MySqlUtils::convert_to_sql_string(SqlValue::Date(2023, 1, 15, 0, 0, 0, 0)),
        "2023-01-15"
    );
}

#[test]
fn date_with_time_and_zero_fraction() {
    assert_eq!(
        MySqlUtils::convert_to_sql_string(SqlValue::Date(2023, 1, 15, 10, 30, 0, 0)),
        "2023-01-15 10:30:00"
    );
}

#[test]
fn date_with_fraction_is_quoted() {
    assert_eq!(
        MySqlUtils::convert_to_sql_string(SqlValue::Date(2023, 1, 15, 10, 30, 0, 500000)),
        "'2023-01-15 10:30:00.500000'"
    );
}

#[test]
fn midnight_with_fraction_is_still_quoted() {
    assert_eq!(
        MySqlUtils::convert_to_sql_string(SqlValue::Date(2023, 1, 15, 0, 0, 0, 1)),
        "'2023-01-15 00:00:00.000001'"
    );
}

#[test]
fn negative_duration_folds_days_into_hours() {
    assert_eq!(
        MySqlUtils::convert_to_sql_string(SqlValue::Time(true, 1, 2, 3, 4, 0)),
        "-026:03:04"
    );
}

#[test]
fn positive_duration_with_fraction() {
    assert_eq!(
        MySqlUtils::convert_to_sql_string(SqlValue::Time(false, 0, 5, 6, 7, 123)),
        "005:06:07.000123"
    );
}

#[test]
fn large_duration_widens_the_hour_field() {
    assert_eq!(
        MySqlUtils::convert_to_sql_string(SqlValue::Time(false, 100, 0, 0, 0, 0)),
        "2400:00:00"
    );
}

#[test]
fn invalid_bytes_render_as_hex() {
    assert_eq!(
        MySqlUtils::convert_to_sql_string(SqlValue::Bytes(vec![0xFF, 0x00])),
        "0xFF00"
    );
}

#[test]
fn valid_bytes_decode_as_text() {
    assert_eq!(
        MySqlUtils::convert_to_sql_string(SqlValue::Bytes(b"hello".to_vec())),
        "hello"
    );
}

#[test]
fn empty_bytes_decode_as_empty_text() {
    assert_eq!(MySqlUtils::convert_to_sql_string(SqlValue::Bytes(Vec::new())), "");
}

#[test]
fn multibyte_utf8_decodes_as_text() {
    assert_eq!(
        MySqlUtils::convert_to_sql_string(SqlValue::Bytes("héllo".as_bytes().to_vec())),
        "héllo"
    );
}

#[test]
fn decode_rows_preserves_order() {
    let rows = vec![
        vec![SqlValue::Int(1), SqlValue::Bytes(b"a".to_vec())],
        vec![SqlValue::Int(2), SqlValue::Bytes(vec![0xC0])],
    ];
    let decoded = MySqlUtils::decode_rows(rows);
    assert_eq!(decoded, vec![
        vec!["1".to_string(), "a".to_string()],
        vec!["2".to_string(), "0xC0".to_string()],
    ]);
}
