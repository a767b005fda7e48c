use table_sql::dialect::AnsiQueryBuilder;
use table_sql::table_builder::TableBuilder;
use table_sql::types::{
    ColumnDef, ColumnSpec, ColumnType, ForeignKeyCreateStatement, TableAlterOption,
    TableAlterStatement, TableCreateStatement, TableDropOpt, TableDropStatement, TableIndex,
    TableOpt, TablePartition, TableRenameStatement, TableTruncateStatement,
};
use table_sql::writer::SqlWriter;

fn column(name: &str, types: ColumnType, constraints: Vec<ColumnSpec>) -> ColumnDef {
    ColumnDef { name: name.to_string(), types, constraints }
}

fn empty_create(table: Option<&str>, if_not_exists: bool) -> TableCreateStatement {
    TableCreateStatement {
        table: table.map(|t| t.to_string()),
        columns: Vec::new(),
        indexes: Vec::new(),
        foreign_keys: Vec::new(),
        options: Vec::new(),
        if_not_exists,
    }
}

fn render_create(create: &TableCreateStatement) -> String {
    let builder = AnsiQueryBuilder;
    let mut sql = SqlWriter::new();
    builder.prepare_table_create_statement(create, &mut sql);
    sql.into_string()
}

fn render_drop(drop: &TableDropStatement) -> String {
    let builder = AnsiQueryBuilder;
    let mut sql = SqlWriter::new();
    builder.prepare_table_drop_statement(drop, &mut sql);
    sql.into_string()
}

#[test]
fn quote_is_double_quote() {
    let builder = AnsiQueryBuilder;
    assert_eq!(builder.quote(), '"');
}

#[test]
fn create_if_not_exists_prefix() {
    let mut create = empty_create(Some("t"), true);
    create.columns.push(column("a", ColumnType::Integer, Vec::new()));
    let out = render_create(&create);
    assert!(out.starts_with("CREATE TABLE IF NOT EXISTS \"t\""));
    assert_eq!(out, "CREATE TABLE IF NOT EXISTS \"t\" ( \"a\" integer )");
}

#[test]
fn create_empty_statement() {
    let create = empty_create(Some("t"), false);
    assert_eq!(render_create(&create), "CREATE TABLE \"t\" (  )");
}

#[test]
fn create_without_table_name() {
    let mut create = empty_create(None, false);
    create.columns.push(column("a", ColumnType::Integer, Vec::new()));
    assert_eq!(render_create(&create), "CREATE TABLE  ( \"a\" integer )");
}

#[test]
fn create_list_has_one_less_comma_than_elements() {
    let mut create = empty_create(Some("t"), false);
    create.columns.push(column("a", ColumnType::Integer, Vec::new()));
    create.columns.push(column("b", ColumnType::Integer, Vec::new()));
    create.columns.push(column("c", ColumnType::Integer, Vec::new()));
    let out = render_create(&create);
    assert_eq!(out, "CREATE TABLE \"t\" ( \"a\" integer, \"b\" integer, \"c\" integer )");
    assert_eq!(out.matches(", ").count(), 2);
    assert!(!out.contains("( ,"));
    assert!(!out.contains(", )"));
}

#[test]
fn create_comma_spans_list_boundaries() {
    let mut create = empty_create(Some("t"), false);
    create.columns.push(column("a", ColumnType::Integer, Vec::new()));
    create.indexes.push(TableIndex { name: "k".to_string(), columns: vec!["a".to_string()] });
    let out = render_create(&create);
    assert_eq!(out, "CREATE TABLE \"t\" ( \"a\" integer, KEY \"k\" (\"a\") )");
    assert_eq!(out.matches(", ").count(), 1);
}

#[test]
fn create_fragments_keep_input_order() {
    let mut create = empty_create(Some("t"), false);
    create.columns.push(column("a", ColumnType::Integer, Vec::new()));
    create.columns.push(column("b", ColumnType::Text, Vec::new()));
    create.indexes.push(TableIndex { name: "k".to_string(), columns: vec!["a".to_string()] });
    create.foreign_keys.push(ForeignKeyCreateStatement {
        name: "fk_1".to_string(),
        table: "t".to_string(),
        columns: vec!["b".to_string()],
        ref_table: "other".to_string(),
        ref_columns: vec!["c".to_string()],
    });
    let out = render_create(&create);
    let col_a = out.find("\"a\" integer").unwrap();
    let col_b = out.find("\"b\" text").unwrap();
    let idx = out.find("KEY \"k\"").unwrap();
    let fk = out.find("CONSTRAINT \"fk_1\"").unwrap();
    assert!(col_a < col_b);
    assert!(col_b < idx);
    assert!(idx < fk);
}

#[test]
fn create_full_statement() {
    let mut create = empty_create(Some("tbl"), false);
    create.columns.push(column(
        "id",
        ColumnType::Integer,
        vec![ColumnSpec::NotNull, ColumnSpec::AutoIncrement, ColumnSpec::PrimaryKey],
    ));
    create.columns.push(column("name", ColumnType::Text, vec![ColumnSpec::NotNull]));
    create.indexes.push(TableIndex { name: "idx".to_string(), columns: vec!["name".to_string()] });
    create.foreign_keys.push(ForeignKeyCreateStatement {
        name: "fk_1".to_string(),
        table: "tbl".to_string(),
        columns: vec!["name".to_string()],
        ref_table: "other".to_string(),
        ref_columns: vec!["oname".to_string()],
    });
    create.options.push(TableOpt::Engine("InnoDB".to_string()));
    create.options.push(TableOpt::CharacterSet("utf8".to_string()));
    let out = render_create(&create);
    assert_eq!(
        out,
        "CREATE TABLE \"tbl\" ( \
         \"id\" integer NOT NULL AUTO_INCREMENT PRIMARY KEY, \
         \"name\" text NOT NULL, \
         KEY \"idx\" (\"name\"), \
         CONSTRAINT \"fk_1\" FOREIGN KEY (\"name\") REFERENCES \"other\" (\"oname\") ) \
         ENGINE=InnoDB DEFAULT CHARSET=utf8"
    );
}

#[test]
fn create_column_with_default_and_custom_type() {
    let mut create = empty_create(Some("t"), false);
    create.columns.push(column(
        "c",
        ColumnType::Custom("varchar(255)".to_string()),
        vec![ColumnSpec::Default("'x'".to_string()), ColumnSpec::UniqueKey, ColumnSpec::Null],
    ));
    create.columns.push(column("f", ColumnType::Boolean, Vec::new()));
    let out = render_create(&create);
    assert_eq!(
        out,
        "CREATE TABLE \"t\" ( \"c\" varchar(255) DEFAULT 'x' UNIQUE NULL, \"f\" boolean )"
    );
}

#[test]
fn table_opt_engine_exact_token() {
    let builder = AnsiQueryBuilder;
    for _ in 0..2 {
        let mut sql = SqlWriter::new();
        builder.prepare_table_opt(&TableOpt::Engine("InnoDB".to_string()), &mut sql);
        assert_eq!(sql.into_string(), "ENGINE=InnoDB");
    }
}

#[test]
fn table_opt_collate_and_charset_tokens() {
    let builder = AnsiQueryBuilder;
    let mut sql = SqlWriter::new();
    builder.prepare_table_opt(&TableOpt::Collate("utf8_bin".to_string()), &mut sql);
    assert_eq!(sql.into_string(), "COLLATE=utf8_bin");
    let mut sql = SqlWriter::new();
    builder.prepare_table_opt(&TableOpt::CharacterSet("utf8".to_string()), &mut sql);
    assert_eq!(sql.into_string(), "DEFAULT CHARSET=utf8");
}

#[test]
fn drop_opt_cascade_exact_keyword() {
    let builder = AnsiQueryBuilder;
    for _ in 0..2 {
        let mut sql = SqlWriter::new();
        builder.prepare_table_drop_opt(&TableDropOpt::Cascade, &mut sql);
        assert_eq!(sql.into_string(), "CASCADE");
    }
}

#[test]
fn drop_two_tables_if_exists_cascade() {
    let drop = TableDropStatement {
        tables: vec!["a".to_string(), "b".to_string()],
        options: vec![TableDropOpt::Cascade],
        if_exists: true,
    };
    assert_eq!(render_drop(&drop), "DROP TABLE IF EXISTS \"a\", \"b\" CASCADE");
}

#[test]
fn drop_single_table_restrict() {
    let drop = TableDropStatement {
        tables: vec!["t".to_string()],
        options: vec![TableDropOpt::Restrict],
        if_exists: false,
    };
    assert_eq!(render_drop(&drop), "DROP TABLE \"t\" RESTRICT");
}

#[test]
fn truncate_with_table() {
    let builder = AnsiQueryBuilder;
    let mut sql = SqlWriter::new();
    let truncate = TableTruncateStatement { table: Some("t".to_string()) };
    builder.prepare_table_truncate_statement(&truncate, &mut sql);
    assert_eq!(sql.into_string(), "TRUNCATE TABLE \"t\"");
}

#[test]
fn truncate_without_table() {
    let builder = AnsiQueryBuilder;
    let mut sql = SqlWriter::new();
    let truncate = TableTruncateStatement { table: None };
    builder.prepare_table_truncate_statement(&truncate, &mut sql);
    assert_eq!(sql.into_string(), "TRUNCATE TABLE ");
}

#[test]
fn index_expression_with_two_columns() {
    let builder = AnsiQueryBuilder;
    let mut sql = SqlWriter::new();
    let index = TableIndex {
        name: "k".to_string(),
        columns: vec!["a".to_string(), "b".to_string()],
    };
    builder.prepare_table_index_expression(&index, &mut sql);
    assert_eq!(sql.into_string(), "KEY \"k\" (\"a\", \"b\")");
}

#[test]
fn foreign_key_standalone_form() {
    let builder = AnsiQueryBuilder;
    let mut sql = SqlWriter::new();
    let fk = ForeignKeyCreateStatement {
        name: "fk_1".to_string(),
        table: "t".to_string(),
        columns: vec!["a".to_string()],
        ref_table: "other".to_string(),
        ref_columns: vec!["b".to_string()],
    };
    builder.prepare_foreign_key_create_statement_internal(&fk, &mut sql, false);
    assert_eq!(
        sql.into_string(),
        "ALTER TABLE \"t\" ADD CONSTRAINT \"fk_1\" FOREIGN KEY (\"a\") REFERENCES \"other\" (\"b\")"
    );
}

#[test]
fn partition_clause() {
    let builder = AnsiQueryBuilder;
    let mut sql = SqlWriter::new();
    let partition = TablePartition { expr: "RANGE (id)".to_string() };
    builder.prepare_table_partition(&partition, &mut sql);
    assert_eq!(sql.into_string(), "PARTITION BY RANGE (id)");
}

#[test]
fn alter_add_column() {
    let builder = AnsiQueryBuilder;
    let mut sql = SqlWriter::new();
    let alter = TableAlterStatement {
        table: Some("t".to_string()),
        option: Some(TableAlterOption::AddColumn(column(
            "c",
            ColumnType::Integer,
            vec![ColumnSpec::NotNull],
        ))),
    };
    builder.prepare_table_alter_statement(&alter, &mut sql);
    assert_eq!(sql.into_string(), "ALTER TABLE \"t\" ADD COLUMN \"c\" integer NOT NULL");
}

#[test]
fn alter_modify_rename_and_drop_column() {
    let builder = AnsiQueryBuilder;

    let mut sql = SqlWriter::new();
    let alter = TableAlterStatement {
        table: Some("t".to_string()),
        option: Some(TableAlterOption::ModifyColumn(column("c", ColumnType::Text, Vec::new()))),
    };
    builder.prepare_table_alter_statement(&alter, &mut sql);
    assert_eq!(sql.into_string(), "ALTER TABLE \"t\" MODIFY COLUMN \"c\" text");

    let mut sql = SqlWriter::new();
    let alter = TableAlterStatement {
        table: Some("t".to_string()),
        option: Some(TableAlterOption::RenameColumn("a".to_string(), "b".to_string())),
    };
    builder.prepare_table_alter_statement(&alter, &mut sql);
    assert_eq!(sql.into_string(), "ALTER TABLE \"t\" RENAME COLUMN \"a\" TO \"b\"");

    let mut sql = SqlWriter::new();
    let alter = TableAlterStatement {
        table: Some("t".to_string()),
        option: Some(TableAlterOption::DropColumn("c".to_string())),
    };
    builder.prepare_table_alter_statement(&alter, &mut sql);
    assert_eq!(sql.into_string(), "ALTER TABLE \"t\" DROP COLUMN \"c\"");
}

#[test]
fn rename_table() {
    let builder = AnsiQueryBuilder;
    let mut sql = SqlWriter::new();
    let rename = TableRenameStatement {
        from_name: Some("a".to_string()),
        to_name: Some("b".to_string()),
    };
    builder.prepare_table_rename_statement(&rename, &mut sql);
    assert_eq!(sql.into_string(), "RENAME TABLE \"a\" TO \"b\"");
}

#[test]
fn writer_accumulates_appends() {
    let mut sql = SqlWriter::new();
    sql.write_str("DROP ");
    sql.write_char('T');
    sql.write_str("ABLE");
    assert_eq!(sql.into_string(), "DROP TABLE");
}
