//! A concrete dialect: ANSI-style double-quote identifier quoting and
//! plain keyword syntax for the delegated constructs.
//!
//! Dialects form a flat set of interchangeable [`TableBuilder`]
//! implementations selected by the caller; this one supplies the required
//! hooks (column definition, type, constraint, index, foreign key,
//! partition, ALTER, RENAME) and inherits the proved CREATE/DROP/TRUNCATE
//! orchestration.

use vstd::prelude::*;

use crate::render::{join, lemma_join_push, lemma_prefixed_push, prefixed, quoted_ident};
use crate::table_builder::{prepare_ident, TableBuilder};
use crate::types::{
    ColumnDef, ColumnSpec, ColumnType, ForeignKeyCreateStatement, TableAlterOption,
    TableAlterStatement, TableIndex, TablePartition, TableRenameStatement,
};
use crate::writer::SqlWriter;

verus! {

/// The quote character this dialect wraps identifiers in.
pub const QUOTE: char = '"';

/// A dialect with ANSI-style quoting.
pub struct AnsiQueryBuilder;

/// The text this dialect gives one column type.
pub open spec fn ansi_column_type_text(column_type: ColumnType) -> Seq<char> {
    match column_type {
        ColumnType::Integer => "integer"@,
        ColumnType::Text => "text"@,
        ColumnType::Boolean => "boolean"@,
        ColumnType::Custom(s) => s@,
    }
}

/// The text this dialect gives one column constraint.
pub open spec fn ansi_column_spec_text(column_spec: ColumnSpec) -> Seq<char> {
    match column_spec {
        ColumnSpec::Null => "NULL"@,
        ColumnSpec::NotNull => "NOT NULL"@,
        ColumnSpec::AutoIncrement => "AUTO_INCREMENT"@,
        ColumnSpec::UniqueKey => "UNIQUE"@,
        ColumnSpec::PrimaryKey => "PRIMARY KEY"@,
        ColumnSpec::Default(s) => "DEFAULT "@ + s@,
    }
}

/// The text this dialect gives one column definition: quoted name,
/// space, type, then each constraint prefixed by a space.
pub open spec fn ansi_column_def_text(column_def: ColumnDef) -> Seq<char> {
    quoted_ident(QUOTE, column_def.name@) + " "@ + ansi_column_type_text(column_def.types)
        + prefixed(
        column_def.constraints@.map(|i: int, cs: ColumnSpec| ansi_column_spec_text(cs)),
        " "@,
    )
}

/// A comma-joined list of quoted identifiers.
pub open spec fn ansi_ident_list_text(names: Seq<String>) -> Seq<char> {
    join(names.map(|i: int, n: String| quoted_ident(QUOTE, n@)), ", "@)
}

/// The text this dialect gives one index expression.
pub open spec fn ansi_index_text(index: TableIndex) -> Seq<char> {
    "KEY "@ + quoted_ident(QUOTE, index.name@) + " ("@ + ansi_ident_list_text(index.columns@)
        + ")"@
}

/// The inline body of a foreign-key clause.
pub open spec fn ansi_foreign_key_inline_text(fk: ForeignKeyCreateStatement) -> Seq<char> {
    "CONSTRAINT "@ + quoted_ident(QUOTE, fk.name@) + " FOREIGN KEY ("@ + ansi_ident_list_text(
        fk.columns@,
    ) + ") REFERENCES "@ + quoted_ident(QUOTE, fk.ref_table@) + " ("@ + ansi_ident_list_text(
        fk.ref_columns@,
    ) + ")"@
}

/// The text this dialect gives one foreign-key clause: the inline body
/// alone inside a CREATE TABLE list, or prefixed by
/// `ALTER TABLE <table> ADD ` standalone.
pub open spec fn ansi_foreign_key_text(fk: ForeignKeyCreateStatement, inline: bool) -> Seq<char> {
    if inline {
        ansi_foreign_key_inline_text(fk)
    } else {
        "ALTER TABLE "@ + quoted_ident(QUOTE, fk.table@) + " ADD "@ + ansi_foreign_key_inline_text(
            fk,
        )
    }
}

/// The text this dialect gives one partitioning clause: the caller's
/// expression inserted verbatim after the keyword.
pub open spec fn ansi_partition_text(partition: TablePartition) -> Seq<char> {
    "PARTITION BY "@ + partition.expr@
}

/// The text this dialect gives the alteration inside an ALTER TABLE
/// statement.
pub open spec fn ansi_alter_option_text(option: TableAlterOption) -> Seq<char> {
    match option {
        TableAlterOption::AddColumn(cd) => "ADD COLUMN "@ + ansi_column_def_text(cd),
        TableAlterOption::ModifyColumn(cd) => "MODIFY COLUMN "@ + ansi_column_def_text(cd),
        TableAlterOption::RenameColumn(from, to) => "RENAME COLUMN "@ + quoted_ident(QUOTE, from@)
            + " TO "@ + quoted_ident(QUOTE, to@),
        TableAlterOption::DropColumn(name) => "DROP COLUMN "@ + quoted_ident(QUOTE, name@),
    }
}

/// The text this dialect gives one ALTER TABLE statement. An absent
/// table identifier or alteration is rendered as nothing.
pub open spec fn ansi_alter_text(alter: TableAlterStatement) -> Seq<char> {
    "ALTER TABLE "@ + (match alter.table {
        Some(name) => quoted_ident(QUOTE, name@) + " "@,
        None => Seq::<char>::empty(),
    }) + (match alter.option {
        Some(option) => ansi_alter_option_text(option),
        None => Seq::<char>::empty(),
    })
}

/// The text this dialect gives one RENAME TABLE statement. An absent
/// identifier is rendered as nothing.
pub open spec fn ansi_rename_text(rename: TableRenameStatement) -> Seq<char> {
    "RENAME TABLE "@ + (match rename.from_name {
        Some(name) => quoted_ident(QUOTE, name@) + " TO "@,
        None => Seq::<char>::empty(),
    }) + (match rename.to_name {
        Some(name) => quoted_ident(QUOTE, name@),
        None => Seq::<char>::empty(),
    })
}

/// Appends the quoted identifiers of `names` joined by `, `.
fn prepare_ident_list(names: &Vec<String>, sql: &mut SqlWriter)
    ensures
        final(sql)@ == old(sql)@ + ansi_ident_list_text(names@),
{
    let ghost quoted = names@.map(|i: int, n: String| quoted_ident(QUOTE, n@));
    let ghost list_start = sql@;
    let mut i: usize = 0;
    while i < names.len()
        invariant
            i <= names@.len(),
            quoted == names@.map(|j: int, n: String| quoted_ident(QUOTE, n@)),
            sql@ == list_start + join(quoted.take(i as int), ", "@),
        decreases names@.len() - i,
    {
        if i > 0 {
            sql.write_str(", ");
        }
        let name = &names[i];
        prepare_ident(name.as_str(), QUOTE, sql);
        proof {
            assert(quoted[i as int] == quoted_ident(QUOTE, names@[i as int]@));
            assert(quoted.take(i as int + 1) =~= quoted.take(i as int).push(quoted[i as int]));
            lemma_join_push(quoted.take(i as int), ", "@, quoted[i as int]);
        }
        i += 1;
    }
    proof {
        assert(quoted.take(quoted.len() as int) =~= quoted);
    }
}

impl TableBuilder for AnsiQueryBuilder {
    open spec fn quote_spec(&self) -> char {
        QUOTE
    }

    open spec fn column_def_text(&self, column_def: ColumnDef) -> Seq<char> {
        ansi_column_def_text(column_def)
    }

    open spec fn column_type_text(&self, column_type: ColumnType) -> Seq<char> {
        ansi_column_type_text(column_type)
    }

    open spec fn column_spec_text(&self, column_spec: ColumnSpec) -> Seq<char> {
        ansi_column_spec_text(column_spec)
    }

    open spec fn index_text(&self, index: TableIndex) -> Seq<char> {
        ansi_index_text(index)
    }

    open spec fn foreign_key_text(&self, foreign_key: ForeignKeyCreateStatement, inline: bool) -> Seq<
        char,
    > {
        ansi_foreign_key_text(foreign_key, inline)
    }

    open spec fn partition_text(&self, partition: TablePartition) -> Seq<char> {
        ansi_partition_text(partition)
    }

    open spec fn alter_text(&self, alter: TableAlterStatement) -> Seq<char> {
        ansi_alter_text(alter)
    }

    open spec fn rename_text(&self, rename: TableRenameStatement) -> Seq<char> {
        ansi_rename_text(rename)
    }

    fn quote(&self) -> (q: char) {
        QUOTE
    }

    fn prepare_column_def(&self, column_def: &ColumnDef, sql: &mut SqlWriter) {
        prepare_ident(column_def.name.as_str(), QUOTE, sql);
        sql.write_str(" ");
        self.prepare_column_type(&column_def.types, sql);
        proof {
            assert(self.column_type_text(column_def.types) == ansi_column_type_text(
                column_def.types,
            ));
        }

        let ghost cs_texts = column_def.constraints@.map(
            |j: int, cs: ColumnSpec| ansi_column_spec_text(cs),
        );
        let ghost cs_start = sql@;
        let mut i: usize = 0;
        while i < column_def.constraints.len()
            invariant
                i <= column_def.constraints@.len(),
                cs_texts == column_def.constraints@.map(
                    |j: int, cs: ColumnSpec| ansi_column_spec_text(cs),
                ),
                sql@ == cs_start + prefixed(cs_texts.take(i as int), " "@),
            decreases column_def.constraints@.len() - i,
        {
            sql.write_str(" ");
            self.prepare_column_spec(&column_def.constraints[i], sql);
            proof {
                assert(self.column_spec_text(column_def.constraints@[i as int])
                    == ansi_column_spec_text(column_def.constraints@[i as int]));
                assert(cs_texts[i as int] == ansi_column_spec_text(
                    column_def.constraints@[i as int],
                ));
                assert(cs_texts.take(i as int + 1) =~= cs_texts.take(i as int).push(
                    cs_texts[i as int],
                ));
                lemma_prefixed_push(cs_texts.take(i as int), " "@, cs_texts[i as int]);
            }
            i += 1;
        }
        proof {
            assert(cs_texts.take(cs_texts.len() as int) =~= cs_texts);
            assert(self.column_def_text(*column_def) == ansi_column_def_text(*column_def));
            assert(sql@ =~= old(sql)@ + ansi_column_def_text(*column_def));
        }
    }

    fn prepare_column_type(&self, column_type: &ColumnType, sql: &mut SqlWriter) {
        match column_type {
            ColumnType::Integer => sql.write_str("integer"),
            ColumnType::Text => sql.write_str("text"),
            ColumnType::Boolean => sql.write_str("boolean"),
            ColumnType::Custom(s) => sql.write_str(s.as_str()),
        }
        proof {
            assert(self.column_type_text(*column_type) == ansi_column_type_text(*column_type));
            assert(sql@ =~= old(sql)@ + ansi_column_type_text(*column_type));
        }
    }

    fn prepare_column_spec(&self, column_spec: &ColumnSpec, sql: &mut SqlWriter) {
        match column_spec {
            ColumnSpec::Null => sql.write_str("NULL"),
            ColumnSpec::NotNull => sql.write_str("NOT NULL"),
            ColumnSpec::AutoIncrement => sql.write_str("AUTO_INCREMENT"),
            ColumnSpec::UniqueKey => sql.write_str("UNIQUE"),
            ColumnSpec::PrimaryKey => sql.write_str("PRIMARY KEY"),
            ColumnSpec::Default(s) => {
                sql.write_str("DEFAULT ");
                sql.write_str(s.as_str());
            },
        }
        proof {
            assert(self.column_spec_text(*column_spec) == ansi_column_spec_text(*column_spec));
            assert(sql@ =~= old(sql)@ + ansi_column_spec_text(*column_spec));
        }
    }

    fn prepare_table_index_expression(&self, index: &TableIndex, sql: &mut SqlWriter) {
        sql.write_str("KEY ");
        prepare_ident(index.name.as_str(), QUOTE, sql);
        sql.write_str(" (");
        prepare_ident_list(&index.columns, sql);
        sql.write_str(")");
        proof {
            assert(self.index_text(*index) == ansi_index_text(*index));
            assert(sql@ =~= old(sql)@ + ansi_index_text(*index));
        }
    }

    fn prepare_foreign_key_create_statement_internal(
        &self,
        foreign_key: &ForeignKeyCreateStatement,
        sql: &mut SqlWriter,
        inline: bool,
    ) {
        if !inline {
            sql.write_str("ALTER TABLE ");
            prepare_ident(foreign_key.table.as_str(), QUOTE, sql);
            sql.write_str(" ADD ");
        }
        sql.write_str("CONSTRAINT ");
        prepare_ident(foreign_key.name.as_str(), QUOTE, sql);
        sql.write_str(" FOREIGN KEY (");
        prepare_ident_list(&foreign_key.columns, sql);
        sql.write_str(") REFERENCES ");
        prepare_ident(foreign_key.ref_table.as_str(), QUOTE, sql);
        sql.write_str(" (");
        prepare_ident_list(&foreign_key.ref_columns, sql);
        sql.write_str(")");
        proof {
            assert(self.foreign_key_text(*foreign_key, inline) == ansi_foreign_key_text(
                *foreign_key,
                inline,
            ));
            assert(sql@ =~= old(sql)@ + ansi_foreign_key_text(*foreign_key, inline));
        }
    }

    fn prepare_table_partition(&self, table_partition: &TablePartition, sql: &mut SqlWriter) {
        sql.write_str("PARTITION BY ");
        sql.write_str(table_partition.expr.as_str());
        proof {
            assert(self.partition_text(*table_partition) == ansi_partition_text(*table_partition));
            assert(sql@ =~= old(sql)@ + ansi_partition_text(*table_partition));
        }
    }

    fn prepare_table_alter_statement(&self, alter: &TableAlterStatement, sql: &mut SqlWriter) {
        sql.write_str("ALTER TABLE ");
        match &alter.table {
            Some(name) => {
                prepare_ident(name.as_str(), QUOTE, sql);
                sql.write_str(" ");
            },
            None => {},
        }
        match &alter.option {
            Some(option) => {
                match option {
                    TableAlterOption::AddColumn(cd) => {
                        sql.write_str("ADD COLUMN ");
                        self.prepare_column_def(cd, sql);
                        proof {
                            assert(self.column_def_text(*cd) == ansi_column_def_text(*cd));
                        }
                    },
                    TableAlterOption::ModifyColumn(cd) => {
                        sql.write_str("MODIFY COLUMN ");
                        self.prepare_column_def(cd, sql);
                        proof {
                            assert(self.column_def_text(*cd) == ansi_column_def_text(*cd));
                        }
                    },
                    TableAlterOption::RenameColumn(from, to) => {
                        sql.write_str("RENAME COLUMN ");
                        prepare_ident(from.as_str(), QUOTE, sql);
                        sql.write_str(" TO ");
                        prepare_ident(to.as_str(), QUOTE, sql);
                    },
                    TableAlterOption::DropColumn(name) => {
                        sql.write_str("DROP COLUMN ");
                        prepare_ident(name.as_str(), QUOTE, sql);
                    },
                }
            },
            None => {},
        }
        proof {
            assert(self.alter_text(*alter) == ansi_alter_text(*alter));
            assert(sql@ =~= old(sql)@ + ansi_alter_text(*alter));
        }
    }

    fn prepare_table_rename_statement(&self, rename: &TableRenameStatement, sql: &mut SqlWriter) {
        sql.write_str("RENAME TABLE ");
        match &rename.from_name {
            Some(name) => {
                prepare_ident(name.as_str(), QUOTE, sql);
                sql.write_str(" TO ");
            },
            None => {},
        }
        match &rename.to_name {
            Some(name) => {
                prepare_ident(name.as_str(), QUOTE, sql);
            },
            None => {},
        }
        proof {
            assert(self.rename_text(*rename) == ansi_rename_text(*rename));
            assert(sql@ =~= old(sql)@ + ansi_rename_text(*rename));
        }
    }
}

} // verus!
