//! The table-statement renderer: a capability interface one dialect
//! implements.
//!
//! The CREATE/DROP/TRUNCATE orchestration and the option-keyword mappings
//! carry default bodies, proved here once for every dialect. The nested
//! constructs (column definitions, types, constraints, indexes, foreign
//! keys, partitions) and the ALTER/RENAME statements are required hooks:
//! each dialect supplies the body together with a spec function naming the
//! exact text it appends.

use vstd::prelude::*;

use crate::render::{
    create_statement_text, drop_opt_text, drop_statement_text, join, lemma_join_push,
    lemma_prefixed_push, prefixed, quoted_ident, table_opt_text,
    truncate_statement_text,
};
use crate::types::{
    ColumnDef, ColumnSpec, ColumnType, ForeignKeyCreateStatement, TableAlterStatement,
    TableCreateStatement, TableDropOpt, TableDropStatement, TableIndex, TableOpt, TablePartition,
    TableRenameStatement, TableTruncateStatement,
};
use crate::writer::SqlWriter;

verus! {

/// Appends one identifier wrapped in the dialect's quote character: the
/// single insertion point at which the quoting policy is applied.
pub fn prepare_ident(name: &str, q: char, sql: &mut SqlWriter)
    ensures
        final(sql)@ == old(sql)@ + quoted_ident(q, name@),
{
    sql.write_char(q);
    sql.write_str(name);
    sql.write_char(q);
    proof {
        assert(sql@ =~= old(sql)@ + quoted_ident(q, name@));
    }
}

/// The fragments of a CREATE TABLE element list in rendering order:
/// column definitions first, then index expressions, then foreign-key
/// clauses in their inline form, each list kept in input order.
pub open spec fn create_fragments<B: TableBuilder>(b: &B, create: TableCreateStatement) -> Seq<
    Seq<char>,
> {
    create.columns@.map(|i: int, cd: ColumnDef| b.column_def_text(cd))
        + create.indexes@.map(|i: int, ix: TableIndex| b.index_text(ix))
        + create.foreign_keys@.map(
        |i: int, fk: ForeignKeyCreateStatement| b.foreign_key_text(fk, true),
    )
}

pub trait TableBuilder: Sized {
    /// The quote character of this dialect's quoting policy.
    spec fn quote_spec(&self) -> char;

    /// The text this dialect gives one column definition.
    spec fn column_def_text(&self, column_def: ColumnDef) -> Seq<char>;

    /// The text this dialect gives one column type.
    spec fn column_type_text(&self, column_type: ColumnType) -> Seq<char>;

    /// The text this dialect gives one column constraint.
    spec fn column_spec_text(&self, column_spec: ColumnSpec) -> Seq<char>;

    /// The text this dialect gives one index expression.
    spec fn index_text(&self, index: TableIndex) -> Seq<char>;

    /// The text this dialect gives one foreign-key clause, inline or
    /// standalone.
    spec fn foreign_key_text(&self, foreign_key: ForeignKeyCreateStatement, inline: bool) -> Seq<
        char,
    >;

    /// The text this dialect gives one partitioning clause.
    spec fn partition_text(&self, partition: TablePartition) -> Seq<char>;

    /// The text this dialect gives one ALTER TABLE statement.
    spec fn alter_text(&self, alter: TableAlterStatement) -> Seq<char>;

    /// The text this dialect gives one RENAME TABLE statement.
    spec fn rename_text(&self, rename: TableRenameStatement) -> Seq<char>;

    /// The quote character used around identifiers.
    fn quote(&self) -> (q: char)
        ensures
            q == self.quote_spec(),
    ;

    /// Translate a column definition into SQL text.
    fn prepare_column_def(&self, column_def: &ColumnDef, sql: &mut SqlWriter)
        ensures
            final(sql)@ == old(sql)@ + self.column_def_text(*column_def),
    ;

    /// Translate a column type into SQL text.
    fn prepare_column_type(&self, column_type: &ColumnType, sql: &mut SqlWriter)
        ensures
            final(sql)@ == old(sql)@ + self.column_type_text(*column_type),
    ;

    /// Translate a column constraint into SQL text.
    fn prepare_column_spec(&self, column_spec: &ColumnSpec, sql: &mut SqlWriter)
        ensures
            final(sql)@ == old(sql)@ + self.column_spec_text(*column_spec),
    ;

    /// Translate an index expression into SQL text, in the form it takes
    /// inside a CREATE TABLE body.
    fn prepare_table_index_expression(&self, index: &TableIndex, sql: &mut SqlWriter)
        ensures
            final(sql)@ == old(sql)@ + self.index_text(*index),
    ;

    /// Translate a foreign-key clause into SQL text; `inline` selects the
    /// form suitable for a CREATE TABLE column list over the standalone
    /// ALTER TABLE .. ADD CONSTRAINT form.
    fn prepare_foreign_key_create_statement_internal(
        &self,
        foreign_key: &ForeignKeyCreateStatement,
        sql: &mut SqlWriter,
        inline: bool,
    )
        ensures
            final(sql)@ == old(sql)@ + self.foreign_key_text(*foreign_key, inline),
    ;

    /// Translate a partitioning clause into SQL text.
    fn prepare_table_partition(&self, table_partition: &TablePartition, sql: &mut SqlWriter)
        ensures
            final(sql)@ == old(sql)@ + self.partition_text(*table_partition),
    ;

    /// Translate an ALTER TABLE statement into SQL text.
    fn prepare_table_alter_statement(&self, alter: &TableAlterStatement, sql: &mut SqlWriter)
        ensures
            final(sql)@ == old(sql)@ + self.alter_text(*alter),
    ;

    /// Translate a RENAME TABLE statement into SQL text.
    fn prepare_table_rename_statement(&self, rename: &TableRenameStatement, sql: &mut SqlWriter)
        ensures
            final(sql)@ == old(sql)@ + self.rename_text(*rename),
    ;

    /// Translate a CREATE TABLE statement into SQL text.
    ///
    /// Emits `CREATE TABLE`, then `IF NOT EXISTS` when the flag is set,
    /// then the quoted table identifier when present, then the
    /// paren-delimited element list (columns, indexes, inline foreign
    /// keys, comma-separated across the three lists combined), then each
    /// table option prefixed by a space.
    #[verifier::rlimit(30)]
    fn prepare_table_create_statement(&self, create: &TableCreateStatement, sql: &mut SqlWriter)
        ensures
            final(sql)@ == old(sql)@ + create_statement_text(
                create.if_not_exists,
                self.quote_spec(),
                create.table,
                create.columns@.map(|i: int, cd: ColumnDef| self.column_def_text(cd))
                    + create.indexes@.map(|i: int, ix: TableIndex| self.index_text(ix))
                    + create.foreign_keys@.map(
                    |i: int, fk: ForeignKeyCreateStatement| self.foreign_key_text(fk, true),
                ),
                create.options@,
            ),
    {
        sql.write_str("CREATE TABLE ");

        if create.if_not_exists {
            sql.write_str("IF NOT EXISTS ");
        }

        match &create.table {
            Some(table) => {
                let q = self.quote();
                prepare_ident(table.as_str(), q, sql);
            },
            None => {},
        }

        sql.write_str(" ( ");

        let ghost frags = create.columns@.map(|i: int, cd: ColumnDef| self.column_def_text(cd))
            + create.indexes@.map(|i: int, ix: TableIndex| self.index_text(ix))
            + create.foreign_keys@.map(
            |i: int, fk: ForeignKeyCreateStatement| self.foreign_key_text(fk, true),
        );
        let ghost n_cols = create.columns@.len() as int;
        let ghost n_idx = create.indexes@.len() as int;
        let ghost list_start = sql@;
        let mut first: bool = true;

        let mut i: usize = 0;
        while i < create.columns.len()
            invariant
                i <= create.columns@.len(),
                first <==> i == 0,
                frags == create.columns@.map(|j: int, cd: ColumnDef| self.column_def_text(cd))
                    + create.indexes@.map(|j: int, ix: TableIndex| self.index_text(ix))
                    + create.foreign_keys@.map(
                    |j: int, fk: ForeignKeyCreateStatement| self.foreign_key_text(fk, true),
                ),
                sql@ == list_start + join(frags.take(i as int), ", "@),
            decreases create.columns@.len() - i,
        {
            if !first {
                sql.write_str(", ");
            }
            self.prepare_column_def(&create.columns[i], sql);
            proof {
                assert(frags[i as int] == self.column_def_text(create.columns@[i as int]));
                assert(frags.take(i as int + 1) =~= frags.take(i as int).push(frags[i as int]));
                lemma_join_push(frags.take(i as int), ", "@, frags[i as int]);
            }
            first = false;
            i += 1;
        }

        let mut i: usize = 0;
        while i < create.indexes.len()
            invariant
                i <= create.indexes@.len(),
                n_cols == create.columns@.len() as int,
                first <==> n_cols + i as int == 0,
                frags == create.columns@.map(|j: int, cd: ColumnDef| self.column_def_text(cd))
                    + create.indexes@.map(|j: int, ix: TableIndex| self.index_text(ix))
                    + create.foreign_keys@.map(
                    |j: int, fk: ForeignKeyCreateStatement| self.foreign_key_text(fk, true),
                ),
                sql@ == list_start + join(frags.take(n_cols + i as int), ", "@),
            decreases create.indexes@.len() - i,
        {
            if !first {
                sql.write_str(", ");
            }
            self.prepare_table_index_expression(&create.indexes[i], sql);
            proof {
                assert(frags[n_cols + i as int] == self.index_text(create.indexes@[i as int]));
                assert(frags.take(n_cols + i as int + 1) =~= frags.take(n_cols + i as int).push(
                    frags[n_cols + i as int],
                ));
                lemma_join_push(frags.take(n_cols + i as int), ", "@, frags[n_cols + i as int]);
            }
            first = false;
            i += 1;
        }

        let mut i: usize = 0;
        while i < create.foreign_keys.len()
            invariant
                i <= create.foreign_keys@.len(),
                n_cols == create.columns@.len() as int,
                n_idx == create.indexes@.len() as int,
                first <==> n_cols + n_idx + i as int == 0,
                frags == create.columns@.map(|j: int, cd: ColumnDef| self.column_def_text(cd))
                    + create.indexes@.map(|j: int, ix: TableIndex| self.index_text(ix))
                    + create.foreign_keys@.map(
                    |j: int, fk: ForeignKeyCreateStatement| self.foreign_key_text(fk, true),
                ),
                sql@ == list_start + join(frags.take(n_cols + n_idx + i as int), ", "@),
            decreases create.foreign_keys@.len() - i,
        {
            if !first {
                sql.write_str(", ");
            }
            self.prepare_foreign_key_create_statement_internal(&create.foreign_keys[i], sql, true);
            proof {
                assert(frags[n_cols + n_idx + i as int] == self.foreign_key_text(
                    create.foreign_keys@[i as int],
                    true,
                ));
                assert(frags.take(n_cols + n_idx + i as int + 1) =~= frags.take(
                    n_cols + n_idx + i as int,
                ).push(frags[n_cols + n_idx + i as int]));
                lemma_join_push(
                    frags.take(n_cols + n_idx + i as int),
                    ", "@,
                    frags[n_cols + n_idx + i as int],
                );
            }
            first = false;
            i += 1;
        }

        sql.write_str(" )");

        let ghost opts_start = sql@;
        let ghost opt_texts = create.options@.map(|j: int, o: TableOpt| table_opt_text(o));

        let mut i: usize = 0;
        while i < create.options.len()
            invariant
                i <= create.options@.len(),
                opt_texts == create.options@.map(|j: int, o: TableOpt| table_opt_text(o)),
                sql@ == opts_start + prefixed(opt_texts.take(i as int), " "@),
            decreases create.options@.len() - i,
        {
            sql.write_str(" ");
            self.prepare_table_opt(&create.options[i], sql);
            proof {
                assert(opt_texts[i as int] == table_opt_text(create.options@[i as int]));
                assert(opt_texts.take(i as int + 1) =~= opt_texts.take(i as int).push(
                    opt_texts[i as int],
                ));
                lemma_prefixed_push(opt_texts.take(i as int), " "@, opt_texts[i as int]);
            }
            i += 1;
        }

        proof {
            assert(frags.take(frags.len() as int) =~= frags);
            assert(opt_texts.take(opt_texts.len() as int) =~= opt_texts);
            assert(sql@ =~= old(sql)@ + create_statement_text(
                create.if_not_exists,
                self.quote_spec(),
                create.table,
                frags,
                create.options@,
            ));
        }
    }

    /// Translate a table option into its `KEY=VALUE` token. The value
    /// string is inserted verbatim, with no quoting or escaping.
    fn prepare_table_opt(&self, table_opt: &TableOpt, sql: &mut SqlWriter)
        ensures
            final(sql)@ == old(sql)@ + table_opt_text(*table_opt),
    {
        match table_opt {
            TableOpt::Engine(s) => {
                sql.write_str("ENGINE=");
                sql.write_str(s.as_str());
            },
            TableOpt::Collate(s) => {
                sql.write_str("COLLATE=");
                sql.write_str(s.as_str());
            },
            TableOpt::CharacterSet(s) => {
                sql.write_str("DEFAULT CHARSET=");
                sql.write_str(s.as_str());
            },
        }
        proof {
            assert(sql@ =~= old(sql)@ + table_opt_text(*table_opt));
        }
    }

    /// Translate a DROP TABLE statement into SQL text.
    ///
    /// Emits `DROP TABLE`, then `IF EXISTS` when the flag is set, then
    /// the quoted table identifiers joined by `, `, then each drop
    /// option prefixed by a space.
    fn prepare_table_drop_statement(&self, drop: &TableDropStatement, sql: &mut SqlWriter)
        ensures
            final(sql)@ == old(sql)@ + drop_statement_text(
                drop.if_exists,
                self.quote_spec(),
                drop.tables@,
                drop.options@,
            ),
    {
        sql.write_str("DROP TABLE ");

        if drop.if_exists {
            sql.write_str("IF EXISTS ");
        }

        let ghost names = drop.tables@.map(
            |j: int, t: String| quoted_ident(self.quote_spec(), t@),
        );
        let ghost list_start = sql@;
        let mut first: bool = true;

        let mut i: usize = 0;
        while i < drop.tables.len()
            invariant
                i <= drop.tables@.len(),
                names == drop.tables@.map(|j: int, t: String| quoted_ident(self.quote_spec(), t@)),
                first <==> i == 0,
                sql@ == list_start + join(names.take(i as int), ", "@),
            decreases drop.tables@.len() - i,
        {
            if !first {
                sql.write_str(", ");
            }
            let q = self.quote();
            let table = &drop.tables[i];
            prepare_ident(table.as_str(), q, sql);
            proof {
                assert(names[i as int] == quoted_ident(self.quote_spec(), drop.tables@[i as int]@));
                assert(names.take(i as int + 1) =~= names.take(i as int).push(names[i as int]));
                lemma_join_push(names.take(i as int), ", "@, names[i as int]);
            }
            first = false;
            i += 1;
        }

        let ghost opts_start = sql@;
        let ghost opt_texts = drop.options@.map(|j: int, o: TableDropOpt| drop_opt_text(o));

        let mut i: usize = 0;
        while i < drop.options.len()
            invariant
                i <= drop.options@.len(),
                opt_texts == drop.options@.map(|j: int, o: TableDropOpt| drop_opt_text(o)),
                sql@ == opts_start + prefixed(opt_texts.take(i as int), " "@),
            decreases drop.options@.len() - i,
        {
            sql.write_str(" ");
            self.prepare_table_drop_opt(&drop.options[i], sql);
            proof {
                assert(opt_texts[i as int] == drop_opt_text(drop.options@[i as int]));
                assert(opt_texts.take(i as int + 1) =~= opt_texts.take(i as int).push(
                    opt_texts[i as int],
                ));
                lemma_prefixed_push(opt_texts.take(i as int), " "@, opt_texts[i as int]);
            }
            i += 1;
        }

        proof {
            assert(names.take(names.len() as int) =~= names);
            assert(opt_texts.take(opt_texts.len() as int) =~= opt_texts);
            assert(sql@ =~= old(sql)@ + drop_statement_text(
                drop.if_exists,
                self.quote_spec(),
                drop.tables@,
                drop.options@,
            ));
        }
    }

    /// Translate a DROP TABLE option into its literal keyword.
    fn prepare_table_drop_opt(&self, drop_opt: &TableDropOpt, sql: &mut SqlWriter)
        ensures
            final(sql)@ == old(sql)@ + drop_opt_text(*drop_opt),
    {
        match drop_opt {
            TableDropOpt::Restrict => {
                sql.write_str("RESTRICT");
            },
            TableDropOpt::Cascade => {
                sql.write_str("CASCADE");
            },
        }
    }

    /// Translate a TRUNCATE TABLE statement into SQL text. An absent
    /// table identifier is silently omitted, not reported as an error.
    fn prepare_table_truncate_statement(
        &self,
        truncate: &TableTruncateStatement,
        sql: &mut SqlWriter,
    )
        ensures
            final(sql)@ == old(sql)@ + truncate_statement_text(self.quote_spec(), truncate.table),
    {
        sql.write_str("TRUNCATE TABLE ");

        match &truncate.table {
            Some(table) => {
                let q = self.quote();
                prepare_ident(table.as_str(), q, sql);
            },
            None => {},
        }

        proof {
            assert(sql@ =~= old(sql)@ + truncate_statement_text(self.quote_spec(), truncate.table));
        }
    }
}

} // verus!
