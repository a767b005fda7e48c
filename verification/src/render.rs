//! Spec-level description of the SQL text each renderer produces.
//!
//! Every renderer's `ensures` clause says that it appends exactly one of
//! these character sequences to the output buffer.

use vstd::prelude::*;

use crate::types::{TableDropOpt, TableOpt};

verus! {

/// An identifier wrapped in the dialect's quote character.
pub open spec fn quoted_ident(q: char, name: Seq<char>) -> Seq<char> {
    seq![q] + name + seq![q]
}

/// An optional identifier: quoted when present, nothing when absent.
pub open spec fn opt_ident_text(q: char, table: Option<String>) -> Seq<char> {
    match table {
        Some(name) => quoted_ident(q, name@),
        None => Seq::<char>::empty(),
    }
}

/// The elements of `items` joined by `sep`: no leading separator, no
/// trailing separator, one separator between each adjacent pair.
pub open spec fn join(items: Seq<Seq<char>>, sep: Seq<char>) -> Seq<char>
    decreases items.len(),
{
    if items.len() == 0 {
        Seq::<char>::empty()
    } else if items.len() == 1 {
        items[0]
    } else {
        join(items.drop_last(), sep) + sep + items.last()
    }
}

/// Every element of `items` prefixed by `sep`, in order.
pub open spec fn prefixed(items: Seq<Seq<char>>, sep: Seq<char>) -> Seq<char>
    decreases items.len(),
{
    if items.len() == 0 {
        Seq::<char>::empty()
    } else {
        prefixed(items.drop_last(), sep) + sep + items.last()
    }
}

/// The `KEY=VALUE` token of one table option. The value string is
/// inserted verbatim.
pub open spec fn table_opt_text(opt: TableOpt) -> Seq<char> {
    match opt {
        TableOpt::Engine(s) => "ENGINE="@ + s@,
        TableOpt::Collate(s) => "COLLATE="@ + s@,
        TableOpt::CharacterSet(s) => "DEFAULT CHARSET="@ + s@,
    }
}

/// The literal keyword of one DROP TABLE option.
pub open spec fn drop_opt_text(opt: TableDropOpt) -> Seq<char> {
    match opt {
        TableDropOpt::Restrict => "RESTRICT"@,
        TableDropOpt::Cascade => "CASCADE"@,
    }
}

/// The table options of a CREATE TABLE statement, each prefixed by a
/// single space.
pub open spec fn options_text(opts: Seq<TableOpt>) -> Seq<char> {
    prefixed(opts.map(|i: int, o: TableOpt| table_opt_text(o)), " "@)
}

/// The options of a DROP TABLE statement, each prefixed by a single
/// space.
pub open spec fn drop_options_text(opts: Seq<TableDropOpt>) -> Seq<char> {
    prefixed(opts.map(|i: int, o: TableDropOpt| drop_opt_text(o)), " "@)
}

/// The whole text of a CREATE TABLE statement, given the already
/// rendered fragments of its element list (column definitions, then
/// index expressions, then foreign-key clauses).
pub open spec fn create_statement_text(
    if_not_exists: bool,
    q: char,
    table: Option<String>,
    fragments: Seq<Seq<char>>,
    opts: Seq<TableOpt>,
) -> Seq<char> {
    "CREATE TABLE "@ + (if if_not_exists {
        "IF NOT EXISTS "@
    } else {
        Seq::<char>::empty()
    }) + opt_ident_text(q, table) + " ( "@ + join(fragments, ", "@) + " )"@ + options_text(opts)
}

/// The whole text of a DROP TABLE statement.
pub open spec fn drop_statement_text(
    if_exists: bool,
    q: char,
    tables: Seq<String>,
    opts: Seq<TableDropOpt>,
) -> Seq<char> {
    "DROP TABLE "@ + (if if_exists {
        "IF EXISTS "@
    } else {
        Seq::<char>::empty()
    }) + join(tables.map(|i: int, t: String| quoted_ident(q, t@)), ", "@) + drop_options_text(
        opts,
    )
}

/// The whole text of a TRUNCATE TABLE statement.
pub open spec fn truncate_statement_text(q: char, table: Option<String>) -> Seq<char> {
    "TRUNCATE TABLE "@ + opt_ident_text(q, table)
}

/// Joining one more element appends a separator exactly when elements
/// already exist: the step a rendering loop takes on each iteration.
pub proof fn lemma_join_push(items: Seq<Seq<char>>, sep: Seq<char>, x: Seq<char>)
    ensures
        join(items.push(x), sep) == if items.len() == 0 {
            x
        } else {
            join(items, sep) + sep + x
        },
{
    assert(items.push(x).drop_last() =~= items);
    assert(items.push(x).last() == x);
}

/// Prefixing one more element always appends the separator and then the
/// element.
pub proof fn lemma_prefixed_push(items: Seq<Seq<char>>, sep: Seq<char>, x: Seq<char>)
    ensures
        prefixed(items.push(x), sep) == prefixed(items, sep) + sep + x,
{
    assert(items.push(x).drop_last() =~= items);
    assert(items.push(x).last() == x);
}

} // verus!
