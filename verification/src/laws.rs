//! Laws of the renderer, stated and proved once over the spec functions
//! that every renderer's contract uses.

use vstd::prelude::*;

use crate::render::{create_statement_text, join, quoted_ident};
use crate::table_builder::{create_fragments, TableBuilder};
use crate::types::{TableCreateStatement, TableOpt};

verus! {

/// The summed length of a sequence of fragments.
pub open spec fn total_len(items: Seq<Seq<char>>) -> nat
    decreases items.len(),
{
    if items.len() == 0 {
        0
    } else {
        total_len(items.drop_last()) + items.last().len()
    }
}

/// A joined element list of N >= 1 fragments holds exactly N - 1
/// separators and nothing else: its length is the fragments' summed
/// length plus (N - 1) separator lengths, so no separator can lead or
/// trail the list.
pub proof fn lemma_join_separator_count(items: Seq<Seq<char>>, sep: Seq<char>)
    requires
        items.len() >= 1,
    ensures
        join(items, sep).len() == total_len(items) + (items.len() - 1) * sep.len(),
    decreases items.len(),
{
    if items.len() == 1 {
        assert(total_len(items.drop_last()) == 0);
    } else {
        lemma_join_separator_count(items.drop_last(), sep);
        assert((items.len() - 1) * sep.len() == (items.len() - 2) * sep.len() + sep.len())
            by (nonlinear_arith);
    }
}

/// The element list of a CREATE statement with N >= 1 elements holds
/// exactly N - 1 of the two-character `, ` separators.
pub proof fn lemma_create_list_separators(fragments: Seq<Seq<char>>)
    requires
        fragments.len() >= 1,
    ensures
        join(fragments, ", "@).len() == total_len(fragments) + (fragments.len() - 1) * 2,
{
    reveal_strlit(", ");
    lemma_join_separator_count(fragments, ", "@);
}

/// The offset at which the fragment at position `j` begins inside the
/// joined element list: the summed length of the fragments before it
/// plus one separator for each of them.
pub open spec fn join_offset(items: Seq<Seq<char>>, sep: Seq<char>, j: int) -> int {
    total_len(items.take(j)) + j * sep.len()
}

/// Taking one more fragment adds exactly that fragment's length to the
/// summed length.
pub proof fn lemma_total_len_take_step(items: Seq<Seq<char>>, j: int)
    requires
        0 <= j < items.len(),
    ensures
        total_len(items.take(j + 1)) == total_len(items.take(j)) + items[j].len(),
{
    assert(items.take(j + 1).drop_last() =~= items.take(j));
}

/// Each fragment of a joined element list appears verbatim at its
/// offset: the list reproduces every fragment unchanged.
pub proof fn lemma_join_fragment_position(items: Seq<Seq<char>>, sep: Seq<char>, j: int)
    requires
        0 <= j < items.len(),
    ensures
        0 <= join_offset(items, sep, j),
        join_offset(items, sep, j) + items[j].len() <= join(items, sep).len(),
        join(items, sep).subrange(
            join_offset(items, sep, j),
            join_offset(items, sep, j) + items[j].len() as int,
        ) == items[j],
    decreases items.len(),
{
    lemma_join_separator_count(items, sep);
    if j == items.len() - 1 {
        if items.len() == 1 {
            assert(items.take(0) =~= Seq::<Seq<char>>::empty());
            assert(join(items, sep).subrange(0, items[0].len() as int) =~= items[0]);
        } else {
            lemma_join_separator_count(items.drop_last(), sep);
            assert(items.take(j) =~= items.drop_last());
            assert(j * sep.len() == (j - 1) * sep.len() + sep.len()) by (nonlinear_arith);
            assert(join(items, sep).subrange(
                join_offset(items, sep, j),
                join_offset(items, sep, j) + items[j].len() as int,
            ) =~= items[j]);
        }
    } else {
        lemma_join_fragment_position(items.drop_last(), sep, j);
        assert(items.drop_last().take(j) =~= items.take(j));
        assert(join(items, sep).subrange(
            join_offset(items, sep, j),
            join_offset(items, sep, j) + items[j].len() as int,
        ) =~= join(items.drop_last(), sep).subrange(
            join_offset(items.drop_last(), sep, j),
            join_offset(items.drop_last(), sep, j) + items.drop_last()[j].len() as int,
        ));
    }
}

/// Fragment offsets grow strictly with position: a fragment earlier in
/// the input ends before a later one begins, so the list keeps the
/// input order with no reordering.
pub proof fn lemma_join_offsets_ordered(items: Seq<Seq<char>>, sep: Seq<char>, j1: int, j2: int)
    requires
        0 <= j1 < j2 < items.len(),
    ensures
        join_offset(items, sep, j1) + items[j1].len() <= join_offset(items, sep, j2),
    decreases j2 - j1,
{
    if j2 == j1 + 1 {
        lemma_total_len_take_step(items, j1);
        assert((j1 + 1) * sep.len() == j1 * sep.len() + sep.len()) by (nonlinear_arith);
    } else {
        lemma_join_offsets_ordered(items, sep, j1, j2 - 1);
        lemma_join_offsets_ordered(items, sep, j2 - 1, j2);
    }
}

/// In the rendered element list of a CREATE statement every fragment
/// appears verbatim at its offset, and a fragment earlier in the
/// combined input (columns, then indexes, then foreign keys) ends
/// before a later one begins: the rendered text keeps the input order.
pub proof fn lemma_create_list_keeps_order<B: TableBuilder>(
    b: &B,
    create: TableCreateStatement,
    j1: int,
    j2: int,
)
    requires
        0 <= j1 < j2 < create_fragments(b, create).len(),
    ensures
        ({
            let frags = create_fragments(b, create);
            let list = join(frags, ", "@);
            &&& list.subrange(
                join_offset(frags, ", "@, j1),
                join_offset(frags, ", "@, j1) + frags[j1].len() as int,
            ) == frags[j1]
            &&& list.subrange(
                join_offset(frags, ", "@, j2),
                join_offset(frags, ", "@, j2) + frags[j2].len() as int,
            ) == frags[j2]
            &&& join_offset(frags, ", "@, j1) + frags[j1].len() <= join_offset(frags, ", "@, j2)
        }),
{
    let frags = create_fragments(b, create);
    lemma_join_fragment_position(frags, ", "@, j1);
    lemma_join_fragment_position(frags, ", "@, j2);
    lemma_join_offsets_ordered(frags, ", "@, j1, j2);
}

/// With `if_not_exists` set and a table identifier present, the rendered
/// CREATE statement text contains `CREATE TABLE IF NOT EXISTS `
/// immediately followed by the quoted table name, at its very start.
pub proof fn lemma_create_if_not_exists_prefix(
    q: char,
    name: String,
    fragments: Seq<Seq<char>>,
    opts: Seq<TableOpt>,
)
    ensures
        ({
            let text = create_statement_text(true, q, Some(name), fragments, opts);
            let head = "CREATE TABLE IF NOT EXISTS "@ + quoted_ident(q, name@);
            text.len() >= head.len() && text.take(head.len() as int) == head
        }),
{
    reveal_strlit("CREATE TABLE ");
    reveal_strlit("IF NOT EXISTS ");
    reveal_strlit("CREATE TABLE IF NOT EXISTS ");
    assert("CREATE TABLE "@ + "IF NOT EXISTS "@ =~= "CREATE TABLE IF NOT EXISTS "@);
    let text = create_statement_text(true, q, Some(name), fragments, opts);
    let head = "CREATE TABLE IF NOT EXISTS "@ + quoted_ident(q, name@);
    assert(text.take(head.len() as int) =~= head);
}

/// In a CREATE statement's element list the column-definition fragments
/// stand first, in input order, then the index fragments, then the
/// foreign-key fragments: the renderer keeps the input sequences' order
/// and never interleaves the three lists.
pub proof fn lemma_create_fragment_order<B: TableBuilder>(b: &B, create: TableCreateStatement)
    ensures
        create_fragments(b, create).len() == create.columns@.len() + create.indexes@.len()
            + create.foreign_keys@.len(),
        forall|i: int|
            0 <= i < create.columns@.len() ==> create_fragments(b, create)[i]
                == b.column_def_text(create.columns@[i]),
        forall|i: int|
            0 <= i < create.indexes@.len() ==> create_fragments(b, create)[create.columns@.len()
                + i] == b.index_text(create.indexes@[i]),
        forall|i: int|
            0 <= i < create.foreign_keys@.len() ==> create_fragments(b, create)[create.columns@.len()
                + create.indexes@.len() + i] == b.foreign_key_text(create.foreign_keys@[i], true),
{
}

} // verus!
