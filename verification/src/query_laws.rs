//! What holds of the text of every generated query.

use crate::catalog::{PropertyView, Tier};
use crate::cfg_gen::{direct_query, expected_entry, joined_query};
use crate::decimal::{decimal, is_digit, lemma_decimal_is_number_text};
use crate::spacing::{
    begins_with, ends_with, has_no_blank_run, is_blank_pair, is_normal, is_plain, is_single_line,
    lemma_concat_parts, lemma_normal_is_kept, lemma_plain_parts, lemma_single_spaced_concat,
    lemma_single_spaced_keeps, lemma_single_spaced_prefix, lemma_trimmed,
    lemma_without_line_feeds, lemma_without_line_feeds_concat, normalized, without_line_feeds,
};
use vstd::prelude::*;

verus! {

/// The decimal notation of an integer holds neither a blank nor a line feed.
pub proof fn lemma_decimal_is_plain(n: int)
    ensures
        is_plain(decimal(n)),
        decimal(n).len() > 0,
{
    lemma_decimal_is_number_text(n);
    let text = decimal(n);
    assert forall|i: int| 0 <= i < text.len() implies text[i] != ' ' && text[i] != '\n' by {
        assert(is_digit(text[i]) || (i == 0 && text[i] == '-'));
    }
}

/// The words with which the query of a statistics column begins.
pub open spec fn joined_head() -> Seq<char> {
    "SELECT statistics."@
}

/// The words of the query of a statistics column between the column and the device.
pub open spec fn joined_middle() -> Seq<char> {
    " FROM statistics INNER JOIN measurements ON measurements.id = statistics.measurement WHERE measurements.node = "@
}

/// The words with which the query of a statistics column ends.
pub open spec fn joined_tail() -> Seq<char> {
    " ORDER BY measurements.id DESC LIMIT 1;"@
}

proof fn lemma_joined_words()
    ensures
        is_single_line(joined_head()),
        has_no_blank_run(joined_head()),
        joined_head().len() == 18,
        joined_head().first() == 'S',
        joined_head().last() == '.',
        "SELECT "@.len() == 7,
        "LIMIT 1;"@.len() == 8,
        begins_with(joined_head(), "SELECT "@),
        is_single_line(joined_middle()),
        has_no_blank_run(joined_middle()),
        joined_middle().len() > 0,
        joined_middle().first() == ' ',
        joined_middle().last() == ' ',
        is_single_line(joined_tail()),
        has_no_blank_run(joined_tail()),
        joined_tail().len() == 39,
        joined_tail().first() == ' ',
        joined_tail()[1] == 'O',
        joined_tail().last() == ';',
        ends_with(joined_tail(), "LIMIT 1;"@),
{
    reveal_strlit("SELECT statistics.");
    reveal_strlit(
        " FROM statistics INNER JOIN measurements ON measurements.id = statistics.measurement WHERE measurements.node = ",
    );
    reveal_strlit(" ORDER BY measurements.id DESC LIMIT 1;");
    reveal_strlit("SELECT ");
    reveal_strlit("LIMIT 1;");
    assert(joined_head().subrange(0, 7) =~= "SELECT "@);
    assert(joined_tail().subrange(31, 39) =~= "LIMIT 1;"@);
}

/// The query of a statistics column that holds neither a blank nor a line
/// feed is stored as it is written: `SELECT statistics.<column> FROM
/// statistics INNER JOIN measurements ON measurements.id =
/// statistics.measurement WHERE measurements.node = <id> ORDER BY
/// measurements.id DESC LIMIT 1;`.
pub proof fn law_stat_query_of_plain_column(column: Seq<char>, node: int)
    requires
        is_plain(column),
    ensures
        is_normal(joined_query(column, node)),
        normalized(joined_query(column, node)) == joined_query(column, node),
{
    lemma_joined_words();
    lemma_decimal_is_plain(node);
    lemma_plain_parts(column);
    lemma_plain_parts(decimal(node));
    let a = joined_head() + column;
    lemma_concat_parts(joined_head(), column);
    let b = a + joined_middle();
    assert(a.last() != ' ');
    lemma_concat_parts(a, joined_middle());
    let c = b + decimal(node);
    lemma_concat_parts(b, decimal(node));
    let d = c + joined_tail();
    assert(c.last() == decimal(node).last());
    lemma_concat_parts(c, joined_tail());
    assert(d == joined_query(column, node));
    assert(d.first() == 'S');
    assert(d.last() == ';');
    lemma_normal_is_kept(d);
}

/// A query that reads a column of the measurements directly is one `SELECT`
/// statement that ends in the clause that limits it to one row.
pub proof fn law_direct_query_reads_one_row(column: Seq<char>, node: int)
    ensures
        begins_with(direct_query(column, node), "SELECT "@),
        ends_with(direct_query(column, node), "LIMIT 1;"@),
{
    reveal_strlit("SELECT ");
    reveal_strlit(" ORDER BY id DESC LIMIT 1;");
    reveal_strlit("LIMIT 1;");
    let query = direct_query(column, node);
    assert(query.subrange(0, 7) =~= "SELECT "@);
    assert(query.subrange(query.len() - 8, query.len() as int) =~= "LIMIT 1;"@);
}

/// The stored query of a statistics column, whatever the column, is one
/// `SELECT` statement on a single line that ends in the clause that limits it
/// to one row.
pub proof fn law_stat_query_reads_one_row(column: Seq<char>, node: int)
    ensures
        begins_with(normalized(joined_query(column, node)), "SELECT "@),
        ends_with(normalized(joined_query(column, node)), "LIMIT 1;"@),
{
    lemma_joined_words();
    lemma_decimal_is_plain(node);
    let front = column + joined_middle() + decimal(node);
    let raw = joined_query(column, node);
    assert(raw =~= joined_head() + front + joined_tail());
    assert(raw.first() == 'S' && raw.last() == ';');
    lemma_trimmed(raw);
    // The line feeds, if any, are in the column.
    lemma_without_line_feeds_concat(joined_head() + front, joined_tail());
    lemma_without_line_feeds_concat(joined_head(), front);
    lemma_without_line_feeds(joined_head());
    lemma_without_line_feeds(joined_tail());
    let kept = without_line_feeds(front);
    assert(without_line_feeds(raw) == joined_head() + kept + joined_tail());
    // The first words stay in front.
    lemma_single_spaced_prefix(joined_head(), kept + joined_tail());
    lemma_single_spaced_keeps(joined_head());
    assert(joined_head() + kept + joined_tail() =~= joined_head() + (kept + joined_tail()));
    let stored = normalized(raw);
    assert(stored.subrange(0, 7) =~= stored.subrange(0, 18).subrange(0, 7));
    assert(joined_head().subrange(0, 7) == "SELECT "@);
    // The last words stay behind.
    let blank = joined_tail().subrange(0, 1);
    let words = joined_tail().subrange(1, 39);
    assert(joined_tail() =~= blank + words);
    assert forall|i: int| !#[trigger] is_blank_pair(words, i) by {
        assert(!is_blank_pair(joined_tail(), i + 1));
    }
    lemma_single_spaced_keeps(words);
    let before = joined_head() + kept + blank;
    assert(joined_head() + kept + joined_tail() =~= before + words);
    lemma_single_spaced_concat(before, words);
    assert(words.subrange(words.len() - 8, words.len() as int) =~= joined_tail().subrange(
        31,
        39,
    ));
    assert(stored.subrange(stored.len() - 8, stored.len() as int) =~= words.subrange(
        words.len() - 8,
        words.len() as int,
    ));
}

/// The query of every entry that the catalog yields is one `SELECT` statement
/// that ends in the clause that limits it to one row.
pub proof fn law_entry_query_reads_one_row(db_url: Seq<char>, node: int, property: PropertyView)
    ensures
        begins_with(expected_entry(db_url, node, property).query, "SELECT "@),
        ends_with(expected_entry(db_url, node, property).query, "LIMIT 1;"@),
{
    if property.tier == Tier::Stat {
        law_stat_query_reads_one_row(property.storage_column, node);
    } else {
        law_direct_query_reads_one_row(property.storage_column, node);
    }
}

} // verus!
