use vstd::prelude::*;

verus! {

/// The most titles one fetch returns.
pub const FETCH_LIMIT: usize = 50;

/// The query that lists album titles, newest release first.
pub const ALBUMS_QUERY: &'static str = "SELECT title FROM Albums ORDER BY release_date DESC LIMIT 50";

/// The statement that stores one genre; its one parameter is the genre name.
pub const GENRE_INSERT: &'static str = "INSERT INTO Genres (name) VALUES ($1)";

/// The titles a fetch returns for the rows the source yields: the rows in
/// the order they came, cut after the first `FETCH_LIMIT`.
pub open spec fn fetched_titles(rows: Seq<String>) -> Seq<String> {
    if rows.len() <= FETCH_LIMIT {
        rows
    } else {
        rows.take(FETCH_LIMIT as int)
    }
}

/// A fetch keeps the rows' order and returns at most `FETCH_LIMIT` titles:
/// all of them when there are no more, else the first `FETCH_LIMIT`.
pub proof fn lemma_fetch_keeps_order_and_limit(rows: Seq<String>)
    ensures
        fetched_titles(rows).len() == if rows.len() <= FETCH_LIMIT {
            rows.len()
        } else {
            FETCH_LIMIT as nat
        },
        forall|i: int|
            0 <= i < fetched_titles(rows).len() ==> #[trigger] fetched_titles(rows)[i] == rows[i],
{
}

/// Keeps the first `FETCH_LIMIT` titles of `rows`, in their order.
pub fn collect_titles(rows: Vec<String>) -> (r: Vec<String>)
    ensures
        r@ == fetched_titles(rows@),
{
    let mut rows = rows;
    if rows.len() > FETCH_LIMIT {
        rows.truncate(FETCH_LIMIT);
    }
    rows
}

} // verus!
