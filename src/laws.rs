use vstd::prelude::*;
use crate::catalog::{catalog_of, index_of, run, step, Author, Book, CatalogView, Change, Owner};

verus! {

/// How many of the changes satisfy `p`.
pub open spec fn count_where(chs: Seq<Change>, p: spec_fn(Change) -> bool) -> nat
    decreases chs.len(),
{
    if chs.len() == 0 {
        0
    } else {
        count_where(chs.drop_last(), p) + if p(chs.last()) { 1nat } else { 0nat }
    }
}

pub open spec fn is_author_add(ch: Change) -> bool {
    ch is AddAuthor
}

pub open spec fn is_book_add(ch: Change) -> bool {
    ch is AddBook
}

pub open spec fn is_owner_add(ch: Change) -> bool {
    ch is AddOwner
}

/// Running the first `i + 1` changes is running the first `i`, then change `i`.
pub proof fn lemma_run_prefix(c: CatalogView, chs: Seq<Change>, i: int)
    requires
        0 <= i < chs.len(),
    ensures
        run(c, chs.take(i + 1)) == step(run(c, chs.take(i)), chs[i]),
{
    assert(chs.take(i + 1).drop_last() =~= chs.take(i));
    assert(chs.take(i + 1).last() == chs[i]);
}

/// Each list grows by one on a change that adds to it, and keeps its length
/// on every other change.
pub proof fn lemma_step_sizes(c: CatalogView, ch: Change)
    ensures
        step(c, ch).authors.len() == c.authors.len() + if ch is AddAuthor { 1nat } else { 0nat },
        step(c, ch).books.len() == c.books.len() + if ch is AddBook { 1nat } else { 0nat },
        step(c, ch).owners.len() == c.owners.len() + if ch is AddOwner { 1nat } else { 0nat },
{
}

/// After a sequence of changes each list has grown by the number of changes
/// that add to it.
pub proof fn lemma_run_sizes(c: CatalogView, chs: Seq<Change>)
    ensures
        run(c, chs).authors.len() == c.authors.len() + count_where(chs, |ch: Change| is_author_add(ch)),
        run(c, chs).books.len() == c.books.len() + count_where(chs, |ch: Change| is_book_add(ch)),
        run(c, chs).owners.len() == c.owners.len() + count_where(chs, |ch: Change| is_owner_add(ch)),
    decreases chs.len(),
{
    if chs.len() > 0 {
        lemma_run_sizes(c, chs.drop_last());
        lemma_step_sizes(run(c, chs.drop_last()), chs.last());
    }
}

/// No list ever shrinks: over any sequence of changes, the lists after the
/// first `i` changes are no longer than after the first `j`, for `i <= j`.
pub proof fn lemma_monotonic_growth(c: CatalogView, chs: Seq<Change>, i: int, j: int)
    requires
        0 <= i <= j <= chs.len(),
    ensures
        run(c, chs.take(i)).authors.len() <= run(c, chs.take(j)).authors.len(),
        run(c, chs.take(i)).books.len() <= run(c, chs.take(j)).books.len(),
        run(c, chs.take(i)).owners.len() <= run(c, chs.take(j)).owners.len(),
    decreases j - i,
{
    if i < j {
        lemma_monotonic_growth(c, chs, i, j - 1);
        lemma_run_prefix(c, chs, j - 1);
        lemma_step_sizes(run(c, chs.take(j - 1)), chs[j - 1]);
    }
}

/// Starting from an empty catalog, the author added by a change gets the
/// position equal to the number of authors added before it, whatever books
/// and owners were added in between.
pub proof fn lemma_index_stability(chs: Seq<Change>, k: int)
    requires
        0 <= k < chs.len(),
        chs[k] is AddAuthor,
    ensures
        index_of(run(crate::catalog::empty_catalog(), chs.take(k)), chs[k])
            == count_where(chs.take(k), |ch: Change| is_author_add(ch)),
{
    lemma_run_sizes(crate::catalog::empty_catalog(), chs.take(k));
}

/// After an owner is added, the default owner is the position that adding
/// it returned, and every book added before the next owner is given that
/// owner.
pub proof fn lemma_default_owner_tracking(c: CatalogView, chs: Seq<Change>, j: int)
    requires
        0 <= j < chs.len(),
        chs[j] is AddOwner,
        forall|i: int| j < i < chs.len() ==> !(#[trigger] chs[i] is AddOwner),
    ensures
        run(c, chs).default_owner == index_of(run(c, chs.take(j)), chs[j]) as usize,
        forall|i: int|
            j < i < chs.len() && #[trigger] chs[i] is AddBook ==> run(c, chs.take(i + 1)).books.last().owner_id
                == index_of(run(c, chs.take(j)), chs[j]) as usize,
{
    let v = index_of(run(c, chs.take(j)), chs[j]) as usize;
    lemma_run_prefix(c, chs, j);
    lemma_default_owner_kept(c, chs, j, chs.len() as int);
    assert(chs.take(chs.len() as int) =~= chs);
    assert forall|i: int| j < i < chs.len() && #[trigger] chs[i] is AddBook implies run(
        c,
        chs.take(i + 1),
    ).books.last().owner_id == v by {
        lemma_default_owner_kept(c, chs, j, i);
        lemma_run_prefix(c, chs, i);
    }
}

proof fn lemma_default_owner_kept(c: CatalogView, chs: Seq<Change>, j: int, i: int)
    requires
        0 <= j < i <= chs.len(),
        chs[j] is AddOwner,
        forall|k: int| j < k < chs.len() ==> !(#[trigger] chs[k] is AddOwner),
    ensures
        run(c, chs.take(i)).default_owner == index_of(run(c, chs.take(j)), chs[j]) as usize,
    decreases i - j,
{
    lemma_run_prefix(c, chs, i - 1);
    if i - 1 > j {
        lemma_default_owner_kept(c, chs, j, i - 1);
    }
}

/// Every book names an author, and an owner, that exist.
pub open spec fn references_valid(c: CatalogView) -> bool {
    forall|i: int|
        0 <= i < c.books.len() ==> (#[trigger] c.books[i]).author_id < c.authors.len()
            && c.books[i].owner_id < c.owners.len()
}

/// A change that keeps the references of a catalog valid: a book is added
/// only with an existing author, and only once an owner exists.
pub open spec fn keeps_references(c: CatalogView, ch: Change) -> bool {
    match ch {
        Change::AddBook { author_id, .. } => author_id < c.authors.len() && c.default_owner
            < c.owners.len(),
        _ => true,
    }
}

/// Lists only grow at their end: whatever changes follow, every entry keeps
/// its position and its value, so an index once handed out stays valid.
pub proof fn lemma_entries_kept(c: CatalogView, chs: Seq<Change>)
    ensures
        run(c, chs).authors.take(c.authors.len() as int) == c.authors,
        run(c, chs).books.take(c.books.len() as int) == c.books,
        run(c, chs).owners.take(c.owners.len() as int) == c.owners,
    decreases chs.len(),
{
    if chs.len() == 0 {
        assert(c.authors.take(c.authors.len() as int) =~= c.authors);
        assert(c.books.take(c.books.len() as int) =~= c.books);
        assert(c.owners.take(c.owners.len() as int) =~= c.owners);
    } else {
        let prev = run(c, chs.drop_last());
        lemma_entries_kept(c, chs.drop_last());
        lemma_run_sizes(c, chs.drop_last());
        let next = step(prev, chs.last());
        assert(next.authors.take(c.authors.len() as int) =~= prev.authors.take(c.authors.len() as int));
        assert(next.books.take(c.books.len() as int) =~= prev.books.take(c.books.len() as int));
        assert(next.owners.take(c.owners.len() as int) =~= prev.owners.take(c.owners.len() as int));
    }
}

/// A change that keeps references valid keeps a catalog whose references
/// are valid, and a catalog whose default owner exists keeps it existing.
pub proof fn lemma_references_preserved(c: CatalogView, ch: Change)
    requires
        references_valid(c),
        keeps_references(c, ch),
        c.owners.len() > 0 ==> c.default_owner < c.owners.len(),
        c.owners.len() < usize::MAX,
    ensures
        references_valid(step(c, ch)),
        step(c, ch).owners.len() > 0 ==> step(c, ch).default_owner < step(c, ch).owners.len(),
{
    let n = step(c, ch);
    assert forall|i: int| 0 <= i < n.books.len() implies (#[trigger] n.books[i]).author_id
        < n.authors.len() && n.books[i].owner_id < n.owners.len() by {
        if i < c.books.len() {
            assert(n.books[i] == c.books[i]);
        }
    }
}

/// The parts that a catalog is taken apart into (by `parts` or `into_parts`)
/// hold exactly its entries, in order, and its default owner; and any parts
/// that hold the same entries build, through `from_parts`, the same catalog
/// again: same entries, same positions, same default owner.
pub proof fn lemma_round_trip(
    c: CatalogView,
    authors: Seq<Author>,
    books: Seq<Book>,
    owners: Seq<Owner>,
    default_owner: usize,
)
    requires
        catalog_of(authors, books, owners, default_owner) == c,
    ensures
        authors.len() == c.authors.len(),
        forall|i: int| 0 <= i < authors.len() ==> #[trigger] authors[i]@ == c.authors[i],
        books.len() == c.books.len(),
        forall|i: int| 0 <= i < books.len() ==> #[trigger] books[i]@ == c.books[i],
        owners.len() == c.owners.len(),
        forall|i: int| 0 <= i < owners.len() ==> #[trigger] owners[i]@ == c.owners[i],
        default_owner == c.default_owner,
        forall|a2: Seq<Author>, b2: Seq<Book>, o2: Seq<Owner>|
            a2.len() == authors.len() && b2.len() == books.len() && o2.len() == owners.len()
                && (forall|i: int| 0 <= i < a2.len() ==> #[trigger] a2[i]@ == authors[i]@)
                && (forall|i: int| 0 <= i < b2.len() ==> #[trigger] b2[i]@ == books[i]@)
                && (forall|i: int| 0 <= i < o2.len() ==> #[trigger] o2[i]@ == owners[i]@)
                ==> #[trigger] catalog_of(a2, b2, o2, default_owner) == c,
{
    assert forall|a2: Seq<Author>, b2: Seq<Book>, o2: Seq<Owner>|
        a2.len() == authors.len() && b2.len() == books.len() && o2.len() == owners.len()
            && (forall|i: int| 0 <= i < a2.len() ==> #[trigger] a2[i]@ == authors[i]@)
            && (forall|i: int| 0 <= i < b2.len() ==> #[trigger] b2[i]@ == books[i]@)
            && (forall|i: int| 0 <= i < o2.len() ==> #[trigger] o2[i]@ == owners[i]@)
            implies #[trigger] catalog_of(a2, b2, o2, default_owner) == c by {
        assert(catalog_of(a2, b2, o2, default_owner).authors =~= c.authors);
        assert(catalog_of(a2, b2, o2, default_owner).books =~= c.books);
        assert(catalog_of(a2, b2, o2, default_owner).owners =~= c.owners);
    }
}

} // verus!
