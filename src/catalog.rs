use vstd::prelude::*;
use vstd::string::StringExecFns;

verus! {

/// A person who wrote one or more books of the catalog.
pub struct Author {
    pub first_name: String,
    pub last_name: String,
}

/// What an author is, as values: the two parts of the name.
pub struct AuthorView {
    pub first_name: Seq<char>,
    pub last_name: Seq<char>,
}

impl View for Author {
    type V = AuthorView;

    open spec fn view(&self) -> AuthorView {
        AuthorView { first_name: self.first_name@, last_name: self.last_name@ }
    }
}

/// The display form of an author: first name, one space, last name.
pub open spec fn display_name(a: AuthorView) -> Seq<char> {
    a.first_name + seq![' '] + a.last_name
}

impl Author {
    /// The name as it is shown to a person: `"<first> <last>"`.
    pub fn to_string(&self) -> (r: String)
        ensures
            r@ == display_name(self@),
    {
        let mut r = self.first_name.clone();
        let sep = " ";
        proof {
            reveal_strlit(" ");
        }
        r.append(sep);
        r.append(self.last_name.as_str());
        r
    }
}

/// A book of the catalog. `author_id` and `owner_id` are positions in the
/// catalog's author and owner lists.
pub struct Book {
    pub name: String,
    pub isbn: Option<String>,
    pub author_id: usize,
    pub owner_id: usize,
}

/// What a book is, as values.
pub struct BookView {
    pub name: Seq<char>,
    pub isbn: Option<Seq<char>>,
    pub author_id: usize,
    pub owner_id: usize,
}

/// The view of an optional string: absence stays absence.
pub open spec fn opt_view(s: Option<String>) -> Option<Seq<char>> {
    match s {
        Some(t) => Some(t@),
        None => None,
    }
}

impl View for Book {
    type V = BookView;

    open spec fn view(&self) -> BookView {
        BookView {
            name: self.name@,
            isbn: opt_view(self.isbn),
            author_id: self.author_id,
            owner_id: self.owner_id,
        }
    }
}

/// A person who owns books of the catalog.
pub struct Owner {
    pub name: String,
}

/// What an owner is, as values.
pub struct OwnerView {
    pub name: Seq<char>,
}

impl View for Owner {
    type V = OwnerView;

    open spec fn view(&self) -> OwnerView {
        OwnerView { name: self.name@ }
    }
}

/// The values of a list of authors, in order.
pub open spec fn authors_view(s: Seq<Author>) -> Seq<AuthorView> {
    s.map_values(|a: Author| a@)
}

/// The values of a list of books, in order.
pub open spec fn books_view(s: Seq<Book>) -> Seq<BookView> {
    s.map_values(|b: Book| b@)
}

/// The values of a list of owners, in order.
pub open spec fn owners_view(s: Seq<Owner>) -> Seq<OwnerView> {
    s.map_values(|o: Owner| o@)
}

/// A catalog as values: the three lists in order of creation, and the owner
/// that new books are given.
pub struct CatalogView {
    pub authors: Seq<AuthorView>,
    pub books: Seq<BookView>,
    pub owners: Seq<OwnerView>,
    pub default_owner: usize,
}

/// The catalog built from its parts.
pub open spec fn catalog_of(
    authors: Seq<Author>,
    books: Seq<Book>,
    owners: Seq<Owner>,
    default_owner: usize,
) -> CatalogView {
    CatalogView {
        authors: authors_view(authors),
        books: books_view(books),
        owners: owners_view(owners),
        default_owner,
    }
}

/// The catalog with nothing in it.
pub open spec fn empty_catalog() -> CatalogView {
    CatalogView {
        authors: Seq::empty(),
        books: Seq::empty(),
        owners: Seq::empty(),
        default_owner: 0,
    }
}

/// One change that a catalog accepts.
pub enum Change {
    AddAuthor { first_name: Seq<char>, last_name: Seq<char> },
    AddBook { title: Seq<char>, isbn: Option<Seq<char>>, author_id: usize },
    AddOwner { name: Seq<char> },
}

/// The number that a change hands back: the position of the new entry in
/// its list.
pub open spec fn index_of(c: CatalogView, ch: Change) -> nat {
    match ch {
        Change::AddAuthor { .. } => c.authors.len(),
        Change::AddBook { .. } => c.books.len(),
        Change::AddOwner { .. } => c.owners.len(),
    }
}

/// The catalog after one change. A new book gets the current default owner;
/// a new owner becomes the default owner.
pub open spec fn step(c: CatalogView, ch: Change) -> CatalogView {
    match ch {
        Change::AddAuthor { first_name, last_name } => CatalogView {
            authors: c.authors.push(AuthorView { first_name, last_name }),
            ..c
        },
        Change::AddBook { title, isbn, author_id } => CatalogView {
            books: c.books.push(
                BookView { name: title, isbn, author_id, owner_id: c.default_owner },
            ),
            ..c
        },
        Change::AddOwner { name } => CatalogView {
            owners: c.owners.push(OwnerView { name }),
            default_owner: c.owners.len() as usize,
            ..c
        },
    }
}

/// The catalog after a sequence of changes, applied in order.
pub open spec fn run(c: CatalogView, chs: Seq<Change>) -> CatalogView
    decreases chs.len(),
{
    if chs.len() == 0 {
        c
    } else {
        step(run(c, chs.drop_last()), chs.last())
    }
}

/// The catalog store: append-only lists of authors, books and owners, and
/// the owner that new books are given.
pub struct Database {
    authors: Vec<Author>,
    books: Vec<Book>,
    owners: Vec<Owner>,
    default_owner: usize,
}

impl View for Database {
    type V = CatalogView;

    closed spec fn view(&self) -> CatalogView {
        catalog_of(self.authors@, self.books@, self.owners@, self.default_owner)
    }
}

impl Database {
    /// An empty catalog.
    pub fn new() -> (r: Database)
        ensures
            r@ == empty_catalog(),
    {
        let r = Database {
            authors: Vec::new(),
            books: Vec::new(),
            owners: Vec::new(),
            default_owner: 0,
        };
        assert(r@.authors =~= Seq::empty());
        assert(r@.books =~= Seq::empty());
        assert(r@.owners =~= Seq::empty());
        r
    }

    /// Appends an author and returns its position in the author list.
    pub fn add_author(&mut self, first_name: String, last_name: String) -> (r: usize)
        ensures
            r == old(self)@.authors.len(),
            final(self)@.authors == old(self)@.authors.push(
                AuthorView { first_name: first_name@, last_name: last_name@ },
            ),
            final(self)@.books == old(self)@.books,
            final(self)@.owners == old(self)@.owners,
            final(self)@.default_owner == old(self)@.default_owner,
            final(self)@ == step(
                old(self)@,
                Change::AddAuthor { first_name: first_name@, last_name: last_name@ },
            ),
    {
        let ghost a = first_name@;
        let ghost l = last_name@;
        self.authors.push(Author { first_name, last_name });
        assert(self@.authors =~= old(self)@.authors.push(AuthorView { first_name: a, last_name: l }));
        self.authors.len() - 1
    }

    /// Appends a book written by the author at `author_id`, owned by the
    /// current default owner, and returns its position in the book list.
    /// The position is not checked against the author list: the caller takes
    /// it from that list or from `add_author`.
    pub fn add_book(&mut self, title: String, isbn: Option<String>, author_id: usize) -> (r: usize)
        ensures
            r == old(self)@.books.len(),
            final(self)@.books == old(self)@.books.push(
                BookView {
                    name: title@,
                    isbn: opt_view(isbn),
                    author_id,
                    owner_id: old(self)@.default_owner,
                },
            ),
            final(self)@.authors == old(self)@.authors,
            final(self)@.owners == old(self)@.owners,
            final(self)@.default_owner == old(self)@.default_owner,
            final(self)@ == step(
                old(self)@,
                Change::AddBook { title: title@, isbn: opt_view(isbn), author_id },
            ),
    {
        let ghost b = BookView {
            name: title@,
            isbn: opt_view(isbn),
            author_id,
            owner_id: self.default_owner,
        };
        self.books.push(Book { name: title, isbn, author_id, owner_id: self.default_owner });
        assert(self@.books =~= old(self)@.books.push(b));
        self.books.len() - 1
    }

    /// Appends an owner, makes it the default owner of the books added from
    /// now on, and returns its position in the owner list.
    pub fn add_default_owner(&mut self, name: String) -> (r: usize)
        ensures
            r == old(self)@.owners.len(),
            final(self)@.owners == old(self)@.owners.push(OwnerView { name: name@ }),
            final(self)@.default_owner == r,
            final(self)@.authors == old(self)@.authors,
            final(self)@.books == old(self)@.books,
            final(self)@ == step(old(self)@, Change::AddOwner { name: name@ }),
    {
        let ghost n = name@;
        self.owners.push(Owner { name });
        self.default_owner = self.owners.len() - 1;
        assert(self@.owners =~= old(self)@.owners.push(OwnerView { name: n }));
        self.default_owner
    }

    /// The authors, in order of creation; an author's position is its id.
    pub fn author_list(&self) -> (r: &Vec<Author>)
        ensures
            authors_view(r@) == self@.authors,
            r@.len() == self@.authors.len(),
            forall|i: int| 0 <= i < r@.len() ==> #[trigger] r@[i]@ == self@.authors[i],
    {
        &self.authors
    }

    /// The books, in order of creation; a book's position is its id.
    pub fn book_list(&self) -> (r: &Vec<Book>)
        ensures
            books_view(r@) == self@.books,
            r@.len() == self@.books.len(),
            forall|i: int| 0 <= i < r@.len() ==> #[trigger] r@[i]@ == self@.books[i],
    {
        &self.books
    }

    /// The owners, in order of creation; an owner's position is its id.
    pub fn owner_list(&self) -> (r: &Vec<Owner>)
        ensures
            owners_view(r@) == self@.owners,
            r@.len() == self@.owners.len(),
            forall|i: int| 0 <= i < r@.len() ==> #[trigger] r@[i]@ == self@.owners[i],
    {
        &self.owners
    }

    /// The owner that the next book added will be given.
    pub fn default_owner(&self) -> (r: usize)
        ensures
            r == self@.default_owner,
    {
        self.default_owner
    }

    /// The catalog that holds exactly these lists and this default owner.
    pub fn from_parts(
        authors: Vec<Author>,
        books: Vec<Book>,
        owners: Vec<Owner>,
        default_owner: usize,
    ) -> (r: Database)
        ensures
            r@ == catalog_of(authors@, books@, owners@, default_owner),
    {
        Database { authors, books, owners, default_owner }
    }

    /// Copies of the catalog's lists, in order, and its default owner.
    pub fn parts(&self) -> (r: (Vec<Author>, Vec<Book>, Vec<Owner>, usize))
        ensures
            catalog_of(r.0@, r.1@, r.2@, r.3) == self@,
    {
        let mut authors: Vec<Author> = Vec::new();
        let mut i: usize = 0;
        while i < self.authors.len()
            invariant
                i <= self.authors@.len(),
                authors@.len() == i,
                forall|j: int| 0 <= j < i ==> #[trigger] authors@[j]@ == self.authors@[j]@,
            decreases self.authors@.len() - i,
        {
            let a = &self.authors[i];
            authors.push(Author { first_name: a.first_name.clone(), last_name: a.last_name.clone() });
            i = i + 1;
        }
        assert(authors_view(authors@) =~= authors_view(self.authors@));
        let mut books: Vec<Book> = Vec::new();
        let mut i: usize = 0;
        while i < self.books.len()
            invariant
                i <= self.books@.len(),
                books@.len() == i,
                forall|j: int| 0 <= j < i ==> #[trigger] books@[j]@ == self.books@[j]@,
            decreases self.books@.len() - i,
        {
            let b = &self.books[i];
            let isbn = match &b.isbn {
                Some(t) => Some(t.clone()),
                None => None,
            };
            books.push(
                Book { name: b.name.clone(), isbn, author_id: b.author_id, owner_id: b.owner_id },
            );
            i = i + 1;
        }
        assert(books_view(books@) =~= books_view(self.books@));
        let mut owners: Vec<Owner> = Vec::new();
        let mut i: usize = 0;
        while i < self.owners.len()
            invariant
                i <= self.owners@.len(),
                owners@.len() == i,
                forall|j: int| 0 <= j < i ==> #[trigger] owners@[j]@ == self.owners@[j]@,
            decreases self.owners@.len() - i,
        {
            let o = &self.owners[i];
            owners.push(Owner { name: o.name.clone() });
            i = i + 1;
        }
        assert(owners_view(owners@) =~= owners_view(self.owners@));
        (authors, books, owners, self.default_owner)
    }

    /// Takes the catalog apart into its lists and its default owner.
    pub fn into_parts(self) -> (r: (Vec<Author>, Vec<Book>, Vec<Owner>, usize))
        ensures
            catalog_of(r.0@, r.1@, r.2@, r.3) == self@,
    {
        (self.authors, self.books, self.owners, self.default_owner)
    }
}

} // verus!
