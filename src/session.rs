use vstd::prelude::*;
use vstd::string::StringExecFns;
use crate::catalog::{authors_view, display_name, AuthorView, BookView, Database};

verus! {

/// Whether a session goes on after one round of the menu.
#[derive(PartialEq, Eq, Structural, Clone, Copy, Debug)]
pub enum Interaction {
    Continue,
    Exit,
}

/// The entries of the main menu, in the order in which they are offered.
#[derive(PartialEq, Eq, Structural, Clone, Copy, Debug)]
pub enum MenuChoice {
    AddBook,
    AddAuthor,
    ListBooks,
    ListAuthors,
    Quit,
}

/// The number of entries of the main menu.
pub const MENU_LEN: usize = 5;

/// The entry at position `i` of the main menu.
pub open spec fn choice_at(i: nat) -> Option<MenuChoice> {
    if i == 0 {
        Some(MenuChoice::AddBook)
    } else if i == 1 {
        Some(MenuChoice::AddAuthor)
    } else if i == 2 {
        Some(MenuChoice::ListBooks)
    } else if i == 3 {
        Some(MenuChoice::ListAuthors)
    } else if i == 4 {
        Some(MenuChoice::Quit)
    } else {
        None
    }
}

impl MenuChoice {
    /// The entry that a selection of position `i` of the menu stands for.
    pub fn from_selection(i: usize) -> (r: Option<MenuChoice>)
        ensures
            r == choice_at(i as nat),
            r is Some <==> i < MENU_LEN,
    {
        if i == 0 {
            Some(MenuChoice::AddBook)
        } else if i == 1 {
            Some(MenuChoice::AddAuthor)
        } else if i == 2 {
            Some(MenuChoice::ListBooks)
        } else if i == 3 {
            Some(MenuChoice::ListAuthors)
        } else if i == 4 {
            Some(MenuChoice::Quit)
        } else {
            None
        }
    }

    /// The text of the entry in the menu.
    pub fn label(&self) -> (r: &'static str)
        ensures
            r@ == match *self {
                MenuChoice::AddBook => "Add book"@,
                MenuChoice::AddAuthor => "Add author"@,
                MenuChoice::ListBooks => "List books"@,
                MenuChoice::ListAuthors => "List authors"@,
                MenuChoice::Quit => "Quit"@,
            },
    {
        match self {
            MenuChoice::AddBook => "Add book",
            MenuChoice::AddAuthor => "Add author",
            MenuChoice::ListBooks => "List books",
            MenuChoice::ListAuthors => "List authors",
            MenuChoice::Quit => "Quit",
        }
    }

    /// Whether the session goes on once this entry has been carried out.
    pub fn interaction(&self) -> (r: Interaction)
        ensures
            r == (if *self == MenuChoice::Quit { Interaction::Exit } else { Interaction::Continue }),
    {
        match self {
            MenuChoice::Quit => Interaction::Exit,
            _ => Interaction::Continue,
        }
    }
}

/// Whether a name for the default owner must be asked for before books can
/// be added: the catalog has no owner yet.
pub fn needs_default_owner(db: &Database) -> (r: bool)
    ensures
        r == (db@.owners.len() == 0),
{
    db.owner_list().len() == 0
}

/// How a book is listed: its title, then its author's name in parentheses.
pub open spec fn book_line(b: BookView, a: AuthorView) -> Seq<char> {
    b.name + seq![' ', '('] + display_name(a) + seq![')']
}

/// The line listing the book at position `i`, or `None` when the book's
/// author id is not a position of the author list.
pub fn book_label(db: &Database, i: usize) -> (r: Option<String>)
    requires
        i < db@.books.len(),
    ensures
        r is Some <==> db@.books[i as int].author_id < db@.authors.len(),
        r matches Some(s) ==> s@ == book_line(
            db@.books[i as int],
            db@.authors[db@.books[i as int].author_id as int],
        ),
{
    let books = db.book_list();
    let authors = db.author_list();
    let book = &books[i];
    assert(book@ == db@.books[i as int]);
    if book.author_id < authors.len() {
        let author = &authors[book.author_id];
        assert(author@ == authors_view(authors@)[book.author_id as int]);
        let mut s = book.name.clone();
        let open = " (";
        let close = ")";
        proof {
            reveal_strlit(" (");
            reveal_strlit(")");
        }
        s.append(open);
        let name = author.to_string();
        s.append(name.as_str());
        s.append(close);
        assert(s@ =~= book_line(book@, author@));
        Some(s)
    } else {
        None
    }
}

} // verus!
