use bookshelf::catalog::{Author, Book, Database, Owner};
use bookshelf::persistence::{start_catalog, PersistenceError};
use bookshelf::session::{book_label, needs_default_owner, Interaction, MenuChoice, MENU_LEN};

#[test]
fn scenario_author_and_book() {
    let mut db = Database::new();
    assert_eq!(db.add_author("Ada".to_string(), "Lovelace".to_string()), 0);
    assert_eq!(db.add_book("Computability".to_string(), None, 0), 0);
    assert_eq!(db.book_list()[0].author_id, 0);
    assert_eq!(db.author_list()[0].to_string(), "Ada Lovelace");
}

#[test]
fn scenario_owner_tracking() {
    let mut db = Database::new();
    assert_eq!(db.add_default_owner("Alice".to_string()), 0);
    assert_eq!(db.default_owner(), 0);
    let b = db.add_book("T".to_string(), None, 0);
    assert_eq!(db.book_list()[b].owner_id, 0);
    assert_eq!(db.add_default_owner("Bob".to_string()), 1);
    assert_eq!(db.default_owner(), 1);
    let b = db.add_book("U".to_string(), None, 0);
    assert_eq!(db.book_list()[b].owner_id, 1);
}

#[test]
fn new_catalog_is_empty() {
    let db = Database::new();
    assert!(db.author_list().is_empty());
    assert!(db.book_list().is_empty());
    assert!(db.owner_list().is_empty());
    assert_eq!(db.default_owner(), 0);
}

#[test]
fn author_indices_ignore_interleaving() {
    let mut db = Database::new();
    assert_eq!(db.add_author("A".to_string(), "One".to_string()), 0);
    db.add_default_owner("Owner".to_string());
    db.add_book("B1".to_string(), None, 0);
    assert_eq!(db.add_author("B".to_string(), "Two".to_string()), 1);
    db.add_book("B2".to_string(), Some("123".to_string()), 1);
    db.add_default_owner("Other".to_string());
    assert_eq!(db.add_author("C".to_string(), "Three".to_string()), 2);
    assert_eq!(db.author_list().len(), 3);
    assert_eq!(db.author_list()[1].first_name, "B");
    assert_eq!(db.author_list()[2].last_name, "Three");
}

#[test]
fn lists_grow_by_one_on_their_own_add() {
    let mut db = Database::new();
    db.add_author("A".to_string(), "B".to_string());
    assert_eq!((db.author_list().len(), db.book_list().len(), db.owner_list().len()), (1, 0, 0));
    db.add_book("T".to_string(), None, 0);
    assert_eq!((db.author_list().len(), db.book_list().len(), db.owner_list().len()), (1, 1, 0));
    db.add_default_owner("O".to_string());
    assert_eq!((db.author_list().len(), db.book_list().len(), db.owner_list().len()), (1, 1, 1));
}

#[test]
fn empty_names_are_accepted() {
    let mut db = Database::new();
    assert_eq!(db.add_author(String::new(), String::new()), 0);
    assert_eq!(db.author_list()[0].to_string(), " ");
}

#[test]
fn book_keeps_isbn_and_absence() {
    let mut db = Database::new();
    db.add_author("A".to_string(), "B".to_string());
    db.add_book("With".to_string(), Some("978-0".to_string()), 0);
    db.add_book("Without".to_string(), None, 0);
    assert_eq!(db.book_list()[0].isbn, Some("978-0".to_string()));
    assert_eq!(db.book_list()[1].isbn, None);
    assert_eq!(db.book_list()[1].name, "Without");
}

#[test]
fn parts_round_trip() {
    let mut db = Database::new();
    db.add_author("Ada".to_string(), "Lovelace".to_string());
    db.add_default_owner("Alice".to_string());
    db.add_book("Notes".to_string(), Some("1".to_string()), 0);
    db.add_default_owner("Bob".to_string());
    let (authors, books, owners, default_owner) = db.into_parts();
    let db2 = Database::from_parts(authors, books, owners, default_owner);
    assert_eq!(db2.author_list()[0].to_string(), "Ada Lovelace");
    assert_eq!(db2.book_list()[0].name, "Notes");
    assert_eq!(db2.book_list()[0].isbn, Some("1".to_string()));
    assert_eq!(db2.book_list()[0].owner_id, 0);
    assert_eq!(db2.owner_list()[1].name, "Bob");
    assert_eq!(db2.default_owner(), 1);
}

#[test]
fn from_parts_keeps_given_values() {
    let db = Database::from_parts(
        vec![Author { first_name: "X".to_string(), last_name: "Y".to_string() }],
        vec![Book { name: "N".to_string(), isbn: None, author_id: 0, owner_id: 0 }],
        vec![Owner { name: "O".to_string() }],
        0,
    );
    assert_eq!(db.author_list().len(), 1);
    assert_eq!(db.book_list()[0].name, "N");
    assert_eq!(db.owner_list()[0].name, "O");
}

#[test]
fn open_failure_classification() {
    assert_eq!(PersistenceError::on_open(true), PersistenceError::NotFound);
    assert_eq!(PersistenceError::on_open(false), PersistenceError::Unreadable);
    assert!(PersistenceError::NotFound.is_not_found());
    assert!(!PersistenceError::Malformed.is_not_found());
    assert!(!PersistenceError::Unreadable.is_not_found());
}

#[test]
fn start_from_missing_file_is_empty() {
    let db = start_catalog(Err(PersistenceError::NotFound)).unwrap();
    assert!(db.author_list().is_empty());
    assert!(db.book_list().is_empty());
}

#[test]
fn start_from_malformed_file_fails() {
    assert_eq!(start_catalog(Err(PersistenceError::Malformed)).err(), Some(PersistenceError::Malformed));
    assert_eq!(start_catalog(Err(PersistenceError::Unreadable)).err(), Some(PersistenceError::Unreadable));
}

#[test]
fn start_from_loaded_keeps_it() {
    let mut db = Database::new();
    db.add_author("Ada".to_string(), "Lovelace".to_string());
    let db = start_catalog(Ok(db)).unwrap();
    assert_eq!(db.author_list().len(), 1);
}

#[test]
fn menu_selection() {
    assert_eq!(MENU_LEN, 5);
    assert_eq!(MenuChoice::from_selection(0), Some(MenuChoice::AddBook));
    assert_eq!(MenuChoice::from_selection(1), Some(MenuChoice::AddAuthor));
    assert_eq!(MenuChoice::from_selection(2), Some(MenuChoice::ListBooks));
    assert_eq!(MenuChoice::from_selection(3), Some(MenuChoice::ListAuthors));
    assert_eq!(MenuChoice::from_selection(4), Some(MenuChoice::Quit));
    assert_eq!(MenuChoice::from_selection(5), None);
    assert_eq!(MenuChoice::Quit.label(), "Quit");
    assert_eq!(MenuChoice::AddBook.label(), "Add book");
    assert_eq!(MenuChoice::Quit.interaction(), Interaction::Exit);
    assert_eq!(MenuChoice::ListAuthors.interaction(), Interaction::Continue);
}

#[test]
fn default_owner_needed_until_one_exists() {
    let mut db = Database::new();
    assert!(needs_default_owner(&db));
    db.add_default_owner("Alice".to_string());
    assert!(!needs_default_owner(&db));
}

#[test]
fn book_labels() {
    let mut db = Database::new();
    db.add_author("Ada".to_string(), "Lovelace".to_string());
    db.add_book("Notes".to_string(), None, 0);
    db.add_book("Lost".to_string(), None, 7);
    assert_eq!(book_label(&db, 0), Some("Notes (Ada Lovelace)".to_string()));
    assert_eq!(book_label(&db, 1), None);
}

#[test]
fn copied_parts_rebuild_the_catalog() {
    let mut db = Database::new();
    db.add_author("Ada".to_string(), "Lovelace".to_string());
    db.add_author("Alan".to_string(), "Turing".to_string());
    db.add_default_owner("Alice".to_string());
    db.add_book("Notes".to_string(), Some("42".to_string()), 1);
    let (authors, books, owners, default_owner) = db.parts();
    let copy = Database::from_parts(authors, books, owners, default_owner);
    assert_eq!(copy.author_list().len(), 2);
    assert_eq!(copy.author_list()[1].to_string(), "Alan Turing");
    assert_eq!(copy.book_list()[0].isbn, Some("42".to_string()));
    assert_eq!(copy.book_list()[0].author_id, 1);
    assert_eq!(copy.owner_list()[0].name, "Alice");
    assert_eq!(copy.default_owner(), 0);
    assert_eq!(db.author_list()[0].first_name, "Ada");
}
