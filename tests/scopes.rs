use std::str::FromStr;

use fimapi::auth::scopes::Scope;

const ALL: [Scope; 15] = [
    Scope::WriteBlogPosts,
    Scope::ReadBookshelves,
    Scope::WriteBookshelves,
    Scope::ReadBookshelfItems,
    Scope::WriteBookshelfItems,
    Scope::ReadPms,
    Scope::WritePms,
    Scope::WriteFollowers,
    Scope::ReadStories,
    Scope::WriteStories,
    Scope::WriteComments,
    Scope::ReadUser,
    Scope::WriteUser,
    Scope::ReadChapterRead,
    Scope::WriteChapterRead,
];

#[test]
fn test_scope_parse() {
    let r = Scope::from_str("write_chapter_read").unwrap();
    assert_eq!(r, Scope::WriteChapterRead);
    let _ = Scope::from_str("Gibberish").unwrap_err();
}

#[test]
fn every_scope_round_trips_through_its_wire_name() {
    for s in ALL.iter() {
        assert_eq!(Scope::from_wire(s.as_str()).unwrap(), *s);
        assert_eq!(Scope::from_str(s.as_str()).unwrap(), *s);
    }
}

#[test]
fn wire_names_are_distinct() {
    for (i, a) in ALL.iter().enumerate() {
        for (j, b) in ALL.iter().enumerate() {
            assert_eq!(i == j, a.as_str() == b.as_str());
        }
    }
}

#[test]
fn read_stories_is_sent_as_read_followers() {
    // The scope for reading stories goes by the wire name `read_followers`;
    // `read_stories` names no scope.
    assert_eq!(Scope::ReadStories.as_str(), "read_followers");
    assert_eq!(Scope::from_str("read_followers").unwrap(), Scope::ReadStories);
    assert!(Scope::from_str("read_stories").is_err());
}

#[test]
fn exact_wire_names() {
    assert_eq!(Scope::WriteBlogPosts.as_str(), "write_blog_posts");
    assert_eq!(Scope::ReadBookshelfItems.as_str(), "read_bookshelf_items");
    assert_eq!(Scope::WriteChapterRead.as_str(), "write_chapter_read");
}

#[test]
fn parsing_is_case_sensitive_and_exact() {
    assert!(Scope::from_wire("Write_Stories").is_err());
    assert!(Scope::from_wire("write_stories ").is_err());
    assert!(Scope::from_wire("").is_err());
    assert_eq!(Scope::from_wire("write_stories").unwrap(), Scope::WriteStories);
}
