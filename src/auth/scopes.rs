//! The permission scopes of the FimFiction OAuth API and their wire names.

use vstd::prelude::*;

verus! {

/// The scopes available through the FimFiction OAuth API.
#[derive(Debug, Copy, Clone, PartialEq, Eq, Structural, Hash)]
pub enum Scope {
    /// Allows an app to post blog posts
    WriteBlogPosts,
    /// Allows an app to read non-public blog posts
    ReadBookshelves,
    /// Allows an app to write items to create/edit bookshelves
    WriteBookshelves,
    /// Allows an app to read items from a private bookshelf
    ReadBookshelfItems,
    /// Allows an app to add/remove items to a bookshelf
    WriteBookshelfItems,
    /// Allows an app to read the PMs of a user
    ReadPms,
    /// Allows an app to write the PMs of a user
    WritePms,
    /// Allows an app to follow/unfollow users
    WriteFollowers,
    /// Allows an app to read unpublished chapters/stories.
    ///
    /// Its wire name is `read_followers`, not `read_stories`: the string
    /// `read_stories` names no scope at all.
    ReadStories,
    /// Allows an app to write/edit/publish/delete stories
    WriteStories,
    /// Allows an app to write/edit/delete comments
    WriteComments,
    /// Allows an app to read private account information
    ReadUser,
    /// Allows an app to modify account information
    WriteUser,
    /// Allows an app to see what chapters a user has read
    ReadChapterRead,
    /// Allows an app to mark chapters as read/unread
    WriteChapterRead,
}

/// The wire name of a scope.
pub open spec fn wire_name(s: Scope) -> Seq<char> {
    match s {
        Scope::WriteBlogPosts => "write_blog_posts"@,
        Scope::ReadBookshelves => "read_bookshelves"@,
        Scope::WriteBookshelves => "write_bookshelves"@,
        Scope::ReadBookshelfItems => "read_bookshelf_items"@,
        Scope::WriteBookshelfItems => "write_bookshelf_items"@,
        Scope::ReadPms => "read_pms"@,
        Scope::WritePms => "write_pms"@,
        Scope::WriteFollowers => "write_followers"@,
        Scope::ReadStories => "read_followers"@,
        Scope::WriteStories => "write_stories"@,
        Scope::WriteComments => "write_comments"@,
        Scope::ReadUser => "read_user"@,
        Scope::WriteUser => "write_user"@,
        Scope::ReadChapterRead => "read_chapter_read"@,
        Scope::WriteChapterRead => "write_chapter_read"@,
    }
}

/// The scope whose wire name is `t`, if there is one.
pub open spec fn scope_named(t: Seq<char>) -> Option<Scope> {
    if exists|s: Scope| wire_name(s) == t {
        Some(choose|s: Scope| wire_name(s) == t)
    } else {
        None
    }
}

impl Scope {
    /// Returns the scope name that FimFiction recognizes.
    pub fn as_str(&self) -> (r: &'static str)
        ensures
            r@ == wire_name(*self),
    {
        match self {
            Scope::WriteBlogPosts => "write_blog_posts",
            Scope::ReadBookshelves => "read_bookshelves",
            Scope::WriteBookshelves => "write_bookshelves",
            Scope::ReadBookshelfItems => "read_bookshelf_items",
            Scope::WriteBookshelfItems => "write_bookshelf_items",
            Scope::ReadPms => "read_pms",
            Scope::WritePms => "write_pms",
            Scope::WriteFollowers => "write_followers",
            Scope::ReadStories => "read_followers",
            Scope::WriteStories => "write_stories",
            Scope::WriteComments => "write_comments",
            Scope::ReadUser => "read_user",
            Scope::WriteUser => "write_user",
            Scope::ReadChapterRead => "read_chapter_read",
            Scope::WriteChapterRead => "write_chapter_read",
        }
    }
}

/// Distinct scopes have distinct wire names.
pub proof fn lemma_wire_names_distinct(a: Scope, b: Scope)
    ensures
        wire_name(a) == wire_name(b) ==> a == b,
{
    if wire_name(a) == wire_name(b) {
        reveal_strlit("write_blog_posts");
        reveal_strlit("read_bookshelves");
        reveal_strlit("write_bookshelves");
        reveal_strlit("read_bookshelf_items");
        reveal_strlit("write_bookshelf_items");
        reveal_strlit("read_pms");
        reveal_strlit("write_pms");
        reveal_strlit("write_followers");
        reveal_strlit("read_followers");
        reveal_strlit("write_stories");
        reveal_strlit("write_comments");
        reveal_strlit("read_user");
        reveal_strlit("write_user");
        reveal_strlit("read_chapter_read");
        reveal_strlit("write_chapter_read");
        assert(wire_name(a).len() == wire_name(b).len());
        assert(wire_name(a)[0] == wire_name(b)[0]);
        assert(wire_name(a)[1] == wire_name(b)[1]);
        assert(wire_name(a)[2] == wire_name(b)[2]);
        assert(wire_name(a)[3] == wire_name(b)[3]);
        assert(wire_name(a)[4] == wire_name(b)[4]);
        assert(wire_name(a)[5] == wire_name(b)[5]);
        assert(wire_name(a)[6] == wire_name(b)[6]);
        assert(wire_name(a)[7] == wire_name(b)[7]);
        assert(wire_name(a)[8] == wire_name(b)[8]);
        assert(wire_name(a)[9] == wire_name(b)[9]);
        assert(wire_name(a)[10] == wire_name(b)[10]);
        assert(wire_name(a)[11] == wire_name(b)[11]);
        assert(wire_name(a)[12] == wire_name(b)[12]);
        assert(wire_name(a)[13] == wire_name(b)[13]);
        assert(wire_name(a)[14] == wire_name(b)[14]);
        assert(wire_name(a)[15] == wire_name(b)[15]);
        assert(wire_name(a)[16] == wire_name(b)[16]);
        assert(wire_name(a)[17] == wire_name(b)[17]);
        assert(wire_name(a)[18] == wire_name(b)[18]);
        assert(wire_name(a)[19] == wire_name(b)[19]);
        assert(wire_name(a)[20] == wire_name(b)[20]);
    }
}

/// Parsing the wire name of any scope gives back that scope.
pub proof fn lemma_scope_round_trip(s: Scope)
    ensures
        scope_named(wire_name(s)) == Some(s),
{
    let t = wire_name(s);
    assert(exists|x: Scope| wire_name(x) == t);
    let c = choose|x: Scope| wire_name(x) == t;
    lemma_wire_names_distinct(c, s);
}

/// The string `read_stories` names no scope: [Scope::ReadStories] goes by the
/// wire name `read_followers`.
pub proof fn lemma_read_stories_names_nothing()
    ensures
        scope_named("read_stories"@) is None,
        wire_name(Scope::ReadStories) == "read_followers"@,
{
    assert forall|s: Scope| wire_name(s) != "read_stories"@ by {
        reveal_strlit("write_blog_posts");
        reveal_strlit("read_bookshelves");
        reveal_strlit("write_bookshelves");
        reveal_strlit("read_bookshelf_items");
        reveal_strlit("write_bookshelf_items");
        reveal_strlit("read_pms");
        reveal_strlit("write_pms");
        reveal_strlit("write_followers");
        reveal_strlit("read_followers");
        reveal_strlit("write_stories");
        reveal_strlit("write_comments");
        reveal_strlit("read_user");
        reveal_strlit("write_user");
        reveal_strlit("read_chapter_read");
        reveal_strlit("write_chapter_read");
        reveal_strlit("read_stories");
        assert(wire_name(s).len() != "read_stories"@.len());
    }
}

/// Whether two strings hold the same characters.
fn same_text(a: &str, b: &str) -> (r: bool)
    ensures
        r == (a@ == b@),
{
    a.to_owned() == b.to_owned()
}

/// A string that names no [Scope].
#[derive(Debug, Clone)]
pub struct ParseScopeError(String);

impl ParseScopeError {
    /// The text that failed to parse.
    pub closed spec fn text(&self) -> Seq<char> {
        self.0@
    }
}

impl Scope {
    /// Parses a wire name into the scope it names.
    pub fn from_wire(s: &str) -> (r: Result<Scope, ParseScopeError>)
        ensures
            match scope_named(s@) {
                Some(sc) => r == Ok::<Scope, ParseScopeError>(sc),
                None => r matches Err(e) && e.text() == s@,
            },
    {
        if same_text(s, "write_blog_posts") {
            proof {
                lemma_scope_round_trip(Scope::WriteBlogPosts);
            }
            return Ok(Scope::WriteBlogPosts);
        }
        if same_text(s, "read_bookshelves") {
            proof {
                lemma_scope_round_trip(Scope::ReadBookshelves);
            }
            return Ok(Scope::ReadBookshelves);
        }
        if same_text(s, "write_bookshelves") {
            proof {
                lemma_scope_round_trip(Scope::WriteBookshelves);
            }
            return Ok(Scope::WriteBookshelves);
        }
        if same_text(s, "read_bookshelf_items") {
            proof {
                lemma_scope_round_trip(Scope::ReadBookshelfItems);
            }
            return Ok(Scope::ReadBookshelfItems);
        }
        if same_text(s, "write_bookshelf_items") {
            proof {
                lemma_scope_round_trip(Scope::WriteBookshelfItems);
            }
            return Ok(Scope::WriteBookshelfItems);
        }
        if same_text(s, "read_pms") {
            proof {
                lemma_scope_round_trip(Scope::ReadPms);
            }
            return Ok(Scope::ReadPms);
        }
        if same_text(s, "write_pms") {
            proof {
                lemma_scope_round_trip(Scope::WritePms);
            }
            return Ok(Scope::WritePms);
        }
        if same_text(s, "write_followers") {
            proof {
                lemma_scope_round_trip(Scope::WriteFollowers);
            }
            return Ok(Scope::WriteFollowers);
        }
        if same_text(s, "read_followers") {
            proof {
                lemma_scope_round_trip(Scope::ReadStories);
            }
            return Ok(Scope::ReadStories);
        }
        if same_text(s, "write_stories") {
            proof {
                lemma_scope_round_trip(Scope::WriteStories);
            }
            return Ok(Scope::WriteStories);
        }
        if same_text(s, "write_comments") {
            proof {
                lemma_scope_round_trip(Scope::WriteComments);
            }
            return Ok(Scope::WriteComments);
        }
        if same_text(s, "read_user") {
            proof {
                lemma_scope_round_trip(Scope::ReadUser);
            }
            return Ok(Scope::ReadUser);
        }
        if same_text(s, "write_user") {
            proof {
                lemma_scope_round_trip(Scope::WriteUser);
            }
            return Ok(Scope::WriteUser);
        }
        if same_text(s, "read_chapter_read") {
            proof {
                lemma_scope_round_trip(Scope::ReadChapterRead);
            }
            return Ok(Scope::ReadChapterRead);
        }
        if same_text(s, "write_chapter_read") {
            proof {
                lemma_scope_round_trip(Scope::WriteChapterRead);
            }
            return Ok(Scope::WriteChapterRead);
        }
        Err(ParseScopeError(s.to_owned()))
    }
}

impl std::str::FromStr for Scope {
    type Err = ParseScopeError;

    fn from_str(s: &str) -> Result<Scope, ParseScopeError> {
        Scope::from_wire(s)
    }
}

} // verus!
