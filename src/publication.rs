//! Authors, books, magazines and the publication union over them.
use vstd::prelude::*;

use crate::decimal::{decimal, push_decimal};

verus! {

/// Something that renders itself as one line of text.
pub trait Printable {
    /// The line that `print` produces.
    spec fn rendering(&self) -> Seq<char>;

    fn print(&self) -> (r: String)
        ensures
            r@ == self.rendering(),
    ;
}

/// Something written by an author.
pub trait Authored {
    /// The author's fields, as `get_author` hands them out.
    spec fn author_view(&self) -> AuthorView;

    /// An independent copy of the author.
    fn get_author(&self) -> (r: Author)
        ensures
            r@ == self.author_view(),
    ;
}

/// Something that appears in numbered issues.
pub trait Issued {
    /// The issue number that `get_issue` reports.
    spec fn issue_view(&self) -> nat;

    fn get_issue(&self) -> (r: usize)
        ensures
            r as nat == self.issue_view(),
    ;
}

/// The fields of an author, as mathematical values.
pub ghost struct AuthorView {
    pub id: nat,
    pub name: Seq<char>,
    pub surname: Seq<char>,
}

/// An author. Its names are shared text: copying an author copies the references only.
#[derive(Clone, Copy)]
pub struct Author<'a> {
    pub id: usize,
    pub name: &'a str,
    pub surname: &'a str,
}

impl<'a> View for Author<'a> {
    type V = AuthorView;

    open spec fn view(&self) -> AuthorView {
        AuthorView { id: self.id as nat, name: self.name@, surname: self.surname@ }
    }
}

/// `(<id>, <name> <surname>)`.
pub open spec fn author_text(a: AuthorView) -> Seq<char> {
    "("@ + decimal(a.id) + ", "@ + a.name + " "@ + a.surname + ")"@
}

impl<'a> Default for Author<'a> {
    /// Id 0 and empty names.
    fn default() -> (r: Self)
        ensures
            r@ == (AuthorView { id: 0, name: Seq::empty(), surname: Seq::empty() }),
    {
        proof {
            reveal_strlit("");
        }
        let r = Author { id: 0, name: "", surname: "" };
        assert(r@.name =~= Seq::<char>::empty());
        r
    }
}

impl<'a> Author<'a> {
    /// Appends `(<id>, <name> <surname>)` to `out`.
    fn push_text(&self, out: &mut String)
        ensures
            final(out)@ == old(out)@ + author_text(self@),
    {
        out.append("(");
        push_decimal(out, self.id);
        out.append(", ");
        out.append(self.name);
        out.append(" ");
        out.append(self.surname);
        out.append(")");
        assert(final(out)@ =~= old(out)@ + author_text(self@));
    }

    /// The author as `(<id>, <name> <surname>)`.
    pub fn render(&self) -> (r: String)
        ensures
            r@ == author_text(self@),
    {
        let mut out = String::new();
        self.push_text(&mut out);
        assert(out@ =~= author_text(self@));
        out
    }
}

/// The category of a magazine.
#[derive(Clone, Copy, Debug, PartialEq, Eq, Structural)]
pub enum Topic {
    Science,
    Economy,
    Philosophy,
}

/// The name of a topic's tag, and nothing else.
pub open spec fn topic_text(t: Topic) -> Seq<char> {
    match t {
        Topic::Science => seq!['S', 'c', 'i', 'e', 'n', 'c', 'e'],
        Topic::Economy => seq!['E', 'c', 'o', 'n', 'o', 'm', 'y'],
        Topic::Philosophy => seq!['P', 'h', 'i', 'l', 'o', 's', 'o', 'p', 'h', 'y'],
    }
}

impl Topic {
    /// The tag's name.
    pub fn tag_name(&self) -> (r: &'static str)
        ensures
            r@ == topic_text(*self),
    {
        let r: &'static str = match self {
            Topic::Science => {
                proof { reveal_strlit("Science"); }
                "Science"
            },
            Topic::Economy => {
                proof { reveal_strlit("Economy"); }
                "Economy"
            },
            Topic::Philosophy => {
                proof { reveal_strlit("Philosophy"); }
                "Philosophy"
            },
        };
        assert(r@ =~= topic_text(*self));
        r
    }
}

/// Distinct topics render as distinct names: a name tells its tag.
pub proof fn lemma_topic_text_injective(t: Topic, u: Topic)
    ensures
        topic_text(t) == topic_text(u) <==> t == u,
{
    if t != u && topic_text(t) == topic_text(u) {
        assert(topic_text(t)[0] != topic_text(u)[0] || topic_text(t).len() != topic_text(
            u,
        ).len());
    }
}

/// The fields of a book, as mathematical values.
pub ghost struct BookView {
    pub title: Seq<char>,
    pub author: AuthorView,
    pub page_count: nat,
}

/// A book. It refers to its author, who must outlive it, and never owns it.
pub struct Book<'a> {
    title: &'a str,
    author: &'a Author<'a>,
    page_count: usize,
}

impl<'a> View for Book<'a> {
    type V = BookView;

    closed spec fn view(&self) -> BookView {
        BookView { title: self.title@, author: self.author@, page_count: self.page_count as nat }
    }
}

/// `<title> author: (<id>, <name> <surname>), [<page count>]`.
pub open spec fn book_text(b: BookView) -> Seq<char> {
    b.title + " author: "@ + author_text(b.author) + ", ["@ + decimal(b.page_count) + "]"@
}

impl<'a, 'b> Book<'a> where 'b: 'a {
    /// A book with the given title, author and page count; any page count is accepted.
    pub fn new(title: &'a str, author: &'b Author, page_count: usize) -> (r: Self)
        ensures
            r@ == (BookView { title: title@, author: author@, page_count: page_count as nat }),
    {
        Book { title, author, page_count }
    }
}

impl<'a> Book<'a> {
    /// The title, as the book was given it.
    pub fn title(&self) -> (r: &'a str)
        ensures
            r@ == self@.title,
    {
        self.title
    }
}

impl<'a> Authored for Book<'a> {
    open spec fn author_view(&self) -> AuthorView {
        self@.author
    }

    fn get_author(&self) -> (r: Author) {
        *self.author
    }
}

impl<'a> Printable for Book<'a> {
    open spec fn rendering(&self) -> Seq<char> {
        book_text(self@)
    }

    fn print(&self) -> (r: String) {
        let mut out = String::from_str(self.title);
        out.append(" author: ");
        self.author.push_text(&mut out);
        out.append(", [");
        push_decimal(&mut out, self.page_count);
        out.append("]");
        assert(out@ =~= book_text(self@));
        out
    }
}

/// Books whose titles hold the same characters report equal titles, whatever their authors
/// and page counts, and whether or not the two texts share storage.
pub proof fn lemma_equal_title_text(t1: &str, t2: &str, b1: Book, b2: Book)
    requires
        b1@.title == t1@,
        b2@.title == t2@,
        t1@ == t2@,
    ensures
        b1@.title == b2@.title,
{
}

/// The fields of a magazine, as mathematical values.
pub ghost struct MagazineView {
    pub title: Seq<char>,
    pub issue: nat,
    pub topic: Topic,
}

/// A magazine: a title, an issue number and a topic.
pub struct Magazine<'a> {
    title: &'a str,
    issue: usize,
    topic: Topic,
}

impl<'a> View for Magazine<'a> {
    type V = MagazineView;

    closed spec fn view(&self) -> MagazineView {
        MagazineView { title: self.title@, issue: self.issue as nat, topic: self.topic }
    }
}

/// `<title> - issue: <issue>, [<topic name>]`.
pub open spec fn magazine_text(m: MagazineView) -> Seq<char> {
    m.title + " - issue: "@ + decimal(m.issue) + ", ["@ + topic_text(m.topic) + "]"@
}

impl<'a> Magazine<'a> {
    /// A magazine with the given title, issue number and topic; nothing is checked.
    pub fn new(title: &'a str, issue: usize, topic: Topic) -> (r: Self)
        ensures
            r@ == (MagazineView { title: title@, issue: issue as nat, topic }),
    {
        Magazine { title, issue, topic }
    }
}

impl<'a> Printable for Magazine<'a> {
    open spec fn rendering(&self) -> Seq<char> {
        magazine_text(self@)
    }

    fn print(&self) -> (r: String) {
        let mut out = String::from_str(self.title);
        out.append(" - issue: ");
        push_decimal(&mut out, self.issue);
        out.append(", [");
        out.append(self.topic.tag_name());
        out.append("]");
        assert(out@ =~= magazine_text(self@));
        out
    }
}

impl<'a> Issued for Magazine<'a> {
    open spec fn issue_view(&self) -> nat {
        self@.issue
    }

    fn get_issue(&self) -> (r: usize) {
        self.issue
    }
}

/// Either a book-like or a magazine-like value, never both.
pub enum Publication<B, M> where B: Authored + Printable, M: Issued + Printable {
    Book(B),
    Magazine(M),
}

/// `"Book : "` or `"Magazine : "`, then the held value's own line.
pub open spec fn publication_text<B: Authored + Printable, M: Issued + Printable>(
    p: Publication<B, M>,
) -> Seq<char> {
    match p {
        Publication::Book(b) => "Book : "@ + b.rendering(),
        Publication::Magazine(m) => "Magazine : "@ + m.rendering(),
    }
}

impl<B, M> Publication<B, M> where B: Authored + Printable, M: Issued + Printable {
    /// The line for this publication: its kind's tag, ` : `, and the held value's line.
    pub fn print(&self) -> (r: String)
        ensures
            r@ == publication_text(*self),
    {
        let tag: &str;
        let printed: String;
        match self {
            Publication::Book(b) => {
                tag = "Book";
                printed = b.print();
            },
            Publication::Magazine(m) => {
                tag = "Magazine";
                printed = m.print();
            },
        }
        let mut out = String::from_str(tag);
        out.append(" : ");
        out.append(printed.as_str());
        proof {
            reveal_strlit("Book");
            reveal_strlit("Magazine");
            reveal_strlit(" : ");
            reveal_strlit("Book : ");
            reveal_strlit("Magazine : ");
        }
        assert(out@ =~= publication_text(*self));
        out
    }
}

} // verus!
