use library::{Author, Authored, Book, Issued, Magazine, Printable, Publication, Topic};

fn author<'a>(id: usize, name: &'a str, surname: &'a str) -> Author<'a> {
    Author { id, name, surname }
}

#[test]
fn issue_numbers_render_in_decimal() {
    let line = |n: usize| Magazine::new("M", n, Topic::Science).print();
    assert_eq!(line(0), "M - issue: 0, [Science]");
    assert_eq!(line(9), "M - issue: 9, [Science]");
    assert_eq!(line(10), "M - issue: 10, [Science]");
    assert_eq!(line(9222), "M - issue: 9222, [Science]");
    assert_eq!(line(usize::MAX), format!("M - issue: {}, [Science]", usize::MAX));
}

#[test]
fn author_default_is_zero_and_empty() {
    let a = Author::default();
    assert_eq!(a.id, 0);
    assert_eq!(a.name, "");
    assert_eq!(a.surname, "");
    assert_eq!(a.render(), "(0,  )");
}

#[test]
fn author_render_matches_template() {
    assert_eq!(author(1, "Lao", "Tzu").render(), "(1, Lao Tzu)");
}

#[test]
fn book_print_matches_template() {
    let a = author(1, "Lao", "Tzu");
    let b = Book::new("Tao Te Ching", &a, 224);
    assert_eq!(b.print(), "Tao Te Ching author: (1, Lao Tzu), [224]");
}

#[test]
fn book_print_with_zero_pages_and_default_surname() {
    let a = Author { id: 2, name: "Vyasa", ..Default::default() };
    let b = Book::new("Bhagavad Gita", &a, 0);
    assert_eq!(b.print(), "Bhagavad Gita author: (2, Vyasa ), [0]");
}

#[test]
fn magazine_print_matches_template() {
    let m = Magazine::new("New Scientist", 3476, Topic::Science);
    assert_eq!(m.print(), "New Scientist - issue: 3476, [Science]");
    let m = Magazine::new("", 0, Topic::Philosophy);
    assert_eq!(m.print(), " - issue: 0, [Philosophy]");
}

#[test]
fn magazine_issue_is_kept() {
    let m = Magazine::new("The Economist", (2024 - 1843) * 51 - 9, Topic::Economy);
    assert_eq!(m.get_issue(), 9222);
    assert_eq!(Magazine::new("x", usize::MAX, Topic::Science).get_issue(), usize::MAX);
}

#[test]
fn get_author_returns_independent_copy() {
    let a = author(4, "Jill", "McCorkle");
    let b1 = Book::new("Life After Life", &a, 368);
    let b2 = Book::new("Ending Up", &a, 200);
    let mut copy = b1.get_author();
    assert_eq!((copy.id, copy.name, copy.surname), (4, "Jill", "McCorkle"));
    copy.id = 99;
    copy.name = "Someone";
    copy.surname = "Else";
    assert_eq!(a.id, 4);
    assert_eq!(b1.get_author().id, 4);
    assert_eq!(b1.get_author().name, "Jill");
    assert_eq!(b2.get_author().surname, "McCorkle");
    assert_eq!(b2.print(), "Ending Up author: (4, Jill McCorkle), [200]");
}

#[test]
fn publication_print_prefixes_tag() {
    let a = author(3, "Marcus", "Aurelius");
    let b = Book::new("Meditations", &a, 701);
    let expected_book = format!("Book : {}", b.print());
    let p: Publication<Book, Magazine> = Publication::Book(b);
    assert_eq!(p.print(), expected_book);
    assert_eq!(p.print(), "Book : Meditations author: (3, Marcus Aurelius), [701]");
    let m = Magazine::new("Philosophy Now", 160, Topic::Philosophy);
    let expected_magazine = format!("Magazine : {}", m.print());
    let p: Publication<Book, Magazine> = Publication::Magazine(m);
    assert_eq!(p.print(), expected_magazine);
    assert_eq!(p.print(), "Magazine : Philosophy Now - issue: 160, [Philosophy]");
}

#[test]
fn sample_roster_prints_six_lines_in_order() {
    let lao_tzu = author(1, "Lao", "Tzu");
    let vyasa = Author { id: 2, name: "Vyasa", ..Default::default() };
    let marcus = author(3, "Marcus", "Aurelius");
    let publications: Vec<Publication<Book, Magazine>> = vec![
        Publication::Book(Book::new("Tao Te Ching", &lao_tzu, 224)),
        Publication::Book(Book::new("Bhagavad Gita", &vyasa, 701)),
        Publication::Book(Book::new("Meditations", &marcus, 701)),
        Publication::Magazine(Magazine::new("New Scientist", 3476, Topic::Science)),
        Publication::Magazine(Magazine::new(
            "The Economist",
            (2024 - 1843) * 51 - 9,
            Topic::Economy,
        )),
        Publication::Magazine(Magazine::new("Philosophy Now", 160, Topic::Philosophy)),
    ];
    let lines: Vec<String> = publications.iter().map(|p| p.print()).collect();
    assert_eq!(
        lines,
        vec![
            "Book : Tao Te Ching author: (1, Lao Tzu), [224]",
            "Book : Bhagavad Gita author: (2, Vyasa ), [701]",
            "Book : Meditations author: (3, Marcus Aurelius), [701]",
            "Magazine : New Scientist - issue: 3476, [Science]",
            "Magazine : The Economist - issue: 9222, [Economy]",
            "Magazine : Philosophy Now - issue: 160, [Philosophy]",
        ]
    );
}

#[test]
fn equal_title_text_gives_equal_titles() {
    let jill = author(4, "Jill", "McCorkle");
    let kate = author(5, "Kate", "Atkinson");
    let owned = String::from("Life After Life");
    let b4 = Book::new("Life After Life", &jill, 368);
    let b5 = Book::new(owned.as_str(), &kate, 525);
    assert_eq!(b4.title(), b5.title());
    assert_ne!(b4.print(), b5.print());
}

#[test]
fn topic_renders_as_tag_name_only() {
    assert_eq!(Topic::Science.tag_name(), "Science");
    assert_eq!(Topic::Economy.tag_name(), "Economy");
    assert_eq!(Topic::Philosophy.tag_name(), "Philosophy");
    for t in [Topic::Science, Topic::Economy, Topic::Philosophy] {
        assert_eq!(t.tag_name(), format!("{:#?}", t));
    }
}
