use papercoat::renderer::render_tex;
use papercoat::sections::{generate_references, generate_sections};
use papercoat::templates::{escape_specials, get_postamble};
use papercoat::extractor::page_count_or_zero;
use papercoat::transformer::{
    extract_blockquotes, generate_date, generate_review_dates, transform_text_seeded,
};

fn chars(s: &str) -> Vec<char> {
    s.chars().collect()
}

#[test]
fn every_block_quote_comes_from_a_long_paragraph() {
    let long_a = "The lighthouse keeper counted the ships every evening, writing their names into a ledger that nobody else would ever read.";
    let short = "A short one.";
    let long_b = "   Rain came in sideways off the sea, and the lamp room filled with the smell of salt and kerosene until morning broke grey.  ";
    let text = format!("{}\n\n{}\n\n{}", long_a, short, long_b);
    let quotes = extract_blockquotes(&text, 5);
    assert_eq!(quotes.len(), 2);
    assert_eq!(quotes[0], format!("'{}'", long_a));
    assert_eq!(quotes[1], format!("'{}'", long_b.trim()));
    let one = extract_blockquotes(&text, 1);
    assert_eq!(one, vec![format!("'{}'", long_a)]);
    assert!(extract_blockquotes(&text, 0).is_empty());
}

#[test]
fn block_quotes_are_cut_to_two_hundred_characters() {
    let para: String = std::iter::repeat("abcdefghij").take(30).collect();
    let quotes = extract_blockquotes(&para, 3);
    assert_eq!(quotes.len(), 1);
    assert_eq!(quotes[0], format!("'{}'", &para[..200]));
}

#[test]
fn dates_follow_the_seed_and_stay_on_the_calendar() {
    assert_eq!(generate_date(5, 30, 180), "May 15, 2025");
    assert_eq!(generate_date(123456789, 180, 365), "July 5, 2024");
    // A seed that is negative as a signed number still gives a calendar date.
    assert_eq!(generate_date(usize::MAX, 30, 180), "May 7, 2025");
}

#[test]
fn escaping_marks_every_special_character_and_can_be_undone() {
    let s = "R&D \\& more & less_than 5%";
    let e = escape_specials(s);
    assert_eq!(e, "R\\&D \\\\& more \\& less\\_than 5\\%");
    let undone = e.replace("\\&", "&").replace("\\_", "_").replace("\\%", "%");
    assert_eq!(undone, s);
}

#[test]
fn papers_have_six_sections_and_seven_references() {
    let text = chars("Some text.\n\nAnother paragraph of text.");
    let sections = generate_sections(&text, 6, 11);
    let headings: Vec<&str> = sections.iter().map(|s| s.heading.as_str()).collect();
    assert_eq!(
        headings,
        vec![
            "Introduction",
            "Related Work",
            "Corpus and Methodology",
            "Results and Analysis",
            "Discussion",
            "Conclusion"
        ]
    );
    assert_eq!(generate_references(&text, 11).len(), 7);
    assert_eq!(generate_references(&text, 0).len(), 7);
}

#[test]
fn rendered_documents_are_complete() {
    let paper = transform_text_seeded("Once upon a time.\n\nThe end.", None, None, 2, 42);
    for template in ["default", "nature", "ieee", "other"] {
        let tex = render_tex(&paper, template);
        assert!(tex.starts_with("\\documentclass"));
        assert!(tex.contains("\\begin{document}"));
        assert!(tex.ends_with(&format!("{}\n", get_postamble())));
    }
}

fn date_key(date: &str) -> (u32, usize, u32) {
    let months = [
        "January", "February", "March", "April", "May", "June", "July", "August", "September",
        "October", "November", "December",
    ];
    let parts: Vec<&str> = date.split(' ').collect();
    let month = months.iter().position(|m| *m == parts[0]).unwrap();
    let day: u32 = parts[1].trim_end_matches(',').parse().unwrap();
    let year: u32 = parts[2].parse().unwrap();
    (year, month, day)
}

#[test]
fn papers_are_received_before_they_are_accepted() {
    assert_eq!(
        generate_review_dates(0),
        ("July 13, 2024".to_string(), "May 1, 2025".to_string())
    );
    for seed in [0usize, 1, 2, 3, 7, 41, 1000, 123456789, usize::MAX, usize::MAX - 1] {
        let (received, accepted) = generate_review_dates(seed);
        assert!(date_key(&received) <= date_key(&accepted), "seed {}", seed);
        let paper = transform_text_seeded("Some text.", None, None, 1, seed);
        assert_eq!((paper.received, paper.accepted), (received, accepted));
    }
}

#[test]
fn page_count_falls_back_to_zero() {
    assert_eq!(page_count_or_zero(Some(12)), 12);
    assert_eq!(page_count_or_zero(Some(0)), 0);
    assert_eq!(page_count_or_zero(None), 0);
}
