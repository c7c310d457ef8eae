use papercoat::extractor::{estimate_page_count, extract_text, pdf_with_metadata};

/// A small PDF with one page per entry of `pages`, each showing its text in
/// Helvetica.
fn pdf_with_pages(pages: &[&str]) -> Vec<u8> {
    let n = pages.len();
    let font_id = 3 + 2 * n;
    let mut objects: Vec<String> = Vec::new();
    objects.push("<< /Type /Catalog /Pages 2 0 R >>".to_string());
    let kids: Vec<String> = (0..n).map(|i| format!("{} 0 R", 3 + 2 * i)).collect();
    objects.push(format!("<< /Type /Pages /Kids [{}] /Count {} >>", kids.join(" "), n));
    for (i, text) in pages.iter().enumerate() {
        objects.push(format!(
            "<< /Type /Page /Parent 2 0 R /MediaBox [0 0 612 792] /Contents {} 0 R /Resources << /Font << /F1 {} 0 R >> >> >>",
            4 + 2 * i,
            font_id
        ));
        let content = format!("BT /F1 24 Tf 72 700 Td ({}) Tj ET", text);
        objects.push(format!("<< /Length {} >>\nstream\n{}\nendstream", content.len(), content));
    }
    objects.push("<< /Type /Font /Subtype /Type1 /BaseFont /Helvetica >>".to_string());

    let mut out = String::from("%PDF-1.4\n");
    let mut offsets = Vec::new();
    for (i, body) in objects.iter().enumerate() {
        offsets.push(out.len());
        out.push_str(&format!("{} 0 obj\n{}\nendobj\n", i + 1, body));
    }
    let xref = out.len();
    out.push_str(&format!("xref\n0 {}\n0000000000 65535 f \n", objects.len() + 1));
    for off in &offsets {
        out.push_str(&format!("{:010} 00000 n \n", off));
    }
    out.push_str(&format!(
        "trailer\n<< /Size {} /Root 1 0 R >>\nstartxref\n{}\n%%EOF\n",
        objects.len() + 1,
        xref
    ));
    out.into_bytes()
}

#[test]
fn pages_of_a_pdf_are_counted() {
    assert_eq!(estimate_page_count(&pdf_with_pages(&["One"])), 1);
    assert_eq!(estimate_page_count(&pdf_with_pages(&["One", "Two", "Three"])), 3);
}

#[test]
fn text_of_a_pdf_is_extracted_and_counted() {
    let pdf = pdf_with_pages(&["Hello World", "Second page here"]);
    let raw = pdf_extract::extract_text_from_mem(&pdf).map_err(|e| e.to_string());
    let extracted = match extract_text(raw, None) {
        Ok(e) => e,
        Err(e) => panic!("{}", e.message()),
    };
    assert!(extracted.text.contains("Hello World"));
    assert!(extracted.text.contains("Second page here"));
    assert_eq!(extracted.word_count, extracted.text.split_whitespace().count());
    assert!(extracted.word_count >= 4);
    assert_eq!(extracted.char_count, extracted.text.chars().count());
}

#[test]
fn metadata_is_written_into_a_pdf() {
    let pdf = pdf_with_pages(&["Hello World"]);
    let updated = match pdf_with_metadata(&pdf, "novel_academic") {
        Some(v) => v,
        None => panic!("a valid PDF can be rewritten"),
    };
    assert_ne!(updated, pdf);
    let text = String::from_utf8_lossy(&updated);
    assert!(text.contains("(novel_academic)"));
    assert!(text.contains("(PaperCoat)"));
    assert!(text.contains("(Generated by PaperCoat - Computational Literary Analysis)"));
    assert_eq!(estimate_page_count(&updated), 1);
    assert_eq!(pdf_with_metadata(b"not a pdf", "x"), None);
}
