use ar5iv_redirect::{
    abs, abs_field, about, feeling_lucky, general_not_found, get_field_html, get_field_log,
    get_html, get_log, pdf, pdf_field, strip_pdf_ext, strip_zip_ext, vanity_style,
    vanity_style_field, Redirect, NEW_HOME,
};

#[test]
fn new_home_is_the_new_host() {
    assert_eq!(NEW_HOME, "https://ar5iv.labs.arxiv.org");
}

#[test]
fn about_goes_to_root() {
    assert_eq!(about().target, "https://ar5iv.labs.arxiv.org");
    assert_eq!(about().target(), NEW_HOME);
}

#[test]
fn redirect_to_keeps_target() {
    let r = Redirect::to(String::from("https://example.org/x"));
    assert_eq!(r.target(), "https://example.org/x");
}

#[test]
fn html_with_id() {
    assert_eq!(get_html("2101.00001").target, "https://ar5iv.labs.arxiv.org/html/2101.00001");
}

#[test]
fn html_with_field_drops_html_prefix() {
    assert_eq!(
        get_field_html("cs", "9901001").target,
        "https://ar5iv.labs.arxiv.org/cs/9901001"
    );
}

#[test]
fn abs_goes_to_html() {
    assert_eq!(abs("2101.00001").target, "https://ar5iv.labs.arxiv.org/html/2101.00001");
    assert_eq!(
        abs_field("hep-th", "9901001").target,
        "https://ar5iv.labs.arxiv.org/html/hep-th/9901001"
    );
}

#[test]
fn papers_go_to_html() {
    assert_eq!(vanity_style("2101.00001").target, "https://ar5iv.labs.arxiv.org/html/2101.00001");
    assert_eq!(
        vanity_style_field("math", "0301001").target,
        "https://ar5iv.labs.arxiv.org/html/math/0301001"
    );
}

#[test]
fn log_keeps_its_prefix() {
    assert_eq!(get_log("2101.00001").target, "https://ar5iv.labs.arxiv.org/log/2101.00001");
    assert_eq!(
        get_field_log("cs", "9901001").target,
        "https://ar5iv.labs.arxiv.org/log/cs/9901001"
    );
}

#[test]
fn feeling_lucky_keeps_its_path() {
    assert_eq!(feeling_lucky().target, "https://ar5iv.labs.arxiv.org/feeling_lucky");
}

#[test]
fn parameters_are_substituted_verbatim() {
    assert_eq!(
        get_html("AbC%20d e+f").target,
        "https://ar5iv.labs.arxiv.org/html/AbC%20d e+f"
    );
    assert_eq!(
        abs_field("Hep-TH", "\u{e9}t\u{e9}").target,
        "https://ar5iv.labs.arxiv.org/html/Hep-TH/\u{e9}t\u{e9}"
    );
    assert_eq!(get_log("").target, "https://ar5iv.labs.arxiv.org/log/");
}

#[test]
fn pdf_drops_trailing_extension() {
    assert_eq!(pdf(String::from("1234.0001.pdf")).target, "https://ar5iv.labs.arxiv.org/html/1234.0001");
    assert_eq!(
        pdf_field("cs", String::from("9901001.pdf")).target,
        "https://ar5iv.labs.arxiv.org/html/cs/9901001"
    );
}

#[test]
fn pdf_without_extension_is_unchanged() {
    assert_eq!(pdf(String::from("1234.0001")).target, "https://ar5iv.labs.arxiv.org/html/1234.0001");
    assert_eq!(
        pdf_field("cs", String::from("9901001")).target,
        "https://ar5iv.labs.arxiv.org/html/cs/9901001"
    );
}

#[test]
fn pdf_extension_is_dropped_once() {
    assert_eq!(pdf(String::from("1234.0001.pdf.pdf")).target, "https://ar5iv.labs.arxiv.org/html/1234.0001.pdf");
}

#[test]
fn strip_pdf_ext_cases() {
    assert_eq!(strip_pdf_ext("1234.0001.pdf"), "1234.0001");
    assert_eq!(strip_pdf_ext("1234.0001"), "1234.0001");
    assert_eq!(strip_pdf_ext(".pdf"), "");
    assert_eq!(strip_pdf_ext("pdf"), "pdf");
    assert_eq!(strip_pdf_ext("xpdf"), "xpdf");
    assert_eq!(strip_pdf_ext("a.pdfx"), "a.pdfx");
    assert_eq!(strip_pdf_ext("a.PDF"), "a.PDF");
    assert_eq!(strip_pdf_ext("a.pdf.b"), "a.pdf.b");
    assert_eq!(strip_pdf_ext("a.pdf\n"), "a.pdf\n");
    assert_eq!(strip_pdf_ext("a\n.pdf"), "a\n");
    assert_eq!(strip_pdf_ext("a.zip"), "a.zip");
    assert_eq!(strip_pdf_ext(""), "");
    assert_eq!(strip_pdf_ext("\u{e9}.pdf"), "\u{e9}");
}

#[test]
fn strip_zip_ext_cases() {
    assert_eq!(strip_zip_ext("2101.00001.zip"), "2101.00001");
    assert_eq!(strip_zip_ext("2101.00001"), "2101.00001");
    assert_eq!(strip_zip_ext("2101.00001.zip.zip"), "2101.00001.zip");
    assert_eq!(strip_zip_ext("a.pdf"), "a.pdf");
    assert_eq!(strip_zip_ext("azip"), "azip");
    assert_eq!(strip_zip_ext(".zip"), "");
}

#[test]
fn not_found_goes_to_root() {
    assert_eq!(general_not_found().target, "https://ar5iv.labs.arxiv.org");
    assert_eq!(general_not_found(), about());
}
