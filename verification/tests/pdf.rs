use thesis_portal::models::common::AppConfig;
use thesis_portal::models::media::APPLICATION_PDF;
use thesis_portal::models::request::{Method, Payload, Request};
use thesis_portal::views::versions::page::pdf::{PDFProps, PdfView, Probe};

const FILE: &str = "https://api.example.com/files/507f1f77bcf86cd799439012";

fn props() -> PDFProps {
    PDFProps {
        cfg: AppConfig::new("https://api.example.com/".to_string()).unwrap(),
        file: FILE.to_string(),
    }
}

fn link() -> PdfView {
    PdfView::Link { href: FILE.to_string() }
}

#[test]
fn pdf_probe_asks_for_the_headers() {
    assert_eq!(
        props().probe(),
        Some(Request {
            method: Method::Head,
            url: FILE.to_string(),
            credentials: false,
            csrf_token: None,
            payload: Payload::Empty,
        })
    );
}

#[test]
fn pdf_without_content_type_is_a_link() {
    assert_eq!(props().view(Probe::ContentType(None)), link());
}

#[test]
fn pdf_is_shown_in_the_viewer() {
    assert_eq!(APPLICATION_PDF, "application/pdf");
    assert_eq!(
        props().view(Probe::ContentType(Some("application/pdf".to_string()))),
        PdfView::Viewer {
            src: "https://api.example.com/static/web/viewer.html?file=https://api.example.com/files/507f1f77bcf86cd799439012"
                .to_string()
        }
    );
}

#[test]
fn pdf_other_media_types_are_links() {
    for t in ["text/html", "application/octet-stream", "", "application/pdf; charset=binary", "Application/PDF", " application/pdf"] {
        assert_eq!(props().view(Probe::ContentType(Some(t.to_string()))), link());
    }
}

#[test]
fn pdf_failed_probe_is_a_link() {
    assert_eq!(props().view(Probe::Failed), link());
    assert_eq!(props().view(Probe::NotSent), link());
}

#[test]
fn pdf_without_viewer_nothing_is_asked() {
    let p = PDFProps {
        cfg: AppConfig::new("mailto:admin@example.com".to_string()).unwrap(),
        file: FILE.to_string(),
    };
    assert_eq!(p.probe(), None);
    assert_eq!(p.view(Probe::ContentType(Some("application/pdf".to_string()))), link());
}

#[test]
fn pdf_query_is_encoded() {
    let p = PDFProps {
        cfg: AppConfig::new("https://api.example.com/v1/".to_string()).unwrap(),
        file: "https://files.example.com/a b#c".to_string(),
    };
    assert_eq!(
        p.view(Probe::ContentType(Some("application/pdf".to_string()))),
        PdfView::Viewer {
            src: "https://api.example.com/v1/static/web/viewer.html?file=https://files.example.com/a%20b%23c"
                .to_string()
        }
    );
}

#[test]
fn pdf_overlong_file_address_is_a_link() {
    let long = format!("https://files.example.com/{}", "a".repeat(0x0100_0000));
    let p = PDFProps {
        cfg: AppConfig::new("https://api.example.com/".to_string()).unwrap(),
        file: long.clone(),
    };
    assert_eq!(
        p.view(Probe::ContentType(Some("application/pdf".to_string()))),
        PdfView::Link { href: long }
    );
}

#[test]
fn pdf_media_type_is_exact() {
    assert!(Probe::ContentType(Some("application/pdf".to_string())).is_pdf());
    assert!(!Probe::ContentType(Some("application/pdf ".to_string())).is_pdf());
    assert!(!Probe::ContentType(Some("application/PDF".to_string())).is_pdf());
    assert!(!Probe::ContentType(Some("text/plain".to_string())).is_pdf());
    assert!(!Probe::ContentType(None).is_pdf());
    assert!(!Probe::Failed.is_pdf());
    assert!(!Probe::NotSent.is_pdf());
}

#[test]
fn pdf_place() {
    assert_eq!(props().place(None), link());
    assert_eq!(
        props().place(Some("https://viewer.example/?file=x".to_string())),
        PdfView::Viewer { src: "https://viewer.example/?file=x".to_string() }
    );
}
