use quickswitch::app_state::AppState;
use quickswitch::preview::{PreviewContent, PreviewState, StyledText, TextStyle};
use quickswitch::preview_generator::{
    process_special_characters, BinaryPreviewGenerator, PdfPreviewGenerator, PreviewGenerator,
    PreviewGeneratorTrait, PreviewGeneratorType,
};
use quickswitch::preview_manager::PreviewManager;
use quickswitch::utils::{DisplayItem, FileItem, HistoryEntry, Timestamp};

fn text_lines(n: usize) -> PreviewContent {
    PreviewContent::text((0..n).map(|i| vec![StyledText::raw(format!("line {i}"))]).collect())
}

fn texts(content: &PreviewContent) -> Vec<Vec<(String, TextStyle)>> {
    match content {
        PreviewContent::Text(lines) => lines
            .iter()
            .map(|l| l.iter().map(|s| (s.text.clone(), s.style)).collect())
            .collect(),
        PreviewContent::Image(_) => panic!("expected text"),
    }
}

fn plain(lines: &[(&str, TextStyle)]) -> Vec<Vec<(String, TextStyle)>> {
    lines.iter().map(|(t, s)| vec![(t.to_string(), *s)]).collect()
}

#[test]
fn new_preview_says_no_file_selected() {
    let p = PreviewState::new();
    assert_eq!(p.get_title(), "Preview");
    assert_eq!(p.get_scroll_offset(), 0);
    assert!(p.get_current_file_item().is_none());
    assert_eq!(texts(&p.get_content()), plain(&[("No file selected", TextStyle::Gray)]));
}

#[test]
fn scrolling_one_line() {
    let mut p = PreviewState::new();
    let f = FileItem::from_path("/a.txt", false);
    p.set_current_file_item(Some(f.clone()));
    p.update_preview("t".to_string(), text_lines(3), Some(f));
    assert!(!p.scroll_up());
    assert!(p.scroll_down());
    assert!(p.scroll_down());
    assert_eq!(p.get_scroll_offset(), 2);
    assert!(!p.scroll_down());
    assert!(p.scroll_up());
    assert_eq!(p.get_scroll_offset(), 1);
    p.reset_scroll();
    assert_eq!(p.get_scroll_offset(), 0);
}

#[test]
fn scrolling_pages() {
    let mut p = PreviewState::new();
    let f = FileItem::from_path("/a.txt", false);
    p.set_current_file_item(Some(f.clone()));
    p.update_preview("t".to_string(), text_lines(100), Some(f));
    assert!(p.scroll_page_down(20));
    assert_eq!(p.get_scroll_offset(), 10);
    p.set_scroll_offset(75);
    assert!(p.scroll_page_down(20));
    assert_eq!(p.get_scroll_offset(), 80);
    assert!(!p.scroll_page_down(20));
    assert!(p.scroll_page_up(20));
    assert_eq!(p.get_scroll_offset(), 70);
    p.set_scroll_offset(3);
    assert!(p.scroll_page_up(20));
    assert_eq!(p.get_scroll_offset(), 0);
    assert!(!p.scroll_page_up(20));
    p.set_scroll_offset(5);
    assert!(p.scroll_page_up(1));
    assert_eq!(p.get_scroll_offset(), 4);
    p.set_scroll_offset(95);
    assert!(p.scroll_page_down(20));
    assert_eq!(p.get_scroll_offset(), 80);
}

#[test]
fn stale_preview_is_dropped() {
    let mut p = PreviewState::new();
    let a = FileItem::from_path("/a.txt", false);
    let b = FileItem::from_path("/b.txt", false);
    p.set_current_file_item(Some(a.clone()));
    p.set_scroll_offset(4);
    p.update_preview("B".to_string(), text_lines(2), Some(b));
    assert_eq!(p.get_title(), "Preview");
    assert_eq!(p.get_scroll_offset(), 4);
    p.update_preview("A".to_string(), text_lines(2), Some(a));
    assert_eq!(p.get_title(), "A");
    assert_eq!(p.get_scroll_offset(), 0);
    p.clear_preview();
    assert_eq!(p.get_title(), "Preview");
    assert!(p.get_current_file_item().is_some());
}

#[test]
fn preview_for_selected_item_shows_placeholder() {
    let mut state = AppState::new("/w".to_string());
    state.load_file_items(vec![FileItem::from_path("/w/a.txt", false)]);
    assert!(PreviewManager::preview_for_selected_item(&mut state, false).is_none());
    state.file_list_state.select(Some(0));
    let f = PreviewManager::preview_for_selected_item(&mut state, false).unwrap();
    assert_eq!(f.path, "/w/a.txt");
    assert_eq!(state.preview.title, "📄 a.txt");
    assert_eq!(
        texts(&state.preview.content),
        plain(&[
            ("Loading preview...", TextStyle::PreviewPlaceholder),
            ("", TextStyle::Default),
            ("Please wait while content is being processed.", TextStyle::PreviewInfo),
        ])
    );
    assert_eq!(state.preview.current_file_item, Some(f));
}

#[test]
fn preview_for_selected_history_entry() {
    let mut state = AppState::new("/w".to_string());
    state.files = vec![DisplayItem::History(HistoryEntry::new("/srv/www".to_string(), Timestamp { secs: 0, nanos: 0 }))];
    state.filtered_files = vec![0];
    state.file_list_state.select(Some(0));
    let f = PreviewManager::preview_for_selected_item(&mut state, true).unwrap();
    assert_eq!(f.name, "www");
    assert!(f.is_dir);
}

#[test]
fn manager_scrolls_and_clears() {
    let mut state = AppState::new("/w".to_string());
    let f = FileItem::from_path("/w/a.txt", false);
    state.preview.set_current_file_item(Some(f.clone()));
    state.preview.update_preview("x".to_string(), text_lines(10), Some(f));
    assert!(PreviewManager::scroll_preview_down(&mut state));
    assert!(PreviewManager::scroll_preview_page_down(&mut state, 4));
    assert_eq!(state.preview.scroll_offset, 3);
    assert!(PreviewManager::scroll_preview_page_up(&mut state, 4));
    assert!(PreviewManager::scroll_preview_up(&mut state));
    assert_eq!(state.preview.scroll_offset, 0);
    PreviewManager::reset_preview_scroll(&mut state);
    PreviewManager::clear_preview(&mut state);
    assert_eq!(state.preview.title, "Preview");
}

#[test]
fn special_characters_are_made_visible() {
    assert_eq!(process_special_characters("a\tb"), "a→   b");
    assert_eq!(process_special_characters("x\r\n"), "x\\r\n");
    assert_eq!(process_special_characters("\0"), "\\0");
    assert_eq!(process_special_characters("\u{1b}[0m"), "\\x1b[0m");
    assert_eq!(process_special_characters("\u{7f}\u{85}"), "\\x7f\\x85");
    assert_eq!(process_special_characters("plain text ü"), "plain text ü");
}

#[test]
fn pdf_preview_of_extracted_text() {
    let content = PdfPreviewGenerator::preview_from_text(Ok("first\n\tsecond\r\n".to_string()));
    let dashes = "─".repeat(50);
    assert_eq!(
        texts(&content),
        vec![
            vec![("PDF Document - 2 lines extracted".to_string(), TextStyle::Dir)],
            vec![(dashes, TextStyle::PreviewInfo)],
            vec![("  1 ".to_string(), TextStyle::PreviewLineNumber), ("first".to_string(), TextStyle::Default)],
            vec![("  2 ".to_string(), TextStyle::PreviewLineNumber), ("→   second".to_string(), TextStyle::Default)],
        ]
    );
}

#[test]
fn pdf_preview_of_extraction_error() {
    let content = PdfPreviewGenerator::preview_from_text(Err("PDF error: bad".to_string()));
    assert_eq!(
        texts(&content),
        plain(&[
            ("PDF Processing Error", TextStyle::PreviewError),
            ("", TextStyle::Default),
            ("Failed to extract text from PDF: PDF error: bad", TextStyle::PreviewInfo),
            ("", TextStyle::Default),
            ("This might be a scanned PDF or contain only images.", TextStyle::PreviewInfo),
        ])
    );
}

#[test]
fn pdf_preview_of_garbage_bytes_reports_the_extractor_error() {
    let f = FileItem::from_path("/d/doc.pdf", false);
    let extracted = pdf_extract::extract_text_from_mem(b"not a pdf at all").map_err(|e| e.to_string());
    let (title, content) = PdfPreviewGenerator.generate_preview(&f, Ok(extracted));
    assert_eq!(title, "📄 doc.pdf");
    let t = texts(&content);
    assert_eq!(t[0], vec![("PDF Processing Error".to_string(), TextStyle::PreviewError)]);
    assert!(t[2][0].0.starts_with("Failed to extract text from PDF: "));
    assert!(t[2][0].0.len() > "Failed to extract text from PDF: ".len());
}

#[test]
fn pdf_preview_of_read_error() {
    let f = FileItem::from_path("/d/doc.pdf", false);
    let (_, content) = PdfPreviewGenerator.generate_preview(&f, Err("No such file".to_string()));
    assert_eq!(content.len(), 3);
    assert_eq!(
        texts(&content),
        plain(&[
            ("PDF Read Error", TextStyle::PreviewError),
            ("", TextStyle::Default),
            ("Failed to read PDF file: No such file", TextStyle::PreviewInfo),
        ])
    );
}

#[test]
fn binary_preview() {
    let f = FileItem::from_path("/d/blob.bin", false);
    let (title, content) = BinaryPreviewGenerator.generate_preview(&f, Ok(2048));
    assert_eq!(title, "📄 blob.bin");
    assert_eq!(
        texts(&content),
        plain(&[
            ("Binary File", TextStyle::PreviewPlaceholder),
            ("", TextStyle::Default),
            ("Size: 2048 bytes", TextStyle::PreviewInfo),
            ("Cannot preview binary content", TextStyle::PreviewInfo),
            ("", TextStyle::Default),
            ("File type: Binary/Unknown", TextStyle::Dir),
        ])
    );
    let (_, err) = BinaryPreviewGenerator.generate_preview(&f, Err("denied".to_string()));
    assert_eq!(texts(&err), plain(&[("Error reading file metadata: denied", TextStyle::PreviewError)]));
}

#[test]
fn generators_can_handle() {
    let pdf = FileItem::from_path("/d/Report.PDF", false);
    let txt = FileItem::from_path("/d/report.txt", false);
    let dir = FileItem::from_path("/d/x.pdf", true);
    assert!(PdfPreviewGenerator.can_handle(&pdf));
    assert!(!PdfPreviewGenerator.can_handle(&txt));
    assert!(!PdfPreviewGenerator.can_handle(&dir));
    assert!(BinaryPreviewGenerator.can_handle(&txt));
    assert!(PreviewGeneratorType::Pdf(PdfPreviewGenerator).can_handle(&pdf));
    assert!(PreviewGeneratorType::Binary(BinaryPreviewGenerator).can_handle(&dir));
}

#[test]
fn generator_choice() {
    assert!(matches!(PreviewGenerator::generator_for(&FileItem::from_path("/a/b.pdf", false)), PreviewGeneratorType::Pdf(_)));
    assert!(matches!(PreviewGenerator::generator_for(&FileItem::from_path("/a/b.bin", false)), PreviewGeneratorType::Binary(_)));
    assert!(matches!(PreviewGenerator::generator_for(&FileItem::from_path("/a/b.pdf", true)), PreviewGeneratorType::Binary(_)));
}

#[test]
fn default_preview_state_is_cleared() {
    let p = PreviewState::default();
    assert_eq!(p.title, "Preview");
    assert_eq!(p.scroll_offset, 0);
}

#[test]
fn pdf_preview_of_extracted_document() {
    let f = FileItem::from_path("/d/notes.pdf", false);
    let (title, content) = PdfPreviewGenerator.generate_preview(&f, Ok(Ok("only line".to_string())));
    assert_eq!(title, "📄 notes.pdf");
    let t = texts(&content);
    assert_eq!(t.len(), 3);
    assert_eq!(t[0], vec![("PDF Document - 1 lines extracted".to_string(), TextStyle::Dir)]);
    assert_eq!(t[2][1], ("only line".to_string(), TextStyle::Default));
}
