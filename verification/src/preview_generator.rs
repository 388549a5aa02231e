//! Preview content for PDF documents and for other files, and the display
//! form of text with control characters.
//!
//! Reading a file or its metadata is the application's part: the generators
//! take what the read gave.
use vstd::prelude::*;
use crate::preview::{line_view, lines_view, ContentView, PreviewContent, StyledText, TextStyle};
use crate::preview_manager::{preview_title, preview_title_for};
use crate::text::{
    concat, decimal, format_decimal, format_padded, pad_left, push_char, push_str, repeat_char,
    split_lines, text_lines,
};
use crate::utils::{FileItem, lower_extension};

verus! {

/// A control character, as `char::is_control` classifies it: the Unicode
/// category Cc, U+0000 to U+001F and U+007F to U+009F.
pub open spec fn is_control(c: char) -> bool {
    (c as u32) <= 0x1f || (0x7f <= (c as u32) && (c as u32) <= 0x9f)
}

/// A lowercase hexadecimal digit.
pub open spec fn hex_digit(d: nat) -> char {
    if d < 10 {
        crate::text::digit_char(d)
    } else if d == 10 { 'a' }
    else if d == 11 { 'b' }
    else if d == 12 { 'c' }
    else if d == 13 { 'd' }
    else if d == 14 { 'e' }
    else { 'f' }
}

/// How one character is displayed: tab as an arrow and spaces, carriage
/// return and NUL as escapes, other control characters except newline as
/// `\xNN`, everything else as itself.
pub open spec fn display_char(c: char) -> Seq<char> {
    if c == '\t' {
        "→   "@
    } else if c == '\r' {
        "\\r"@
    } else if c == '\0' {
        "\\0"@
    } else if is_control(c) && c != '\n' {
        "\\x"@ + seq![hex_digit((c as u32 / 16) as nat), hex_digit((c as u32 % 16) as nat)]
    } else {
        seq![c]
    }
}

/// A text as it is displayed, character by character.
pub open spec fn display_text(s: Seq<char>) -> Seq<char>
    decreases s.len(),
{
    if s.len() == 0 {
        Seq::empty()
    } else {
        display_text(s.drop_last()) + display_char(s.last())
    }
}

fn hex(d: u32) -> (c: char)
    requires
        d < 16,
    ensures
        c == hex_digit(d as nat),
{
    if d == 0 { '0' }
    else if d == 1 { '1' }
    else if d == 2 { '2' }
    else if d == 3 { '3' }
    else if d == 4 { '4' }
    else if d == 5 { '5' }
    else if d == 6 { '6' }
    else if d == 7 { '7' }
    else if d == 8 { '8' }
    else if d == 9 { '9' }
    else if d == 10 { 'a' }
    else if d == 11 { 'b' }
    else if d == 12 { 'c' }
    else if d == 13 { 'd' }
    else if d == 14 { 'e' }
    else { 'f' }
}

/// Process special characters in text for better display.
pub fn process_special_characters(text: &str) -> (r: String)
    ensures
        r@ == display_text(text@),
{
    let mut result = String::new();
    for ch in it: text.chars()
        invariant
            it.seq() == text@,
            result@ == display_text(text@.take(it.index() as int)),
    {
        let ghost before = result@;
        let code = ch as u32;
        if ch == '\t' {
            push_str(&mut result, "→   ");
        } else if ch == '\r' {
            push_str(&mut result, "\\r");
        } else if ch == '\0' {
            push_str(&mut result, "\\0");
        } else if (code <= 0x1f || (0x7f <= code && code <= 0x9f)) && ch != '\n' {
            push_str(&mut result, "\\x");
            push_char(&mut result, hex(code / 16));
            push_char(&mut result, hex(code % 16));
            assert(result@ =~= before + display_char(ch));
        } else {
            push_char(&mut result, ch);
            assert(result@ =~= before + display_char(ch));
        }
        assert(text@.take(it.index() + 1).drop_last() =~= text@.take(it.index() as int));
    }
    assert(text@.take(text@.len() as int) =~= text@);
    result
}

/// The separator line under a PDF preview's header: fifty box-drawing dashes.
pub open spec fn separator() -> Seq<char> {
    Seq::new(50, |i: int| '─')
}

/// The header of an extracted PDF: how many lines it has.
pub open spec fn pdf_header(count: nat) -> Seq<char> {
    "PDF Document - "@ + decimal(count) + " lines extracted"@
}

/// One extracted line: its number, right-aligned in three columns, and the
/// line as displayed.
pub open spec fn numbered_line(i: int, line: Seq<char>) -> Seq<(Seq<char>, TextStyle)> {
    seq![
        (pad_left(decimal((i + 1) as nat), 3) + " "@, TextStyle::PreviewLineNumber),
        (display_text(line), TextStyle::Default),
    ]
}

/// The preview of a PDF's extracted text, or of the extraction's failure.
pub open spec fn pdf_text_lines(extracted: Result<Seq<char>, Seq<char>>) -> Seq<
    Seq<(Seq<char>, TextStyle)>,
> {
    match extracted {
        Ok(text) => seq![
            seq![(pdf_header(text_lines(text).len()), TextStyle::Dir)],
            seq![(separator(), TextStyle::PreviewInfo)],
        ] + Seq::new(text_lines(text).len(), |i: int| numbered_line(i, text_lines(text)[i])),
        Err(e) => seq![
            seq![("PDF Processing Error"@, TextStyle::PreviewError)],
            seq![(Seq::empty(), TextStyle::Default)],
            seq![("Failed to extract text from PDF: "@ + e, TextStyle::PreviewInfo)],
            seq![(Seq::empty(), TextStyle::Default)],
            seq![("This might be a scanned PDF or contain only images."@, TextStyle::PreviewInfo)],
        ],
    }
}

/// The preview of a PDF that could not be read.
pub open spec fn pdf_read_error_lines(e: Seq<char>) -> Seq<Seq<(Seq<char>, TextStyle)>> {
    seq![
        seq![("PDF Read Error"@, TextStyle::PreviewError)],
        seq![(Seq::empty(), TextStyle::Default)],
        seq![("Failed to read PDF file: "@ + e, TextStyle::PreviewInfo)],
    ]
}

/// The preview of a file that is shown as binary, given its size or the
/// error of reading its metadata.
pub open spec fn binary_lines(size: Result<u64, Seq<char>>) -> Seq<Seq<(Seq<char>, TextStyle)>> {
    match size {
        Ok(n) => seq![
            seq![("Binary File"@, TextStyle::PreviewPlaceholder)],
            seq![(Seq::empty(), TextStyle::Default)],
            seq![("Size: "@ + decimal(n as nat) + " bytes"@, TextStyle::PreviewInfo)],
            seq![("Cannot preview binary content"@, TextStyle::PreviewInfo)],
            seq![(Seq::empty(), TextStyle::Default)],
            seq![("File type: Binary/Unknown"@, TextStyle::Dir)],
        ],
        Err(e) => seq![seq![("Error reading file metadata: "@ + e, TextStyle::PreviewError)]],
    }
}

fn single_line(text: String, style: TextStyle) -> (r: Vec<StyledText>)
    ensures
        line_view(r) == seq![(text@, style)],
{
    let r = vec![StyledText::new(text, style)];
    assert(line_view(r) =~= seq![(text@, style)]);
    r
}

/// A generator of previews for some kind of file.
pub trait PreviewGeneratorTrait {
    /// The files this generator handles.
    spec fn handles(&self, file: FileItem) -> bool;

    /// Check if this generator can handle the given file
    fn can_handle(&self, file: &FileItem) -> (r: bool)
        ensures
            r == self.handles(*file);
}

/// PDF preview generator
pub struct PdfPreviewGenerator;

/// A PDF document, judged by its extension.
pub open spec fn is_pdf_file(f: FileItem) -> bool {
    !f.is_dir && (lower_extension(f.path@) matches Some(e) && e == "pdf"@)
}

impl PreviewGeneratorTrait for PdfPreviewGenerator {
    open spec fn handles(&self, file: FileItem) -> bool {
        is_pdf_file(file)
    }

    fn can_handle(&self, file: &FileItem) -> (r: bool) {
        file.is_pdf()
    }
}

impl PdfPreviewGenerator {
    /// The preview of a PDF's extracted text, or of the extraction's error.
    pub fn preview_from_text(extracted: Result<String, String>) -> (r: PreviewContent)
        ensures
            r@ == ContentView::Text(pdf_text_lines(
                match extracted {
                    Ok(t) => Ok::<Seq<char>, Seq<char>>(t@),
                    Err(e) => Err::<Seq<char>, Seq<char>>(e@),
                },
            )),
    {
        match extracted {
            Ok(text) => {
                let text_lines_v = split_lines(text.as_str());
                let ghost tl = text_lines(text@);
                assert(text_lines_v@.map_values(|l: String| l@).len() == text_lines_v.len());
                let mut header = "PDF Document - ".to_owned();
                push_str(&mut header, format_decimal(text_lines_v.len() as u64).as_str());
                push_str(&mut header, " lines extracted");
                let mut lines: Vec<Vec<StyledText>> = Vec::new();
                lines.push(single_line(header, TextStyle::Dir));
                lines.push(single_line(repeat_char('─', 50), TextStyle::PreviewInfo));
                let ghost expected = pdf_text_lines(Ok::<Seq<char>, Seq<char>>(text@));
                assert(expected.len() == tl.len() + 2);
                let mut i: usize = 0;
                while i < text_lines_v.len()
                    invariant
                        i <= text_lines_v.len(),
                        text_lines_v@.map_values(|l: String| l@) == tl,
                        tl == text_lines(text@),
                        expected == pdf_text_lines(Ok::<Seq<char>, Seq<char>>(text@)),
                        expected.len() == tl.len() + 2,
                        lines.len() == i + 2,
                        forall|j: int| 0 <= j < i + 2 ==> line_view(#[trigger] lines@[j]) == expected[j],
                    decreases text_lines_v.len() - i,
                {
                    assert(text_lines_v@.map_values(|l: String| l@)[i as int] == text_lines_v@[i as int]@);
                    let mut number = format_padded((i + 1) as u64, 3);
                    push_str(&mut number, " ");
                    let shown = process_special_characters(text_lines_v[i].as_str());
                    let line = vec![
                        StyledText::new(number, TextStyle::PreviewLineNumber),
                        StyledText::raw(shown),
                    ];
                    assert(line_view(line) =~= numbered_line(i as int, tl[i as int]));
                    assert(expected[i + 2] == numbered_line(i as int, tl[i as int]));
                    lines.push(line);
                    i += 1;
                }
                assert(lines_view(lines) =~= expected);
                PreviewContent::text(lines)
            },
            Err(e) => {
                let mut lines: Vec<Vec<StyledText>> = Vec::new();
                lines.push(single_line("PDF Processing Error".to_owned(), TextStyle::PreviewError));
                lines.push(single_line(String::new(), TextStyle::Default));
                lines.push(single_line(concat("Failed to extract text from PDF: ", e.as_str()), TextStyle::PreviewInfo));
                lines.push(single_line(String::new(), TextStyle::Default));
                lines.push(single_line("This might be a scanned PDF or contain only images.".to_owned(), TextStyle::PreviewInfo));
                assert(lines_view(lines) =~= pdf_text_lines(Err::<Seq<char>, Seq<char>>(e@)));
                PreviewContent::text(lines)
            },
        }
    }

    /// The preview of a PDF, given what reading it gave: what extracting
    /// the text of its bytes gave (the text, or the message of the
    /// extraction's error), or the message of the read error.
    ///
    /// The extraction itself (`pdf_extract::extract_text_from_mem`) is not
    /// made here: that crate panics, rather than returning an error, on some
    /// malformed documents, and no precondition over the bytes can say which.
    /// The caller runs it where a panic can be caught and hands over its
    /// outcome.
    pub fn generate_preview(&self, file: &FileItem, read: Result<Result<String, String>, String>) -> (r: (
        String,
        PreviewContent,
    ))
        ensures
            r.0@ == preview_title(file.name@),
            r.1@ == ContentView::Text(match read {
                Ok(Ok(text)) => pdf_text_lines(Ok::<Seq<char>, Seq<char>>(text@)),
                Ok(Err(e)) => pdf_text_lines(Err::<Seq<char>, Seq<char>>(e@)),
                Err(e) => pdf_read_error_lines(e@),
            }),
    {
        let title = preview_title_for(file.name.as_str());
        match read {
            Ok(extracted) => (title, Self::preview_from_text(extracted)),
            Err(e) => {
                let mut lines: Vec<Vec<StyledText>> = Vec::new();
                lines.push(single_line("PDF Read Error".to_owned(), TextStyle::PreviewError));
                lines.push(single_line(String::new(), TextStyle::Default));
                lines.push(single_line(concat("Failed to read PDF file: ", e.as_str()), TextStyle::PreviewInfo));
                assert(lines_view(lines) =~= pdf_read_error_lines(e@));
                (title, PreviewContent::text(lines))
            },
        }
    }
}

/// Binary file preview generator (fallback)
pub struct BinaryPreviewGenerator;

impl PreviewGeneratorTrait for BinaryPreviewGenerator {
    open spec fn handles(&self, file: FileItem) -> bool {
        true
    }

    fn can_handle(&self, _file: &FileItem) -> (r: bool) {
        true
    }
}

impl BinaryPreviewGenerator {
    /// The preview of a file shown as binary, given its size or the message
    /// of the error of reading its metadata.
    pub fn generate_preview(&self, file: &FileItem, size: Result<u64, String>) -> (r: (String, PreviewContent))
        ensures
            r.0@ == preview_title(file.name@),
            r.1@ == ContentView::Text(binary_lines(
                match size {
                    Ok(n) => Ok::<u64, Seq<char>>(n),
                    Err(e) => Err::<u64, Seq<char>>(e@),
                },
            )),
    {
        let title = preview_title_for(file.name.as_str());
        let mut lines: Vec<Vec<StyledText>> = Vec::new();
        match size {
            Ok(file_size) => {
                lines.push(single_line("Binary File".to_owned(), TextStyle::PreviewPlaceholder));
                lines.push(single_line(String::new(), TextStyle::Default));
                let mut size_text = "Size: ".to_owned();
                push_str(&mut size_text, format_decimal(file_size).as_str());
                push_str(&mut size_text, " bytes");
                lines.push(single_line(size_text, TextStyle::PreviewInfo));
                lines.push(single_line("Cannot preview binary content".to_owned(), TextStyle::PreviewInfo));
                lines.push(single_line(String::new(), TextStyle::Default));
                lines.push(single_line("File type: Binary/Unknown".to_owned(), TextStyle::Dir));
                assert(lines_view(lines) =~= binary_lines(Ok::<u64, Seq<char>>(file_size)));
            },
            Err(e) => {
                lines.push(single_line(concat("Error reading file metadata: ", e.as_str()), TextStyle::PreviewError));
                assert(lines_view(lines) =~= binary_lines(Err::<u64, Seq<char>>(e@)));
            },
        }
        (title, PreviewContent::text(lines))
    }
}

/// The generators whose preview logic this library holds.
pub enum PreviewGeneratorType {
    Pdf(PdfPreviewGenerator),
    Binary(BinaryPreviewGenerator),
}

impl PreviewGeneratorType {
    /// Check if this generator can handle the given file
    pub fn can_handle(&self, file: &FileItem) -> (r: bool)
        ensures
            r == match self {
                PreviewGeneratorType::Pdf(_) => is_pdf_file(*file),
                PreviewGeneratorType::Binary(_) => true,
            },
    {
        match self {
            PreviewGeneratorType::Pdf(generator) => generator.can_handle(file),
            PreviewGeneratorType::Binary(generator) => generator.can_handle(file),
        }
    }
}

} // verus!

verus! {

/// Displayed text holds no control character but newline: every tab,
/// carriage return and other control character is replaced by visible
/// characters.
pub proof fn law_display_has_no_control(s: Seq<char>)
    ensures
        forall|i: int|
            0 <= i < display_text(s).len() ==> !is_control(#[trigger] display_text(s)[i]) || display_text(
                s,
            )[i] == '\n',
    decreases s.len(),
{
    if s.len() > 0 {
        law_display_has_no_control(s.drop_last());
        let p = display_text(s.drop_last());
        let c = s.last();
        let d = display_char(c);
        assert(display_text(s) == p + d);
        reveal_strlit("→   ");
        reveal_strlit("\\r");
        reveal_strlit("\\0");
        reveal_strlit("\\x");
        assert forall|i: int| 0 <= i < d.len() implies !is_control(#[trigger] d[i]) || d[i] == '\n' by {
            if is_control(c) && c != '\n' && c != '\t' && c != '\r' && c != '\0' {
                let hi = (c as u32 / 16) as nat;
                let lo = (c as u32 % 16) as nat;
                assert(d == "\\x"@ + seq![hex_digit(hi), hex_digit(lo)]);
            }
        }
        assert forall|i: int| 0 <= i < display_text(s).len() implies !is_control(
            #[trigger] display_text(s)[i],
        ) || display_text(s)[i] == '\n' by {
            if i < p.len() {
                assert(display_text(s)[i] == p[i]);
            } else {
                assert(display_text(s)[i] == d[i - p.len()]);
            }
        }
    }
}

/// Text without control characters other than newline is displayed as it
/// is.
pub proof fn law_plain_text_unchanged(s: Seq<char>)
    requires
        forall|i: int| 0 <= i < s.len() ==> !is_control(#[trigger] s[i]) || s[i] == '\n',
    ensures
        display_text(s) == s,
    decreases s.len(),
{
    if s.len() > 0 {
        law_plain_text_unchanged(s.drop_last());
        assert(s.drop_last().push(s.last()) =~= s);
    }
}

} // verus!

verus! {

/// Main service for generating preview content for files and directories
pub struct PreviewGenerator;

impl PreviewGenerator {
    /// The generator that previews a file, among those this library holds:
    /// the PDF generator for a PDF document, the binary fallback otherwise.
    pub fn generator_for(file: &FileItem) -> (r: PreviewGeneratorType)
        ensures
            if is_pdf_file(*file) {
                r is Pdf
            } else {
                r is Binary
            },
    {
        let pdf = PreviewGeneratorType::Pdf(PdfPreviewGenerator);
        if pdf.can_handle(file) {
            pdf
        } else {
            PreviewGeneratorType::Binary(BinaryPreviewGenerator)
        }
    }
}

} // verus!
