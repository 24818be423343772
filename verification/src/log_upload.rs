//! What is computed on the way from a message to the reports on its logs:
//! which attachments count as logs, how their bytes become text, which
//! uploaded log a message links to, and how a scanned log is headed and
//! addressed. Fetching and sending are left to the caller.

use crate::pattern::{first_group, first_match, grab, opt_text, pattern_views};
use crate::report::{highest_severity, overall_severity, reports_view, CheckReport, ReportView};
use crate::text::{ends_in, occurs_in, text_ends_with};
use std::io::Read;
use vstd::prelude::*;
use vstd::utf8::{decode_utf8, valid_utf8};

verus! {

/// `std::io::Error`: why reading failed. Nothing is claimed of what it holds.
#[verifier::external_type_specification]
#[verifier::external_body]
pub struct ExIoError(std::io::Error);

/// How a log came to be scanned.
#[derive(Clone, Copy, Debug, PartialEq, Eq, Structural, Hash)]
pub enum LogType {
    /// It was attached to a message and has been uploaded.
    Uploaded,
    /// It had been uploaded before, and a message linked to it.
    Downloaded,
}

/// An attachment of this size in bytes, or a larger one, is no log.
pub const MAX_LOG_SIZE: u32 = 1_000_000;

/// Where uploaded logs are shown.
pub const MCLOGS_BASE_URL: &'static str = "https://mclo.gs";

/// Where logs are uploaded to and fetched from.
pub const MCLOGS_API_BASE_URL: &'static str = "https://api.mclo.gs";

/// A link to an uploaded log; its group is the log's identifier.
pub const MCLOGS_LINK: &'static str = r#"https:\/\/mclo\.gs\/([a-zA-Z0-9]+)"#;

/// The heading under which the reports on a log are shown.
pub open spec fn log_title(log_type: LogType, name: Seq<char>) -> Seq<char> {
    match log_type {
        LogType::Uploaded => "Uploaded "@ + name,
        LogType::Downloaded => "Scanned "@ + name,
    }
}

/// The heading under which the reports on the log `name` are shown.
pub fn title_format(log_type: &LogType, name: &str) -> (title: String)
    ensures
        title@ == log_title(*log_type, name@),
{
    match log_type {
        LogType::Uploaded => String::from_str("Uploaded ").concat(name),
        LogType::Downloaded => String::from_str("Scanned ").concat(name),
    }
}

/// What is shown for one scanned log: a heading, the colour of the most
/// serious finding, one field for each finding, and a link to the log.
#[derive(Clone, Debug)]
pub struct LogSummary {
    pub title: String,
    pub color: u32,
    /// The title and the description of each finding, in the order of the
    /// findings.
    pub fields: Vec<(String, String)>,
    pub link_label: String,
    pub link_url: String,
}

/// What is shown for one scanned log, as contracts speak of it.
pub ghost struct LogSummaryView {
    pub title: Seq<char>,
    pub color: u32,
    pub fields: Seq<(Seq<char>, Seq<char>)>,
    pub link_label: Seq<char>,
    pub link_url: Seq<char>,
}

impl View for LogSummary {
    type V = LogSummaryView;

    open spec fn view(&self) -> LogSummaryView {
        LogSummaryView {
            title: self.title@,
            color: self.color,
            fields: self.fields@.map_values(|f: (String, String)| (f.0@, f.1@)),
            link_label: self.link_label@,
            link_url: self.link_url@,
        }
    }
}

/// What is shown for the log `name` with the given findings.
pub open spec fn summary_of(
    log_type: LogType,
    name: Seq<char>,
    url: Seq<char>,
    reports: Seq<ReportView>,
) -> LogSummaryView {
    LogSummaryView {
        title: log_title(log_type, name),
        color: highest_severity(reports).color(),
        fields: reports.map_values(|r: ReportView| (r.title, r.description)),
        link_label: name,
        link_url: url,
    }
}

/// Lays out what is shown for a scanned log: its heading, the colour of its
/// most serious finding, a field for each finding in the order of the
/// findings, and the link to it under the log's name.
pub fn summarize(log_type: &LogType, name: &str, url: &str, reports: &Vec<CheckReport>) -> (summary:
    LogSummary)
    ensures
        summary@ == summary_of(*log_type, name@, url@, reports_view(reports@)),
{
    let mut fields: Vec<(String, String)> = Vec::new();
    let mut i: usize = 0;
    while i < reports.len()
        invariant
            i <= reports.len(),
            fields@.len() == i,
            forall|j: int|
                0 <= j < i ==> (#[trigger] fields@[j]).0@ == reports@[j].title@ && fields@[j].1@
                    == reports@[j].description@,
        decreases reports.len() - i,
    {
        fields.push((reports[i].title.clone(), reports[i].description.clone()));
        i += 1;
    }
    let summary = LogSummary {
        title: title_format(log_type, name),
        color: overall_severity(reports).get_color(),
        fields,
        link_label: String::from_str(name),
        link_url: String::from_str(url),
    };
    assert(summary@.fields =~= summary_of(
        *log_type,
        name@,
        url@,
        reports_view(reports@),
    ).fields);
    summary
}

/// The characters of each text of a list.
pub open spec fn texts(list: Seq<String>) -> Seq<Seq<char>> {
    list.map_values(|s: String| s@)
}

/// An attachment counts as a log if it is smaller than `MAX_LOG_SIZE` and
/// its name ends with one of the allowed extensions.
pub open spec fn valid_log(size: u32, filename: Seq<char>, allowed: Seq<Seq<char>>) -> bool {
    size < MAX_LOG_SIZE && exists|i: int|
        0 <= i < allowed.len() && ends_in(filename, #[trigger] allowed[i])
}

/// Whether an attachment of the given size and name counts as a log.
pub fn is_valid_log(size: u32, filename: &str, allowed_extensions: &[String]) -> (valid: bool)
    ensures
        valid == valid_log(size, filename@, texts(allowed_extensions@)),
{
    if size >= MAX_LOG_SIZE {
        return false;
    }
    let mut i: usize = 0;
    while i < allowed_extensions.len()
        invariant
            size < MAX_LOG_SIZE,
            i <= allowed_extensions.len(),
            forall|j: int|
                0 <= j < i ==> !ends_in(filename@, #[trigger] texts(allowed_extensions@)[j]),
        decreases allowed_extensions.len() - i,
    {
        if text_ends_with(filename, allowed_extensions[i].as_str()) {
            assert(ends_in(filename@, texts(allowed_extensions@)[i as int]));
            return true;
        }
        i += 1;
    }
    false
}

/// The identifiers of the uploaded logs that a search for a link found: the
/// one that was caught, if a link was found and its identifier caught.
pub open spec fn linked_ids(found: Option<Option<Seq<char>>>) -> Seq<Seq<char>> {
    match found {
        Some(Some(id)) => seq![id],
        _ => seq![],
    }
}

/// The identifiers of the uploaded logs to which a message links. Only the
/// first link of a message is taken.
pub open spec fn mclogs_ids(message: Seq<char>) -> Seq<Seq<char>> {
    linked_ids(first_group(first_match(seq![MCLOGS_LINK@], message)))
}

/// The identifiers that a search for a link found, as a list.
pub fn ids_of_link(found: Option<Option<String>>) -> (ids: Vec<String>)
    ensures
        ids.deep_view() == linked_ids(found.deep_view()),
{
    let mut ids: Vec<String> = Vec::new();
    if let Some(Some(id)) = found {
        ids.push(id);
        assert(ids.deep_view() =~= seq![id@]);
    } else {
        assert(ids.deep_view() =~= Seq::<Seq<char>>::empty());
    }
    ids
}

/// The identifiers of the uploaded logs to which a message links.
pub fn find_mclogs_urls(message_content: &str) -> (ids: Vec<String>)
    ensures
        ids.deep_view() == mclogs_ids(message_content@),
{
    let patterns = [MCLOGS_LINK];
    proof {
        assert(pattern_views(patterns@) =~= seq![MCLOGS_LINK@]);
    }
    ids_of_link(grab(message_content, &patterns))
}

/// The address at which the uploaded log `id` is shown.
pub fn log_page_url(id: &str) -> (url: String)
    ensures
        url@ == MCLOGS_BASE_URL@ + "/"@ + id@,
{
    String::from_str(MCLOGS_BASE_URL).concat("/").concat(id)
}

/// The address from which the text of the uploaded log `id` is fetched.
pub fn raw_log_url(id: &str) -> (url: String)
    ensures
        url@ == MCLOGS_API_BASE_URL@ + "/1/raw/"@ + id@,
{
    String::from_str(MCLOGS_API_BASE_URL).concat("/1/raw/").concat(id)
}

/// The address to which a log is uploaded.
pub fn upload_url() -> (url: String)
    ensures
        url@ == MCLOGS_API_BASE_URL@ + "/1/log"@,
{
    String::from_str(MCLOGS_API_BASE_URL).concat("/1/log")
}

/// Whether an extension is that of a gzip file: `gz`, in capitals or not.
pub open spec fn gz_extension(ext: Option<Seq<char>>) -> bool {
    match ext {
        Some(e) => e.len() == 2 && (e[0] == 'g' || e[0] == 'G') && (e[1] == 'z' || e[1] == 'Z'),
        None => false,
    }
}

/// Whether a file with this extension is taken to be compressed with gzip.
pub fn is_gz_extension(ext: Option<&str>) -> (gz: bool)
    ensures
        gz == gz_extension(opt_text(ext)),
{
    match ext {
        Some(e) => {
            if e.unicode_len() != 2 {
                return false;
            }
            let first = e.get_char(0);
            let second = e.get_char(1);
            (first == 'g' || first == 'G') && (second == 'z' || second == 'Z')
        },
        None => false,
    }
}

/// Calls `std::path::Path::extension` on the name taken as a path. Which
/// part of a name is its file name depends on what the platform takes for a
/// separator, so the contract claims only what std documents of every
/// extension: it is the part of the file name after its last dot.
#[verifier::external_body]
fn file_extension(filename: &str) -> (ext: Option<String>)
    ensures
        ext matches Some(e) ==> !e@.contains('.') && occurs_in(seq!['.'] + e@, filename@),
{
    std::path::Path::new(filename).extension().and_then(|e| e.to_str()).map(|e| e.to_string())
}

/// Whether a file of this name is taken to be compressed with gzip: whether
/// the platform finds an extension in the name that `is_gz_extension`
/// accepts. Such a name holds a dot followed by that extension.
pub fn is_gzip_name(filename: &str) -> (gz: bool)
    ensures
        gz ==> exists|e: Seq<char>| #[trigger]
            gz_extension(Some(e)) && occurs_in(seq!['.'] + e, filename@),
{
    match file_extension(filename) {
        Some(ext) => is_gz_extension(Some(ext.as_str())),
        None => false,
    }
}

/// What `flate2::read::GzDecoder` yields when it is read to the end over
/// `data`: the bytes of the first gzip member, or nothing where reading
/// fails.
pub uninterp spec fn gzip_member(data: Seq<u8>) -> Option<Seq<u8>>;

/// The text that `String::from_utf8_lossy` makes of `bytes`.
pub uninterp spec fn lossy_text(bytes: Seq<u8>) -> Seq<char>;

/// Reads a `flate2::read::GzDecoder` over `data` to its end with
/// `std::io::Read::read_to_end`. The contract names what was read, and
/// claims that reading fails exactly where the name holds nothing.
#[verifier::external_body]
fn gunzip(data: &[u8]) -> (r: Result<Vec<u8>, std::io::Error>)
    ensures
        match r {
            Ok(bytes) => gzip_member(data@) == Some(bytes@),
            Err(_) => gzip_member(data@) is None,
        },
{
    let mut bytes = Vec::new();
    flate2::read::GzDecoder::new(data).read_to_end(&mut bytes)?;
    Ok(bytes)
}

/// Calls `String::from_utf8_lossy`. The contract names the result and
/// claims, as std documents, that bytes which are valid UTF-8 give the text
/// that they encode.
#[verifier::external_body]
fn utf8_lossy(bytes: &[u8]) -> (text: String)
    ensures
        text@ == lossy_text(bytes@),
        valid_utf8(bytes@) ==> text@ == decode_utf8(bytes@),
{
    String::from_utf8_lossy(bytes).into_owned()
}

/// Why the bytes of an attachment gave no text.
#[derive(Clone, Copy, Debug, PartialEq, Eq, Structural, Hash)]
pub enum DecodeError {
    /// The attachment was taken to be compressed with gzip and could not be
    /// decompressed.
    CorruptGzip,
}

/// The text of an attachment: of its bytes, or of what they decompress to
/// where it is compressed.
pub open spec fn decoded(gzipped: bool, data: Seq<u8>) -> Result<Seq<char>, DecodeError> {
    if gzipped {
        match gzip_member(data) {
            Some(bytes) => Ok(lossy_text(bytes)),
            None => Err(DecodeError::CorruptGzip),
        }
    } else {
        Ok(lossy_text(data))
    }
}

/// The characters of a text that may have failed to decode.
pub open spec fn decoded_view(r: Result<String, DecodeError>) -> Result<Seq<char>, DecodeError> {
    match r {
        Ok(text) => Ok(text@),
        Err(e) => Err(e),
    }
}

/// Turns the bytes of an attachment into text, decompressing them first
/// where the attachment is compressed. Bytes that are no valid UTF-8 are
/// replaced, not refused.
pub fn decode_log(gzipped: bool, data: &[u8]) -> (r: Result<String, DecodeError>)
    ensures
        decoded_view(r) == decoded(gzipped, data@),
        !gzipped && valid_utf8(data@) ==> decoded_view(r) == Ok::<Seq<char>, DecodeError>(
            decode_utf8(data@),
        ),
{
    if gzipped {
        match gunzip(data) {
            Ok(bytes) => Ok(utf8_lossy(bytes.as_slice())),
            Err(_) => Err(DecodeError::CorruptGzip),
        }
    } else {
        Ok(utf8_lossy(data))
    }
}

} // verus!
