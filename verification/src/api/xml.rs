//! Reads the answer of the metadata provider: an XML document that holds
//! the titles and the start date of one anime.
//!
//! The document is cut into tokens by `quick_xml`. What the tokens mean is
//! decided here, by [`anime_in`].

use super::types::{AnimeInfo, ApiError};
use crate::parser::opt_text;
use crate::text::{
    chars_of, decimal_digits, extend_chars, extend_str, find_char, format_u64, parse_number,
    plain_number, same_chars, string_of,
};
use quick_xml::Reader;
use quick_xml::events::Event;
use vstd::prelude::*;

verus! {

/// The reader of `quick_xml`. Nothing is known of what it holds.
#[verifier::external_type_specification]
#[verifier::external_body]
#[verifier::reject_recursive_types(R)]
pub struct ExReader<R>(quick_xml::Reader<R>);

/// An event of `quick_xml`. Nothing is known of what it holds.
#[verifier::external_type_specification]
#[verifier::external_body]
pub struct ExEvent<'a>(quick_xml::events::Event<'a>);

/// What kind of piece of a document an event is.
#[derive(Debug, Clone, Copy, PartialEq, Eq, Structural)]
pub enum EventKind {
    /// A start tag.
    Open,
    /// An empty element: a start tag that is its own end.
    Empty,
    /// An end tag.
    Close,
    /// Character data.
    Text,
    /// The end of the document.
    End,
    /// A comment, a declaration, a processing instruction, a document type
    /// or a CDATA section.
    Other,
}

/// One piece of an XML document.
#[derive(Debug, Clone, PartialEq, Eq)]
pub enum XmlToken {
    /// A start tag or an empty element, with its attributes in order.
    Open { name: String, attributes: Vec<(String, String)> },
    /// Character data, trimmed and with its entities resolved.
    Text(String),
    /// An end tag.
    Close { name: String },
    /// The end of the document.
    End,
    /// A piece that holds nothing for the library.
    Other,
    /// The document is not well-formed from `position` on.
    Invalid { position: u64, reason: String },
}

/// Mathematical content of an [`XmlToken`].
pub enum TokenData {
    Open { name: Seq<char>, attributes: Seq<(Seq<char>, Seq<char>)> },
    Text(Seq<char>),
    Close { name: Seq<char> },
    End,
    Other,
    Invalid { position: u64, reason: Seq<char> },
}

/// The texts of the given attributes, in order.
pub open spec fn attributes_data(attributes: Seq<(String, String)>) -> Seq<(Seq<char>, Seq<char>)> {
    Seq::new(attributes.len(), |i: int| (attributes[i].0@, attributes[i].1@))
}

impl View for XmlToken {
    type V = TokenData;

    open spec fn view(&self) -> TokenData {
        match self {
            XmlToken::Open { name, attributes } => TokenData::Open {
                name: name@,
                attributes: attributes_data(attributes@),
            },
            XmlToken::Text(text) => TokenData::Text(text@),
            XmlToken::Close { name } => TokenData::Close { name: name@ },
            XmlToken::End => TokenData::End,
            XmlToken::Other => TokenData::Other,
            XmlToken::Invalid { position, reason } => TokenData::Invalid {
                position: *position,
                reason: reason@,
            },
        }
    }
}

/// The content of the given tokens, in order.
pub open spec fn tokens_data(tokens: Seq<XmlToken>) -> Seq<TokenData> {
    Seq::new(tokens.len(), |i: int| tokens[i]@)
}

/// A reader over a document, which trims character data where `trim` is
/// set.
///
/// Wraps `Reader::from_str` and `Config::trim_text` of `quick_xml`.
#[verifier::external_body]
fn open_reader<'a>(xml: &'a str, trim: bool) -> Reader<&'a [u8]> {
    let mut reader = Reader::from_str(xml);
    reader.config_mut().trim_text(trim);
    reader
}

/// The next event of a document, or where and why the document is not
/// well-formed.
///
/// Wraps `Reader::read_event` of `quick_xml`, and `Reader::buffer_position`
/// for the place of an error.
#[verifier::external_body]
fn read_event<'a>(reader: &mut Reader<&'a [u8]>) -> Result<
    Event<'a>,
    (u64, String),
> {
    match reader.read_event() {
        Ok(event) => Ok(event),
        Err(e) => Err((reader.buffer_position(), e.to_string())),
    }
}

/// The kind of an event.
///
/// Tells the variants of `Event` apart.
#[verifier::external_body]
fn event_kind(event: &Event) -> EventKind {
    match event {
        Event::Start(_) => EventKind::Open,
        Event::Empty(_) => EventKind::Empty,
        Event::End(_) => EventKind::Close,
        Event::Text(_) => EventKind::Text,
        Event::Eof => EventKind::End,
        Event::CData(_) => EventKind::Other,
        Event::Comment(_) => EventKind::Other,
        Event::Decl(_) => EventKind::Other,
        Event::PI(_) => EventKind::Other,
        Event::DocType(_) => EventKind::Other,
    }
}

/// The name of the element that a tag opens or closes; the empty text for
/// an event that is no tag.
///
/// Wraps `BytesStart::name` and `BytesEnd::name` of `quick_xml`.
#[verifier::external_body]
fn element_name(event: &Event) -> String {
    match event {
        Event::Start(e) => String::from_utf8_lossy(e.name().0).into_owned(),
        Event::Empty(e) => String::from_utf8_lossy(e.name().0).into_owned(),
        Event::End(e) => String::from_utf8_lossy(e.name().0).into_owned(),
        _ => String::new(),
    }
}

/// What the attributes of the element that a tag opens give, in order: key
/// and raw value of an attribute, or `None` for one that is not
/// well-formed. An event that opens no element has none.
///
/// Wraps `BytesStart::attributes` of `quick_xml`.
#[verifier::external_body]
fn element_attributes(event: &Event) -> Vec<Option<(String, String)>> {
    let mut attributes = Vec::new();
    if let Event::Start(e) | Event::Empty(e) = event {
        for attribute in e.attributes() {
            attributes.push(match attribute {
                Ok(a) => {
                    let key = String::from_utf8_lossy(a.key.0).into_owned();
                    Some((key, String::from_utf8_lossy(&a.value).into_owned()))
                },
                Err(_) => None,
            });
        }
    }
    attributes
}

/// The character data of a text event with its entities resolved; `None`
/// where they cannot be resolved and for an event that is no text.
///
/// Wraps `BytesText::unescape` of `quick_xml`.
#[verifier::external_body]
fn text_content(event: &Event) -> Option<String> {
    match event {
        Event::Text(e) => match e.unescape() {
            Ok(text) => Some(text.into_owned()),
            Err(_) => None,
        },
        _ => None,
    }
}

/// What the well-formed ones among the given attributes hold, in order: an
/// attribute that is not well-formed is left out.
pub open spec fn kept_attributes(attributes: Seq<Option<(String, String)>>) -> Seq<
    (Seq<char>, Seq<char>),
>
    decreases attributes.len(),
{
    if attributes.len() == 0 {
        Seq::empty()
    } else {
        let before = kept_attributes(attributes.drop_last());
        match attributes.last() {
            Some(attribute) => before.push((attribute.0@, attribute.1@)),
            None => before,
        }
    }
}

/// The token that an event gives, from its kind and from what it holds: the
/// name of its element, what its attributes give, and its character data.
///
/// A tag keeps its name; a start tag keeps the attributes that are
/// well-formed, and so does an empty element, which opens as a start tag
/// does. Character data that cannot be resolved counts as empty.
pub open spec fn token_for(
    kind: EventKind,
    name: Seq<char>,
    attributes: Seq<Option<(String, String)>>,
    text: Option<Seq<char>>,
) -> TokenData {
    match kind {
        EventKind::Open | EventKind::Empty => TokenData::Open {
            name,
            attributes: kept_attributes(attributes),
        },
        EventKind::Close => TokenData::Close { name },
        EventKind::Text => TokenData::Text(
            match text {
                Some(text) => text,
                None => Seq::empty(),
            },
        ),
        EventKind::End => TokenData::End,
        EventKind::Other => TokenData::Other,
    }
}

/// The attributes that are well-formed, in order.
fn well_formed(attributes: &Vec<Option<(String, String)>>) -> (kept: Vec<(String, String)>)
    ensures
        attributes_data(kept@) == kept_attributes(attributes@),
{
    let mut kept: Vec<(String, String)> = Vec::new();
    let mut i: usize = 0;
    while i < attributes.len()
        invariant
            i <= attributes.len(),
            attributes_data(kept@) =~= kept_attributes(attributes@.take(i as int)),
        decreases attributes.len() - i,
    {
        proof {
            assert(attributes@.take(i + 1).drop_last() =~= attributes@.take(i as int));
        }
        if let Some(attribute) = &attributes[i] {
            kept.push((attribute.0.clone(), attribute.1.clone()));
        }
        i += 1;
    }
    proof {
        assert(attributes@.take(i as int) =~= attributes@);
    }
    kept
}

/// The token that an event gives: see [`token_for`].
fn token_of(
    kind: EventKind,
    name: String,
    attributes: &Vec<Option<(String, String)>>,
    text: Option<String>,
) -> (token: XmlToken)
    ensures
        token@ == token_for(kind, name@, attributes@, opt_text(text)),
{
    match kind {
        EventKind::Open | EventKind::Empty => XmlToken::Open {
            name,
            attributes: well_formed(attributes),
        },
        EventKind::Close => XmlToken::Close { name },
        EventKind::Text => XmlToken::Text(
            match text {
                Some(text) => text,
                None => String::new(),
            },
        ),
        EventKind::End => XmlToken::End,
        EventKind::Other => XmlToken::Other,
    }
}

/// The next token of a document: what [`token_of`] makes of the next event,
/// or the place where the document is not well-formed.
fn next_token<'a>(reader: &mut Reader<&'a [u8]>) -> (token: XmlToken) {
    match read_event(reader) {
        Ok(event) => token_of(
            event_kind(&event),
            element_name(&event),
            &element_attributes(&event),
            text_content(&event),
        ),
        Err((position, reason)) => XmlToken::Invalid { position, reason },
    }
}

/// Whether a token ends a document: its end, or the place where it is not
/// well-formed.
pub open spec fn is_final(token: TokenData) -> bool {
    token is End || token is Invalid
}

/// The tokens of a document, up to the token that ends it.
pub fn read_tokens(xml: &str) -> (tokens: Vec<XmlToken>)
    ensures
        tokens@.len() >= 1,
        is_final(tokens@.last()@),
        forall|i: int| 0 <= i < tokens@.len() - 1 ==> !is_final(#[trigger] tokens@[i]@),
{
    let mut reader = open_reader(xml, true);
    let mut tokens: Vec<XmlToken> = Vec::new();
    // Every token but the last takes at least one byte of the document.
    let limit: usize = xml.len();
    let mut read: usize = 0;
    loop
        invariant
            read <= limit,
            tokens@.len() == read,
            forall|i: int| 0 <= i < tokens@.len() ==> !is_final(#[trigger] tokens@[i]@),
        decreases limit - read,
    {
        let token = next_token(&mut reader);
        let last = match &token {
            XmlToken::End => true,
            XmlToken::Invalid { .. } => true,
            _ => false,
        };
        if last {
            tokens.push(token);
            return tokens;
        }
        if read == limit {
            tokens.push(
                XmlToken::Invalid {
                    position: limit as u64,
                    reason: "the document does not end".to_owned(),
                },
            );
            return tokens;
        }
        tokens.push(token);
        read += 1;
    }
}

/// What is known of an anime while its document is read.
pub struct ScanState {
    /// Within `<titles>`.
    pub in_titles: bool,
    /// Within `<startdate>`, its text not yet read.
    pub in_startdate: bool,
    /// The `type` of the title that is open.
    pub title_type: Option<Seq<char>>,
    /// The `xml:lang` of the title that is open.
    pub title_lang: Option<Seq<char>>,
    pub title_main: Option<Seq<char>>,
    pub title_en: Option<Seq<char>>,
    pub year: Option<u16>,
}

/// Nothing is known yet.
pub open spec fn scan_start() -> ScanState {
    ScanState {
        in_titles: false,
        in_startdate: false,
        title_type: None,
        title_lang: None,
        title_main: None,
        title_en: None,
        year: None,
    }
}

/// The type and the language that the first `count` attributes give a
/// title: those of the last `type` and the last `xml:lang` among them.
pub open spec fn title_attributes(attributes: Seq<(Seq<char>, Seq<char>)>, count: int) -> (
    Option<Seq<char>>,
    Option<Seq<char>>,
)
    decreases count,
{
    if count <= 0 {
        (None, None)
    } else {
        let (title_type, title_lang) = title_attributes(attributes, count - 1);
        let (key, value) = attributes[count - 1];
        if key == "type"@ {
            (Some(value), title_lang)
        } else if key == "xml:lang"@ {
            (title_type, Some(value))
        } else {
            (title_type, title_lang)
        }
    }
}

/// The number that a text writes as a `u16`: a plain number that fits.
pub open spec fn decimal_u16(text: Seq<char>) -> Option<u16> {
    match plain_number(text) {
        Some(v) => if v <= u16::MAX {
            Some(v as u16)
        } else {
            None
        },
        None => None,
    }
}

/// The year of a start date `YYYY-MM-DD` or `YYYY`: what stands before the
/// first `-`, where that is a number.
pub open spec fn start_year(text: Seq<char>) -> Option<u16> {
    decimal_u16(text.take(crate::parser::index_from(text, '-', 0)))
}

/// What is known after a token.
///
/// `<titles>` and `<startdate>` are entered and left. A `<title>` within
/// `<titles>` sets type and language from its attributes, and its end
/// clears them. The first text within `<startdate>` that is not empty gives
/// the year where it starts with one. A text within `<titles>`, under a
/// title with type and language, is the main title where the type is
/// `main`; else the main title where the title is the official one in
/// `x-jat` and no main title is known yet; else the English title where
/// the title is the official one in `en`.
pub open spec fn scan_step(s: ScanState, token: TokenData) -> ScanState {
    match token {
        TokenData::Open { name, attributes } => if name == "titles"@ {
            ScanState { in_titles: true, ..s }
        } else if name == "title"@ && s.in_titles {
            let (title_type, title_lang) = title_attributes(attributes, attributes.len() as int);
            ScanState { title_type, title_lang, ..s }
        } else if name == "startdate"@ {
            ScanState { in_startdate: true, ..s }
        } else {
            s
        },
        TokenData::Text(text) => {
            let dated = if s.in_startdate && text.len() > 0 {
                ScanState {
                    year: match start_year(text) {
                        Some(y) => Some(y),
                        None => s.year,
                    },
                    in_startdate: false,
                    ..s
                }
            } else {
                s
            };
            if dated.in_titles && dated.title_type is Some && dated.title_lang is Some {
                let title_type = dated.title_type->0;
                let title_lang = dated.title_lang->0;
                if title_type == "main"@ {
                    ScanState { title_main: Some(text), ..dated }
                } else if title_type == "official"@ && title_lang == "x-jat"@
                    && dated.title_main is None {
                    ScanState { title_main: Some(text), ..dated }
                } else if title_type == "official"@ && title_lang == "en"@ {
                    ScanState { title_en: Some(text), ..dated }
                } else {
                    dated
                }
            } else {
                dated
            }
        },
        TokenData::Close { name } => if name == "titles"@ {
            ScanState { in_titles: false, ..s }
        } else if name == "title"@ {
            ScanState { title_type: None, title_lang: None, ..s }
        } else if name == "startdate"@ {
            ScanState { in_startdate: false, ..s }
        } else {
            s
        },
        _ => s,
    }
}

/// How reading a document ends.
pub enum ScanOutcome {
    /// The document was read to its end.
    Finished(ScanState),
    /// The document is not well-formed.
    Failed { position: u64, reason: Seq<char> },
}

/// Reads the tokens from index `i` on, up to the first token that ends the
/// document.
pub open spec fn scan_from(tokens: Seq<TokenData>, i: int, s: ScanState) -> ScanOutcome
    decreases tokens.len() - i,
{
    if i < 0 || i >= tokens.len() {
        ScanOutcome::Finished(s)
    } else {
        match tokens[i] {
            TokenData::End => ScanOutcome::Finished(s),
            TokenData::Invalid { position, reason } => ScanOutcome::Failed { position, reason },
            token => scan_from(tokens, i + 1, scan_step(s, token)),
        }
    }
}

/// The anime that a document holds, given its tokens: the titles and the
/// year that reading them gives. A document that is not well-formed is a
/// `ParseError`; one without a main title is `IncompleteData`.
pub open spec fn anime_in(
    anidb_id: u32,
    tokens: Seq<TokenData>,
    result: Result<AnimeInfo, ApiError>,
) -> bool {
    match scan_from(tokens, 0, scan_start()) {
        ScanOutcome::Failed { position, reason } => result matches Err(ApiError::ParseError(m))
            && m@ == "XML parse error at position "@ + decimal_digits(position as nat) + ": "@
            + reason,
        ScanOutcome::Finished(s) => concluded(anidb_id, s, result),
    }
}

/// What is known of an anime while its document is read.
struct Scan {
    in_titles: bool,
    in_startdate: bool,
    title_type: Option<String>,
    title_lang: Option<String>,
    title_main: Option<String>,
    title_en: Option<String>,
    year: Option<u16>,
}

impl View for Scan {
    type V = ScanState;

    closed spec fn view(&self) -> ScanState {
        ScanState {
            in_titles: self.in_titles,
            in_startdate: self.in_startdate,
            title_type: opt_text(self.title_type),
            title_lang: opt_text(self.title_lang),
            title_main: opt_text(self.title_main),
            title_en: opt_text(self.title_en),
            year: self.year,
        }
    }
}

/// Whether `text` is the word `word`.
fn is_word(text: &str, word: &str) -> (r: bool)
    ensures
        r == (text@ == word@),
{
    same_chars(&chars_of(text), &chars_of(word))
}

/// The number that a text writes as a `u16`.
fn parse_u16(chars: &Vec<char>, to: usize) -> (out: Option<u16>)
    requires
        to <= chars.len(),
    ensures
        out == decimal_u16(chars@.take(to as int)),
{
    match parse_number(chars, to) {
        Some(v) => if v <= 65535 {
            Some(v as u16)
        } else {
            None
        },
        None => None,
    }
}

/// The year of a start date.
fn parse_start_year(text: &str) -> (year: Option<u16>)
    ensures
        year == start_year(text@),
{
    let chars = chars_of(text);
    let dash = find_char(&chars, '-', 0, chars.len());
    proof {
        crate::parser::lemma_index_from_is(chars@, '-', 0, dash as int);
    }
    parse_u16(&chars, dash)
}

/// The type and the language that the attributes give a title.
fn read_title_attributes(attributes: &Vec<(String, String)>) -> (r: (
    Option<String>,
    Option<String>,
))
    ensures
        (opt_text(r.0), opt_text(r.1)) == title_attributes(
            attributes_data(attributes@),
            attributes@.len() as int,
        ),
{
    let ghost all = attributes_data(attributes@);
    let mut title_type: Option<String> = None;
    let mut title_lang: Option<String> = None;
    let mut i: usize = 0;
    while i < attributes.len()
        invariant
            i <= attributes.len(),
            all == attributes_data(attributes@),
            (opt_text(title_type), opt_text(title_lang)) == title_attributes(all, i as int),
        decreases attributes.len() - i,
    {
        let attribute = &attributes[i];
        if is_word(attribute.0.as_str(), "type") {
            title_type = Some(attribute.1.clone());
        } else if is_word(attribute.0.as_str(), "xml:lang") {
            title_lang = Some(attribute.1.clone());
        }
        i += 1;
    }
    (title_type, title_lang)
}

impl Scan {
    /// What the document gives at its end: see [`concluded`].
    fn conclude(self, anidb_id: u32) -> (result: Result<AnimeInfo, ApiError>)
        ensures
            concluded(anidb_id, self@, result),
    {
        match self.title_main {
            Some(title_main) => Ok(
                AnimeInfo {
                    anidb_id,
                    title_main,
                    title_en: self.title_en,
                    release_year: self.year,
                },
            ),
            None => Err(ApiError::IncompleteData { anidb_id, field: "main title".to_owned() }),
        }
    }

    /// Takes in a token: see [`scan_step`].
    fn take(&mut self, token: &XmlToken)
        ensures
            final(self)@ == scan_step(old(self)@, token@),
    {
        match token {
            XmlToken::Open { name, attributes } => {
                if is_word(name.as_str(), "titles") {
                    self.in_titles = true;
                } else if is_word(name.as_str(), "title") && self.in_titles {
                    let (title_type, title_lang) = read_title_attributes(attributes);
                    self.title_type = title_type;
                    self.title_lang = title_lang;
                } else if is_word(name.as_str(), "startdate") {
                    self.in_startdate = true;
                }
            },
            XmlToken::Text(text) => {
                if self.in_startdate && !text.as_str().is_empty() {
                    if let Some(year) = parse_start_year(text.as_str()) {
                        self.year = Some(year);
                    }
                    self.in_startdate = false;
                }
                if self.in_titles {
                    let mut main = false;
                    let mut english = false;
                    if let (Some(title_type), Some(title_lang)) = (
                        &self.title_type,
                        &self.title_lang,
                    ) {
                        if is_word(title_type.as_str(), "main") {
                            main = true;
                        } else if is_word(title_type.as_str(), "official") && is_word(
                            title_lang.as_str(),
                            "x-jat",
                        ) && self.title_main.is_none() {
                            main = true;
                        } else if is_word(title_type.as_str(), "official") && is_word(
                            title_lang.as_str(),
                            "en",
                        ) {
                            english = true;
                        }
                    }
                    if main {
                        self.title_main = Some(text.clone());
                    } else if english {
                        self.title_en = Some(text.clone());
                    }
                }
            },
            XmlToken::Close { name } => {
                if is_word(name.as_str(), "titles") {
                    self.in_titles = false;
                } else if is_word(name.as_str(), "title") {
                    self.title_type = None;
                    self.title_lang = None;
                } else if is_word(name.as_str(), "startdate") {
                    self.in_startdate = false;
                }
            },
            _ => {},
        }
    }
}

/// What a document that was read to its end gives: the anime where a main
/// title is known, `IncompleteData` else.
pub open spec fn concluded(
    anidb_id: u32,
    s: ScanState,
    result: Result<AnimeInfo, ApiError>,
) -> bool {
    match s.title_main {
        Some(title) => {
            &&& result matches Ok(info)
            &&& info.anidb_id == anidb_id
            &&& info.title_main@ == title
            &&& opt_text(info.title_en) == s.title_en
            &&& info.release_year == s.year
        },
        None => {
            &&& result matches Err(ApiError::IncompleteData { anidb_id: id, field })
            &&& id == anidb_id
            &&& field@ == "main title"@
        },
    }
}

/// Reads the anime that a document holds from its tokens: see [`anime_in`].
pub fn anime_from_tokens(anidb_id: u32, tokens: &Vec<XmlToken>) -> (result: Result<
    AnimeInfo,
    ApiError,
>)
    ensures
        anime_in(anidb_id, tokens_data(tokens@), result),
{
    let ghost all = tokens_data(tokens@);
    let mut scan = Scan {
        in_titles: false,
        in_startdate: false,
        title_type: None,
        title_lang: None,
        title_main: None,
        title_en: None,
        year: None,
    };
    let mut i: usize = 0;
    while i < tokens.len()
        invariant
            i <= tokens.len(),
            all == tokens_data(tokens@),
            scan_from(all, i as int, scan@) == scan_from(all, 0, scan_start()),
        decreases tokens.len() - i,
    {
        match &tokens[i] {
            XmlToken::End => {
                return scan.conclude(anidb_id);
            },
            XmlToken::Invalid { position, reason } => {
                let mut message = chars_of("XML parse error at position ");
                extend_chars(&mut message, &format_u64(*position));
                extend_str(&mut message, ": ");
                extend_str(&mut message, reason.as_str());
                return Err(ApiError::ParseError(string_of(&message)));
            },
            token => {
                scan.take(token);
            },
        }
        i += 1;
    }
    scan.conclude(anidb_id)
}

/// Reads the anime that an answer of the provider holds. The answer is cut
/// into tokens, and the tokens are read by [`anime_from_tokens`].
pub fn parse_anime_xml(anidb_id: u32, xml: &str) -> (result: Result<AnimeInfo, ApiError>)
    ensures
        match result {
            Ok(info) => info.anidb_id == anidb_id,
            Err(ApiError::ParseError(_)) => true,
            Err(ApiError::IncompleteData { anidb_id: id, field }) => id == anidb_id && field@
                == "main title"@,
            Err(_) => false,
        },
{
    let tokens = read_tokens(xml);
    anime_from_tokens(anidb_id, &tokens)
}

} // verus!
