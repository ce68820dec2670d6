//! RSS 2.0 / Atom parsing: the token stream comes from `quick_xml`; how items
//! and entries become articles is decided here.
use vstd::prelude::*;
use quick_xml::events::Event::{CData, Empty, End, Eof, Start, Text};
use crate::text::{chars_of, is_text, push_char, push_str};
use crate::time::{normalize_published_at, opt_text, published_at_canonical};
use crate::types::{Article, ArticleView};

verus! {

#[verifier::external_type_specification]
#[verifier::external_body]
#[verifier::reject_recursive_types(R)]
pub struct ExXmlReader<R>(quick_xml::Reader<R>);

// ---------------------------------------------------------------------------
// XML tokens

/// An attribute of a tag: its raw key and its unescaped value (`None` when
/// unescaping fails).
#[derive(Debug)]
pub struct XmlAttribute {
    pub key: Vec<u8>,
    pub value: Option<String>,
}

pub struct AttributeView {
    pub key: Seq<u8>,
    pub value: Option<Seq<char>>,
}

impl View for XmlAttribute {
    type V = AttributeView;

    open spec fn view(&self) -> AttributeView {
        AttributeView { key: self.key@, value: opt_text(self.value) }
    }
}

/// A start or self-closing tag as the reader delivers it: its raw content
/// (the name followed by the attributes, undecoded) and the length of the
/// name at its start.
pub struct StartTagView {
    pub content: Seq<u8>,
    pub name_len: nat,
}

/// The raw name of a tag.
pub open spec fn tag_name(t: StartTagView) -> Seq<u8> {
    t.content.subrange(0, t.name_len as int)
}

/// One token of an XML document, holding what the parser reads of it.
#[derive(Debug)]
pub enum XmlEvent {
    /// A start tag: raw content and name length.
    Start(Vec<u8>, usize),
    /// A self-closing tag: raw content and name length.
    Empty(Vec<u8>, usize),
    /// Character data, unescaped (or the unescaping error).
    Text(Result<String, String>),
    /// A CDATA section, decoded but not unescaped (or the decoding error).
    CData(Result<String, String>),
    /// An end tag: raw name.
    End(Vec<u8>),
    /// End of the document.
    Eof,
    /// A syntax error, with its message.
    Error(String),
    /// A comment, declaration, processing instruction or doctype.
    Other,
}

pub enum XmlEventView {
    Start(StartTagView),
    Empty(StartTagView),
    Text(Result<Seq<char>, Seq<char>>),
    CData(Result<Seq<char>, Seq<char>>),
    End(Seq<u8>),
    Eof,
    Error(Seq<char>),
    Other,
}

pub open spec fn result_text(r: Result<String, String>) -> Result<Seq<char>, Seq<char>> {
    match r {
        Ok(s) => Ok(s@),
        Err(e) => Err(e@),
    }
}

impl View for XmlEvent {
    type V = XmlEventView;

    open spec fn view(&self) -> XmlEventView {
        match self {
            XmlEvent::Start(c, n) => XmlEventView::Start(StartTagView { content: c@, name_len: *n as nat }),
            XmlEvent::Empty(c, n) => XmlEventView::Empty(StartTagView { content: c@, name_len: *n as nat }),
            XmlEvent::Text(r) => XmlEventView::Text(result_text(*r)),
            XmlEvent::CData(r) => XmlEventView::CData(result_text(*r)),
            XmlEvent::End(name) => XmlEventView::End(name@),
            XmlEvent::Eof => XmlEventView::Eof,
            XmlEvent::Error(m) => XmlEventView::Error(m@),
            XmlEvent::Other => XmlEventView::Other,
        }
    }
}

pub open spec fn is_terminal(e: XmlEventView) -> bool {
    e is Eof || e is Error
}

/// Whether a tag's name lies within its content.
pub open spec fn tag_holds_name(e: XmlEventView) -> bool {
    match e {
        XmlEventView::Start(t) => t.name_len <= t.content.len(),
        XmlEventView::Empty(t) => t.name_len <= t.content.len(),
        _ => true,
    }
}

/// A token stream as a reader delivers it: it ends with end-of-document or an
/// error, nothing before that is either, and every tag's name lies within
/// its content.
pub open spec fn is_token_stream(s: Seq<XmlEventView>) -> bool {
    &&& s.len() > 0
    &&& is_terminal(s.last())
    &&& forall|i: int| 0 <= i < s.len() - 1 ==> !is_terminal(#[trigger] s[i])
    &&& forall|i: int| 0 <= i < s.len() ==> tag_holds_name(#[trigger] s[i])
}

/// The tokens `quick_xml` reads from a document (a `Reader::from_str` with
/// `trim_text(true)`, read with `read_event` until the first `Eof` or error).
pub uninterp spec fn xml_tokens(content: Seq<char>) -> Seq<XmlEventView>;

/// A `quick_xml` reader over a document, with the tokens it has yet to deliver.
pub struct XmlEvents<'a> {
    reader: quick_xml::Reader<&'a [u8]>,
    pending: Ghost<Seq<XmlEventView>>,
}

impl<'a> XmlEvents<'a> {
    pub closed spec fn pending(&self) -> Seq<XmlEventView> {
        self.pending@
    }

    /// Opens `quick_xml::Reader::from_str(content)` with `trim_text(true)`.
    /// Claimed of quick_xml: every `read_event` consumes input or ends the
    /// document, and after `Eof` or an error the reader is done, so its tokens
    /// form a finite stream ending in `Eof` or an error.
    #[verifier::external_body]
    pub fn open(content: &'a str) -> (r: Self)
        ensures
            r.pending() == xml_tokens(content@),
            is_token_stream(r.pending()),
    {
        let mut reader = quick_xml::Reader::from_str(content);
        reader.config_mut().trim_text(true);
        XmlEvents { reader, pending: Ghost(xml_tokens(content@)) }
    }

    /// The next token (`Reader::read_event`): text is unescaped
    /// (`BytesText::unescape`), CDATA decoded (`BytesCData::decode`), tags
    /// kept raw.
    #[verifier::external_body]
    pub fn next(&mut self) -> (e: XmlEvent)
        requires
            old(self).pending().len() > 0,
        ensures
            e@ == old(self).pending()[0],
            final(self).pending() == old(self).pending().drop_first(),
    {
        match self.reader.read_event() {
            Ok(Start(t)) => XmlEvent::Start(t.to_vec(), t.name().0.len()),
            Ok(Empty(t)) => XmlEvent::Empty(t.to_vec(), t.name().0.len()),
            Ok(Text(t)) => XmlEvent::Text(t.unescape().map(String::from).map_err(|e| e.to_string())),
            Ok(CData(t)) => XmlEvent::CData(t.decode().map(String::from).map_err(|e| e.to_string())),
            Ok(End(t)) => XmlEvent::End(t.to_vec()),
            Ok(Eof) => XmlEvent::Eof,
            Err(e) => XmlEvent::Error(e.to_string()),
            _ => XmlEvent::Other,
        }
    }
}


// ---------------------------------------------------------------------------
// names and attributes

/// `std::str::from_utf8`. Claimed of std: it succeeds exactly on valid UTF-8,
/// and then holds the decoded characters.
#[verifier::external_body]
pub fn utf8_str(bytes: &[u8]) -> (r: Option<&str>)
    ensures
        r is Some <==> vstd::utf8::valid_utf8(bytes@),
        r matches Some(s) ==> s@ == vstd::utf8::decode_utf8(bytes@),
{
    std::str::from_utf8(bytes).ok()
}

/// What follows the last `:` of a text (all of it when there is none).
pub open spec fn after_last_colon(s: Seq<char>) -> Seq<char>
    decreases s.len(),
{
    if s.len() == 0 {
        s
    } else if s.last() == ':' {
        Seq::empty()
    } else {
        after_last_colon(s.drop_last()).push(s.last())
    }
}

/// The local part of a raw XML name (namespace prefix removed); empty when
/// the name is not UTF-8.
pub open spec fn local_name_text(name: Seq<u8>) -> Seq<char> {
    if vstd::utf8::valid_utf8(name) {
        after_last_colon(vstd::utf8::decode_utf8(name))
    } else {
        Seq::empty()
    }
}

/// The local part of a raw XML name: `content:encoded` is `encoded`.
pub fn local_name(name: &[u8]) -> (r: &str)
    ensures
        r@ == local_name_text(name@),
{
    match utf8_str(name) {
        Some(text) => {
            let v = chars_of(text);
            let n = v.len();
            let mut j = n;
            assert(v@.subrange(0, n as int) == v@);
            assert(v@.subrange(n as int, n as int) == Seq::<char>::empty());
            while j > 0 && v[j - 1] != ':'
                invariant
                    j <= n == v.len(),
                    after_last_colon(v@) == after_last_colon(v@.subrange(0, j as int)) + v@.subrange(j as int, n as int),
                decreases j,
            {
                assert(v@.subrange(0, j as int).drop_last() == v@.subrange(0, j - 1));
                assert(v@.subrange(j - 1, n as int) == seq![v@[j - 1]] + v@.subrange(j as int, n as int));
                j -= 1;
            }
            if j == 0 {
                assert(v@.subrange(0, 0) == Seq::<char>::empty());
            }
            assert(after_last_colon(v@) == v@.subrange(j as int, n as int));
            text.substring_char(j, n)
        },
        None => {
            proof {
                reveal_strlit("");
            }
            ""
        },
    }
}

/// The attributes `quick_xml` reads from a tag's content (an
/// `Attributes::new(content, name_len)` iterator, read to its end): each
/// attribute with its key and unescaped value, `None` for a malformed one.
pub uninterp spec fn xml_attributes(content: Seq<char>, name_len: nat) -> Seq<Option<AttributeView>>;

pub open spec fn opt_attribute(a: Option<XmlAttribute>) -> Option<AttributeView> {
    match a {
        Some(x) => Some(x@),
        None => None,
    }
}

/// Reads the attributes of a tag with `quick_xml`
/// (`Attributes::new(content, name_len)`, the iterator `BytesStart::attributes`
/// builds); the result is named `xml_attributes`.
#[verifier::external_body]
pub fn tag_attributes(content: &str, name_len: usize) -> (r: Vec<Option<XmlAttribute>>)
    requires
        name_len <= vstd::utf8::encode_utf8(content@).len(),
    ensures
        r@.map_values(|a: Option<XmlAttribute>| opt_attribute(a)) == xml_attributes(content@, name_len as nat),
{
    quick_xml::events::attributes::Attributes::new(content, name_len)
        .map(|a| a.ok().map(|a| XmlAttribute { key: a.key.as_ref().to_vec(), value: a.unescape_value().ok().map(String::from) }))
        .collect()
}

/// The attributes of a tag: none unless its content is UTF-8 and holds its
/// name.
pub open spec fn tag_attribute_list(t: StartTagView) -> Seq<Option<AttributeView>> {
    if vstd::utf8::valid_utf8(t.content) && t.name_len <= t.content.len() {
        xml_attributes(vstd::utf8::decode_utf8(t.content), t.name_len)
    } else {
        Seq::empty()
    }
}

/// The value of the first well-formed attribute named `key` (empty when there
/// is none or its value does not unescape).
pub open spec fn attribute_value(attrs: Seq<Option<AttributeView>>, key: Seq<u8>) -> Seq<char>
    decreases attrs.len(),
{
    if attrs.len() == 0 {
        Seq::empty()
    } else {
        match attrs[0] {
            Some(a) => if a.key == key {
                match a.value {
                    Some(v) => v,
                    None => Seq::empty(),
                }
            } else {
                attribute_value(attrs.drop_first(), key)
            },
            None => attribute_value(attrs.drop_first(), key),
        }
    }
}

/// The first `n` bytes of `v`.
fn prefix_bytes(v: &Vec<u8>, n: usize) -> (r: Vec<u8>)
    requires
        n <= v.len(),
    ensures
        r@ == v@.subrange(0, n as int),
{
    let mut out: Vec<u8> = Vec::new();
    let mut i: usize = 0;
    while i < n
        invariant
            i <= n <= v.len(),
            out@ == v@.subrange(0, i as int),
        decreases n - i,
    {
        out.push(v[i]);
        assert(v@.subrange(0, i + 1) == v@.subrange(0, i as int).push(v@[i as int]));
        i += 1;
    }
    out
}

fn bytes_equal(a: &Vec<u8>, b: &[u8]) -> (r: bool)
    ensures
        r == (a@ == b@),
{
    if a.len() != b.len() {
        return false;
    }
    let mut i: usize = 0;
    while i < a.len()
        invariant
            a@.len() == b@.len(),
            i <= a.len(),
            forall|k: int| 0 <= k < i ==> a@[k] == b@[k],
        decreases a.len() - i,
    {
        if a[i] != b[i] {
            return false;
        }
        i += 1;
    }
    assert(a@ =~= b@);
    true
}

/// The value of the attribute `key` of a tag (matched case-sensitively;
/// empty when absent).
pub fn attribute(content: &Vec<u8>, name_len: usize, key: &[u8]) -> (r: String)
    ensures
        r@ == attribute_value(tag_attribute_list(StartTagView { content: content@, name_len: name_len as nat }), key@),
{
    let ghost tag = StartTagView { content: content@, name_len: name_len as nat };
    let text = match utf8_str(content.as_slice()) {
        Some(c) => c,
        None => return String::new(),
    };
    proof {
        vstd::utf8::decode_utf8_encode_utf8(content@);
    }
    if name_len > text.as_bytes().len() {
        return String::new();
    }
    let attributes = tag_attributes(text, name_len);
    let ghost all = attributes@.map_values(|a: Option<XmlAttribute>| opt_attribute(a));
    assert(tag_attribute_list(tag) == all);
    assert(all.subrange(0, all.len() as int) == all);
    let mut i: usize = 0;
    while i < attributes.len()
        invariant
            tag == (StartTagView { content: content@, name_len: name_len as nat }),
            tag_attribute_list(tag) == all,
            i <= attributes.len(),
            all == attributes@.map_values(|a: Option<XmlAttribute>| opt_attribute(a)),
            attribute_value(all, key@) == attribute_value(all.subrange(i as int, all.len() as int), key@),
        decreases attributes.len() - i,
    {
        assert(all.subrange(i as int, all.len() as int)[0] == opt_attribute(attributes@[i as int]));
        if let Some(a) = &attributes[i] {
            if bytes_equal(&a.key, key) {
                return match &a.value {
                    Some(v) => v.clone(),
                    None => String::new(),
                };
            }
        }
        assert(all.subrange(i as int, all.len() as int).drop_first() == all.subrange(i + 1, all.len() as int));
        i += 1;
    }
    String::new()
}

// ---------------------------------------------------------------------------
// articles

/// The fields of an item or entry collected so far.
#[derive(Debug)]
pub struct ParsedArticle {
    pub title: String,
    pub link: String,
    pub guid: String,
    pub summary: Option<String>,
    pub content: Option<String>,
    pub published_at: Option<String>,
}

pub struct ParsedView {
    pub title: Seq<char>,
    pub link: Seq<char>,
    pub guid: Seq<char>,
    pub summary: Option<Seq<char>>,
    pub content: Option<Seq<char>>,
    pub published_at: Option<Seq<char>>,
}

impl View for ParsedArticle {
    type V = ParsedView;

    open spec fn view(&self) -> ParsedView {
        ParsedView {
            title: self.title@,
            link: self.link@,
            guid: self.guid@,
            summary: opt_text(self.summary),
            content: opt_text(self.content),
            published_at: opt_text(self.published_at),
        }
    }
}

pub open spec fn empty_parsed() -> ParsedView {
    ParsedView {
        title: Seq::empty(),
        link: Seq::empty(),
        guid: Seq::empty(),
        summary: None,
        content: None,
        published_at: None,
    }
}

impl ParsedArticle {
    /// An item with no field read yet.
    pub fn new() -> (r: Self)
        ensures
            r@ == empty_parsed(),
    {
        ParsedArticle {
            title: String::new(),
            link: String::new(),
            guid: String::new(),
            summary: None,
            content: None,
            published_at: None,
        }
    }
}

impl Default for ParsedArticle {
    fn default() -> (r: Self)
        ensures
            r@ == empty_parsed(),
    {
        ParsedArticle::new()
    }
}

pub open spec fn name_title() -> Seq<char> { seq!['t', 'i', 't', 'l', 'e'] }
pub open spec fn name_link() -> Seq<char> { seq!['l', 'i', 'n', 'k'] }
pub open spec fn name_guid() -> Seq<char> { seq!['g', 'u', 'i', 'd'] }
pub open spec fn name_id() -> Seq<char> { seq!['i', 'd'] }
pub open spec fn name_description() -> Seq<char> { seq!['d', 'e', 's', 'c', 'r', 'i', 'p', 't', 'i', 'o', 'n'] }
pub open spec fn name_summary() -> Seq<char> { seq!['s', 'u', 'm', 'm', 'a', 'r', 'y'] }
pub open spec fn name_encoded() -> Seq<char> { seq!['e', 'n', 'c', 'o', 'd', 'e', 'd'] }
pub open spec fn name_content() -> Seq<char> { seq!['c', 'o', 'n', 't', 'e', 'n', 't'] }
pub open spec fn name_pub_date() -> Seq<char> { seq!['p', 'u', 'b', 'D', 'a', 't', 'e'] }
pub open spec fn name_published() -> Seq<char> { seq!['p', 'u', 'b', 'l', 'i', 's', 'h', 'e', 'd'] }
pub open spec fn name_updated() -> Seq<char> { seq!['u', 'p', 'd', 'a', 't', 'e', 'd'] }
pub open spec fn name_item() -> Seq<char> { seq!['i', 't', 'e', 'm'] }
pub open spec fn name_entry() -> Seq<char> { seq!['e', 'n', 't', 'r', 'y'] }
pub open spec fn name_href() -> Seq<u8> { seq![104u8, 114u8, 101u8, 102u8] }

/// An item after the text of the element `field` was read: `title`; `link`
/// (only while no link is known); `guid`/`id`; `description`/`summary`;
/// `encoded`/`content`; `pubDate`/`published`/`updated`. Other elements are
/// ignored.
pub open spec fn with_field(a: ParsedView, field: Seq<char>, value: Seq<char>) -> ParsedView {
    if field == name_title() {
        ParsedView { title: value, ..a }
    } else if field == name_link() && a.link.len() == 0 {
        ParsedView { link: value, ..a }
    } else if field == name_guid() || field == name_id() {
        ParsedView { guid: value, ..a }
    } else if field == name_description() || field == name_summary() {
        ParsedView { summary: Some(value), ..a }
    } else if field == name_encoded() || field == name_content() {
        ParsedView { content: Some(value), ..a }
    } else if field == name_pub_date() || field == name_published() || field == name_updated() {
        ParsedView { published_at: Some(value), ..a }
    } else {
        a
    }
}

/// Stores the text of element `field` into the item being read.
pub fn set_field(article: &mut ParsedArticle, field: &str, value: String)
    ensures
        final(article)@ == with_field(old(article)@, field@, value@),
{
    if is_text(field, &vec!['t', 'i', 't', 'l', 'e']) {
        article.title = value;
    } else if is_text(field, &vec!['l', 'i', 'n', 'k']) && article.link.as_str().is_empty() {
        article.link = value;
    } else if is_text(field, &vec!['g', 'u', 'i', 'd']) || is_text(field, &vec!['i', 'd']) {
        article.guid = value;
    } else if is_text(field, &vec!['d', 'e', 's', 'c', 'r', 'i', 'p', 't', 'i', 'o', 'n'])
        || is_text(field, &vec!['s', 'u', 'm', 'm', 'a', 'r', 'y']) {
        article.summary = Some(value);
    } else if is_text(field, &vec!['e', 'n', 'c', 'o', 'd', 'e', 'd'])
        || is_text(field, &vec!['c', 'o', 'n', 't', 'e', 'n', 't']) {
        article.content = Some(value);
    } else if is_text(field, &vec!['p', 'u', 'b', 'D', 'a', 't', 'e'])
        || is_text(field, &vec!['p', 'u', 'b', 'l', 'i', 's', 'h', 'e', 'd'])
        || is_text(field, &vec!['u', 'p', 'd', 'a', 't', 'e', 'd']) {
        article.published_at = Some(value);
    }
}

// ---------------------------------------------------------------------------
// the article hash

/// The MD5 digest of the UTF-8 bytes of a text.
pub uninterp spec fn md5_of(s: Seq<char>) -> Seq<u8>;

/// `md5::compute` over the UTF-8 bytes of `s`; the digest is named `md5_of`
/// and has 16 bytes.
#[verifier::external_body]
pub fn md5_digest(s: &str) -> (r: Vec<u8>)
    ensures
        r@ == md5_of(s@),
        r@.len() == 16,
{
    md5::compute(s.as_bytes()).0.to_vec()
}

pub open spec fn hex_digit(d: int) -> char {
    if d < 10 {
        (48 + d) as char
    } else {
        (87 + d) as char
    }
}

/// Bytes in lower-case hexadecimal, two digits each (`{:x}` of a digest).
pub open spec fn lower_hex(bytes: Seq<u8>) -> Seq<char>
    decreases bytes.len(),
{
    if bytes.len() == 0 {
        Seq::empty()
    } else {
        seq![hex_digit((bytes[0] / 16) as int), hex_digit((bytes[0] % 16) as int)] + lower_hex(bytes.drop_first())
    }
}

/// The dedupe hash of an article: the MD5 of title and link concatenated, in
/// lower-case hex.
pub open spec fn article_hash(title: Seq<char>, link: Seq<char>) -> Seq<char> {
    lower_hex(md5_of(title + link))
}

fn hex_digit_of(d: u8) -> (c: char)
    requires
        d < 16,
    ensures
        c == hex_digit(d as int),
{
    if d < 10 {
        crate::digits::digit_of(d as u64)
    } else if d == 10 { 'a' } else if d == 11 { 'b' } else if d == 12 { 'c' } else if d == 13 { 'd' }
    else if d == 14 { 'e' } else { 'f' }
}

pub proof fn lemma_lower_hex_len(bytes: Seq<u8>)
    ensures
        lower_hex(bytes).len() == 2 * bytes.len(),
    decreases bytes.len(),
{
    if bytes.len() > 0 {
        lemma_lower_hex_len(bytes.drop_first());
    }
}

fn lower_hex_string(bytes: &Vec<u8>) -> (r: String)
    ensures
        r@ == lower_hex(bytes@),
{
    let mut s = String::new();
    assert(bytes@.subrange(0, bytes.len() as int) == bytes@);
    assert(s@ + lower_hex(bytes@) == lower_hex(bytes@));
    let mut k: usize = 0;
    while k < bytes.len()
        invariant
            k <= bytes.len(),
            s@ + lower_hex(bytes@.subrange(k as int, bytes.len() as int)) == lower_hex(bytes@),
        decreases bytes.len() - k,
    {
        let b = bytes[k];
        let ghost rest = bytes@.subrange(k as int, bytes.len() as int);
        assert(rest.drop_first() == bytes@.subrange(k + 1, bytes.len() as int));
        assert(rest[0] == b);
        push_char(&mut s, hex_digit_of(b / 16));
        push_char(&mut s, hex_digit_of(b % 16));
        k += 1;
    }
    assert(bytes@.subrange(bytes.len() as int, bytes.len() as int) == Seq::<u8>::empty());
    s
}


/// Parses RSS and Atom documents into articles.
pub struct FeedParser;

impl FeedParser {
    /// The dedupe hash of an article: `md5(title + link)` in lower-case hex,
    /// 32 characters.
    pub fn generate_article_hash(title: &str, link: &str) -> (r: String)
        ensures
            r@ == article_hash(title@, link@),
            r@.len() == 32,
    {
        let mut joined = String::new();
        push_str(&mut joined, title);
        push_str(&mut joined, link);
        let digest = md5_digest(joined.as_str());
        proof {
            lemma_lower_hex_len(digest@);
        }
        lower_hex_string(&digest)
    }

    /// Parses an RSS document (RSS and Atom share one parser).
    pub fn parse_rss(content: &str, feed_id: i32) -> (r: Result<Vec<Article>, FeedError>)
        ensures
            articles_result(r) == document_articles(content@, feed_id),
    {
        parse_document(content, feed_id)
    }

    /// Parses an Atom document (RSS and Atom share one parser).
    pub fn parse_atom(content: &str, feed_id: i32) -> (r: Result<Vec<Article>, FeedError>)
        ensures
            articles_result(r) == document_articles(content@, feed_id),
    {
        parse_document(content, feed_id)
    }
}

/// Why a document could not be parsed.
#[derive(Debug)]
pub struct FeedError {
    pub message: String,
}

/// The published time stored for an article: the canonical form when the raw
/// value normalises, otherwise the raw value itself (never dropped).
pub open spec fn stored_published_at(raw: Option<Seq<char>>) -> Option<Seq<char>> {
    match raw {
        Some(r) => match published_at_canonical(r) {
            Some(c) => Some(c),
            None => Some(r),
        },
        None => None,
    }
}

/// The article a finished item becomes: a missing guid falls back to the
/// link, the published time is normalised, the hash is computed.
pub open spec fn article_from(p: ParsedView, feed_id: i32) -> ArticleView {
    ArticleView {
        id: 0,
        feed_id: feed_id,
        title: p.title,
        link: p.link,
        guid: if p.guid.len() == 0 { p.link } else { p.guid },
        summary: p.summary,
        content: p.content,
        published_at: stored_published_at(p.published_at),
        hash: article_hash(p.title, p.link),
    }
}

/// The state of the parser between tokens: articles so far, the item being
/// read (if any) and the element whose text is being read.
pub struct DocState {
    pub articles: Seq<ArticleView>,
    pub current: Option<ParsedView>,
    pub field: Seq<char>,
}

pub open spec fn is_item_name(n: Seq<char>) -> bool {
    n == name_item() || n == name_entry()
}

/// One token applied to the parser state; an error when the text of an item
/// field cannot be read.
pub open spec fn doc_step(s: DocState, e: XmlEventView, feed_id: i32) -> Result<DocState, Seq<char>> {
    match e {
        XmlEventView::Start(tag) => {
            let n = local_name_text(tag_name(tag));
            if is_item_name(n) {
                Ok(DocState { current: Some(empty_parsed()), ..s })
            } else {
                match s.current {
                    Some(cur) => Ok(DocState {
                        field: n,
                        current: Some(
                            if n == name_link() {
                                ParsedView { link: attribute_value(tag_attribute_list(tag), name_href()), ..cur }
                            } else {
                                cur
                            },
                        ),
                        ..s
                    }),
                    None => Ok(s),
                }
            }
        },
        XmlEventView::Empty(tag) => match s.current {
            Some(cur) => if local_name_text(tag_name(tag)) == name_link() {
                Ok(DocState { current: Some(ParsedView { link: attribute_value(tag_attribute_list(tag), name_href()), ..cur }), ..s })
            } else {
                Ok(s)
            },
            None => Ok(s),
        },
        XmlEventView::Text(t) => match s.current {
            Some(cur) => match t {
                Ok(v) => Ok(DocState { current: Some(with_field(cur, s.field, v)), ..s }),
                Err(m) => Err(m),
            },
            None => Ok(s),
        },
        XmlEventView::CData(t) => match s.current {
            Some(cur) => match t {
                Ok(v) => Ok(DocState { current: Some(with_field(cur, s.field, v)), ..s }),
                Err(m) => Err(m),
            },
            None => Ok(s),
        },
        XmlEventView::End(name) => {
            let n = local_name_text(name);
            match s.current {
                Some(p) => if is_item_name(n) {
                    Ok(DocState {
                        articles: if p.title.len() > 0 && p.link.len() > 0 {
                            s.articles.push(article_from(p, feed_id))
                        } else {
                            s.articles
                        },
                        current: None,
                        field: Seq::empty(),
                    })
                } else {
                    Ok(s)
                },
                None => Ok(s),
            }
        },
        _ => Ok(s),
    }
}

/// The articles the rest of a token stream yields from a parser state:
/// stopping at end-of-document, failing at an error.
pub open spec fn run_tokens(s: DocState, tokens: Seq<XmlEventView>, feed_id: i32) -> Result<Seq<ArticleView>, Seq<char>>
    decreases tokens.len(),
{
    if tokens.len() == 0 {
        Ok(s.articles)
    } else {
        match tokens[0] {
            XmlEventView::Eof => Ok(s.articles),
            XmlEventView::Error(m) => Err(m),
            e => match doc_step(s, e, feed_id) {
                Ok(next) => run_tokens(next, tokens.drop_first(), feed_id),
                Err(m) => Err(m),
            },
        }
    }
}

pub open spec fn initial_state() -> DocState {
    DocState { articles: Seq::empty(), current: None, field: Seq::empty() }
}

/// The articles of a document, or the parse error message.
pub open spec fn document_articles(content: Seq<char>, feed_id: i32) -> Result<Seq<ArticleView>, Seq<char>> {
    run_tokens(initial_state(), xml_tokens(content), feed_id)
}

pub open spec fn articles_result(r: Result<Vec<Article>, FeedError>) -> Result<Seq<ArticleView>, Seq<char>> {
    match r {
        Ok(v) => Ok(v@.map_values(|a: Article| a@)),
        Err(e) => Err(e.message@),
    }
}

pub open spec fn opt_parsed(o: Option<ParsedArticle>) -> Option<ParsedView> {
    match o {
        Some(p) => Some(p@),
        None => None,
    }
}

/// Builds the article of a finished item.
pub fn finish_article(p: ParsedArticle, feed_id: i32) -> (a: Article)
    ensures
        a@ == article_from(p@, feed_id),
{
    let guid = if p.guid.as_str().is_empty() { p.link.clone() } else { p.guid.clone() };
    let hash = FeedParser::generate_article_hash(p.title.as_str(), p.link.as_str());
    let published_at = match p.published_at {
        Some(raw) => match normalize_published_at(raw.as_str()) {
            Some(c) => Some(c),
            None => Some(raw),
        },
        None => None,
    };
    Article {
        id: 0,
        feed_id,
        title: p.title,
        link: p.link,
        guid,
        summary: p.summary,
        content: p.content,
        published_at,
        hash,
    }
}


/// The parser's state between tokens.
pub struct ParserState {
    pub articles: Vec<Article>,
    pub current: Option<ParsedArticle>,
    pub field: String,
}

impl View for ParserState {
    type V = DocState;

    open spec fn view(&self) -> DocState {
        DocState {
            articles: self.articles@.map_values(|a: Article| a@),
            current: opt_parsed(self.current),
            field: self.field@,
        }
    }
}

fn is_item_text(n: &str) -> (r: bool)
    ensures
        r == is_item_name(n@),
{
    is_text(n, &vec!['i', 't', 'e', 'm']) || is_text(n, &vec!['e', 'n', 't', 'r', 'y'])
}

fn href_key() -> (r: Vec<u8>)
    ensures
        r@ == name_href(),
{
    let v: Vec<u8> = vec![104u8, 114u8, 101u8, 102u8];
    assert(v@ =~= name_href());
    v
}

impl ParserState {
    pub fn new() -> (r: Self)
        ensures
            r@ == initial_state(),
    {
        let r = ParserState { articles: Vec::new(), current: None, field: String::new() };
        assert(r@.articles =~= Seq::<ArticleView>::empty());
        r
    }

    /// Applies one token that is not end-of-document or an error.
    pub fn step(&mut self, ev: XmlEvent, feed_id: i32) -> (r: Result<(), String>)
        requires
            !is_terminal(ev@),
            tag_holds_name(ev@),
        ensures
            match doc_step(old(self)@, ev@, feed_id) {
                Ok(next) => r is Ok && final(self)@ == next,
                Err(m) => r matches Err(e) && e@ == m,
            },
    {
        match ev {
            XmlEvent::Start(content, name_len) => {
                let name = prefix_bytes(&content, name_len);
                let n = local_name(name.as_slice());
                if is_item_text(n) {
                    self.current = Some(ParsedArticle::new());
                } else {
                    let taken = self.current.take();
                    match taken {
                        Some(mut cur) => {
                            self.field = String::from_str(n);
                            if is_text(n, &vec!['l', 'i', 'n', 'k']) {
                                cur.link = attribute(&content, name_len, href_key().as_slice());
                            }
                            self.current = Some(cur);
                        },
                        None => {},
                    }
                }
                Ok(())
            },
            XmlEvent::Empty(content, name_len) => {
                let taken = self.current.take();
                match taken {
                    Some(mut cur) => {
                        let name = prefix_bytes(&content, name_len);
                        if is_text(local_name(name.as_slice()), &vec!['l', 'i', 'n', 'k']) {
                            cur.link = attribute(&content, name_len, href_key().as_slice());
                        }
                        self.current = Some(cur);
                    },
                    None => {},
                }
                Ok(())
            },
            XmlEvent::Text(t) => self.read_text(t),
            XmlEvent::CData(t) => self.read_text(t),
            XmlEvent::End(name) => {
                let n = local_name(name.as_slice());
                if is_item_text(n) && self.current.is_some() {
                    let parsed = self.current.take().unwrap();
                    if !parsed.title.as_str().is_empty() && !parsed.link.as_str().is_empty() {
                        let article = finish_article(parsed, feed_id);
                        let ghost prior = self.articles@;
                        self.articles.push(article);
                        assert(self.articles@.map_values(|a: Article| a@)
                            =~= prior.map_values(|a: Article| a@).push(article_from(parsed@, feed_id)));
                    }
                    self.field = String::new();
                }
                Ok(())
            },
            _ => Ok(()),
        }
    }

    fn read_text(&mut self, t: Result<String, String>) -> (r: Result<(), String>)
        ensures
            match old(self).current {
                Some(cur) => match result_text(t) {
                    Ok(v) => r is Ok && final(self)@ == DocState { current: Some(with_field(cur@, old(self).field@, v)), ..old(self)@ },
                    Err(m) => r matches Err(e) && e@ == m,
                },
                None => r is Ok && final(self)@ == old(self)@,
            },
    {
        let taken = self.current.take();
        match taken {
            Some(mut cur) => match t {
                Ok(v) => {
                    set_field(&mut cur, self.field.as_str(), v);
                    self.current = Some(cur);
                    Ok(())
                },
                Err(m) => Err(m),
            },
            None => Ok(()),
        }
    }
}

/// Parses an RSS 2.0 or Atom document into the articles of its items and
/// entries, in document order. An item without both a title and a link is
/// skipped; malformed XML (or text that cannot be unescaped inside an item) is
/// an error.
pub fn parse_document(content: &str, feed_id: i32) -> (r: Result<Vec<Article>, FeedError>)
    ensures
        articles_result(r) == document_articles(content@, feed_id),
{
    let mut reader = XmlEvents::open(content);
    let mut state = ParserState::new();
    loop
        invariant
            reader.pending().len() > 0,
            is_terminal(reader.pending().last()),
            forall|i: int| 0 <= i < reader.pending().len() - 1 ==> !is_terminal(#[trigger] reader.pending()[i]),
            forall|i: int| 0 <= i < reader.pending().len() ==> tag_holds_name(#[trigger] reader.pending()[i]),
            run_tokens(state@, reader.pending(), feed_id) == document_articles(content@, feed_id),
        decreases reader.pending().len(),
    {
        let ghost before = reader.pending();
        let ev = reader.next();
        match ev {
            XmlEvent::Eof => {
                return Ok(state.articles);
            },
            XmlEvent::Error(m) => {
                return Err(FeedError { message: m });
            },
            other => {
                assert(!is_terminal(before[0]));
                assert(tag_holds_name(before[0]));
                assert(before.len() > 1);
                match state.step(other, feed_id) {
                    Ok(()) => {},
                    Err(m) => {
                        return Err(FeedError { message: m });
                    },
                }
                assert forall|i: int| 0 <= i < reader.pending().len() - 1 implies !is_terminal(#[trigger] reader.pending()[i]) by {
                    assert(reader.pending()[i] == before[i + 1]);
                }
                assert forall|i: int| 0 <= i < reader.pending().len() implies tag_holds_name(#[trigger] reader.pending()[i]) by {
                    assert(reader.pending()[i] == before[i + 1]);
                }
            },
        }
    }
}


/// Whether an article is what some item with a title and a link became:
/// its guid is the item's own (the link when the item had none), its
/// published time the item's normalised (or, failing that, verbatim), its
/// hash that of the item's title and link.
pub open spec fn built_from_item(a: ArticleView, feed_id: i32) -> bool {
    exists|p: ParsedView| p.title.len() > 0 && p.link.len() > 0 && #[trigger] article_from(p, feed_id) == a
}

/// What every stored article satisfies: not yet stored (id 0), of the feed
/// being parsed, with a title and a link, a guid (the link when the item had
/// none), and the dedupe hash of its title and link; and it is what one item
/// with a title and a link became.
pub open spec fn article_complete(a: ArticleView, feed_id: i32) -> bool {
    &&& built_from_item(a, feed_id)
    &&& a.id == 0
    &&& a.feed_id == feed_id
    &&& a.title.len() > 0
    &&& a.link.len() > 0
    &&& a.guid.len() > 0
    &&& a.hash == article_hash(a.title, a.link)
}

pub open spec fn all_complete(articles: Seq<ArticleView>, feed_id: i32) -> bool {
    forall|i: int| 0 <= i < articles.len() ==> article_complete(#[trigger] articles[i], feed_id)
}

proof fn lemma_step_keeps_complete(s: DocState, e: XmlEventView, feed_id: i32)
    requires
        all_complete(s.articles, feed_id),
    ensures
        doc_step(s, e, feed_id) matches Ok(next) ==> all_complete(next.articles, feed_id),
{
    if let XmlEventView::End(name) = e {
        if let Some(p) = s.current {
            if is_item_name(local_name_text(name)) && p.title.len() > 0 && p.link.len() > 0 {
                assert(built_from_item(article_from(p, feed_id), feed_id));
                let next = s.articles.push(article_from(p, feed_id));
                assert forall|i: int| 0 <= i < next.len() implies article_complete(#[trigger] next[i], feed_id) by {
                    if i < s.articles.len() {
                        assert(next[i] == s.articles[i]);
                    }
                }
            }
        }
    }
}

proof fn lemma_run_keeps_complete(s: DocState, tokens: Seq<XmlEventView>, feed_id: i32)
    requires
        all_complete(s.articles, feed_id),
    ensures
        run_tokens(s, tokens, feed_id) matches Ok(v) ==> all_complete(v, feed_id),
    decreases tokens.len(),
{
    if tokens.len() > 0 {
        match tokens[0] {
            XmlEventView::Eof => {},
            XmlEventView::Error(_) => {},
            e => {
                lemma_step_keeps_complete(s, e, feed_id);
                if let Ok(next) = doc_step(s, e, feed_id) {
                    lemma_run_keeps_complete(next, tokens.drop_first(), feed_id);
                }
            },
        }
    }
}

/// Every article a document yields has a title, a link and a guid, belongs
/// to the feed being parsed, is not yet stored, and carries the dedupe hash
/// of its title and link; it is what one item with a title and a link
/// became (its guid the item's, else the link; its published time the
/// item's, normalised when it parses and kept verbatim otherwise); items
/// lacking a title or a link never become articles.
pub proof fn parsed_articles_are_complete(content: Seq<char>, feed_id: i32)
    ensures
        document_articles(content, feed_id) matches Ok(v) ==> all_complete(v, feed_id),
{
    lemma_run_keeps_complete(initial_state(), xml_tokens(content), feed_id);
}

// ---------------------------------------------------------------------------
// one article per item

/// A start tag naming an `item` or `entry`.
pub open spec fn opens_item(e: XmlEventView) -> bool {
    e matches XmlEventView::Start(t) && is_item_name(local_name_text(tag_name(t)))
}

/// An end tag naming an `item` or `entry`.
pub open spec fn closes_item(e: XmlEventView) -> bool {
    e matches XmlEventView::End(n) && is_item_name(local_name_text(n))
}

/// A token outside any item: anything but the end of the document, an error
/// or the start of an item.
pub open spec fn outside_item(e: XmlEventView) -> bool {
    !is_terminal(e) && !opens_item(e)
}

/// A token inside an item that is not itself an item: no end of document or
/// error, no text that failed to read, no item opened or closed.
pub open spec fn inside_item(e: XmlEventView) -> bool {
    &&& !is_terminal(e)
    &&& !(e matches XmlEventView::Text(Err(_)))
    &&& !(e matches XmlEventView::CData(Err(_)))
    &&& !opens_item(e)
    &&& !closes_item(e)
}

/// Tokens before an item (outside any item), then the item: its start tag,
/// its contents and its end tag.
pub struct ItemSegment {
    pub before: Seq<XmlEventView>,
    pub start: XmlEventView,
    pub body: Seq<XmlEventView>,
    pub end: XmlEventView,
}

pub open spec fn segment_ok(g: ItemSegment) -> bool {
    &&& forall|i: int| 0 <= i < g.before.len() ==> outside_item(#[trigger] g.before[i])
    &&& opens_item(g.start)
    &&& forall|i: int| 0 <= i < g.body.len() ==> inside_item(#[trigger] g.body[i])
    &&& closes_item(g.end)
}

pub open spec fn segment_tokens(g: ItemSegment) -> Seq<XmlEventView> {
    g.before + seq![g.start] + g.body + seq![g.end]
}

/// The tokens of a document made of these segments, then `tail` (outside any
/// item), then the end of the document.
pub open spec fn segments_tokens(gs: Seq<ItemSegment>, tail: Seq<XmlEventView>) -> Seq<XmlEventView>
    decreases gs.len(),
{
    if gs.len() == 0 {
        tail + seq![XmlEventView::Eof]
    } else {
        segment_tokens(gs[0]) + segments_tokens(gs.drop_first(), tail)
    }
}

/// Tokens applied in turn to a parser state (no end of document expected).
pub open spec fn fold_tokens(s: DocState, toks: Seq<XmlEventView>, feed_id: i32) -> Result<DocState, Seq<char>>
    decreases toks.len(),
{
    if toks.len() == 0 {
        Ok(s)
    } else {
        match doc_step(s, toks[0], feed_id) {
            Ok(next) => fold_tokens(next, toks.drop_first(), feed_id),
            Err(m) => Err(m),
        }
    }
}

/// What an item's contents read into a fresh item.
pub open spec fn item_read(g: ItemSegment, feed_id: i32) -> ParsedView {
    match fold_tokens(DocState { articles: Seq::empty(), current: Some(empty_parsed()), field: Seq::empty() }, g.body, feed_id) {
        Ok(d) => match d.current {
            Some(p) => p,
            None => empty_parsed(),
        },
        Err(_) => empty_parsed(),
    }
}

/// The article an item yields: one when it has a title and a link, none
/// otherwise.
pub open spec fn segment_articles(g: ItemSegment, feed_id: i32) -> Seq<ArticleView> {
    let p = item_read(g, feed_id);
    if p.title.len() > 0 && p.link.len() > 0 { seq![article_from(p, feed_id)] } else { Seq::empty() }
}

pub open spec fn segments_articles(gs: Seq<ItemSegment>, feed_id: i32) -> Seq<ArticleView>
    decreases gs.len(),
{
    if gs.len() == 0 {
        Seq::empty()
    } else {
        segment_articles(gs[0], feed_id) + segments_articles(gs.drop_first(), feed_id)
    }
}

proof fn lemma_fold_concat(s: DocState, a: Seq<XmlEventView>, b: Seq<XmlEventView>, feed_id: i32)
    ensures
        fold_tokens(s, a + b, feed_id) == match fold_tokens(s, a, feed_id) {
            Ok(s1) => fold_tokens(s1, b, feed_id),
            Err(m) => Err(m),
        },
    decreases a.len(),
{
    if a.len() > 0 {
        assert((a + b)[0] == a[0]);
        assert((a + b).drop_first() =~= a.drop_first() + b);
        if let Ok(next) = doc_step(s, a[0], feed_id) {
            lemma_fold_concat(next, a.drop_first(), b, feed_id);
        }
    } else {
        assert(a + b =~= b);
    }
}

proof fn lemma_fold_one(s: DocState, e: XmlEventView, feed_id: i32)
    ensures
        fold_tokens(s, seq![e], feed_id) == doc_step(s, e, feed_id),
{
    assert(seq![e].drop_first() =~= Seq::<XmlEventView>::empty());
    if let Ok(n) = doc_step(s, e, feed_id) {
        assert(fold_tokens(n, Seq::<XmlEventView>::empty(), feed_id) == Ok::<DocState, Seq<char>>(n));
    }
}

proof fn lemma_run_after_fold(s: DocState, a: Seq<XmlEventView>, b: Seq<XmlEventView>, feed_id: i32)
    requires
        forall|i: int| 0 <= i < a.len() ==> !is_terminal(#[trigger] a[i]),
    ensures
        run_tokens(s, a + b, feed_id) == match fold_tokens(s, a, feed_id) {
            Ok(s1) => run_tokens(s1, b, feed_id),
            Err(m) => Err(m),
        },
    decreases a.len(),
{
    if a.len() > 0 {
        assert((a + b)[0] == a[0]);
        assert(!is_terminal(a[0]));
        assert((a + b).drop_first() =~= a.drop_first() + b);
        if let Ok(next) = doc_step(s, a[0], feed_id) {
            lemma_run_after_fold(next, a.drop_first(), b, feed_id);
        }
    } else {
        assert(a + b =~= b);
    }
}

proof fn lemma_outside(s: DocState, a: Seq<XmlEventView>, feed_id: i32)
    requires
        s.current is None,
        forall|i: int| 0 <= i < a.len() ==> outside_item(#[trigger] a[i]),
    ensures
        fold_tokens(s, a, feed_id) == Ok::<DocState, Seq<char>>(s),
    decreases a.len(),
{
    if a.len() > 0 {
        assert(outside_item(a[0]));
        assert(doc_step(s, a[0], feed_id) == Ok::<DocState, Seq<char>>(s));
        assert forall|i: int| 0 <= i < a.drop_first().len() implies outside_item(#[trigger] a.drop_first()[i]) by {
            assert(a.drop_first()[i] == a[i + 1]);
        }
        lemma_outside(s, a.drop_first(), feed_id);
    }
}

proof fn lemma_inside(arts: Seq<ArticleView>, cur: ParsedView, field: Seq<char>, a: Seq<XmlEventView>, feed_id: i32)
    requires
        forall|i: int| 0 <= i < a.len() ==> inside_item(#[trigger] a[i]),
    ensures
        fold_tokens(DocState { articles: Seq::empty(), current: Some(cur), field }, a, feed_id) matches Ok(d)
            && d.current is Some && d.articles == Seq::<ArticleView>::empty()
            && fold_tokens(DocState { articles: arts, current: Some(cur), field }, a, feed_id)
                == Ok::<DocState, Seq<char>>(DocState { articles: arts, ..d }),
    decreases a.len(),
{
    if a.len() > 0 {
        let e = a[0];
        assert(inside_item(e));
        let s0 = DocState { articles: Seq::empty(), current: Some(cur), field };
        let s1 = DocState { articles: arts, current: Some(cur), field };
        assert forall|i: int| 0 <= i < a.drop_first().len() implies inside_item(#[trigger] a.drop_first()[i]) by {
            assert(a.drop_first()[i] == a[i + 1]);
        }
        let n0 = doc_step(s0, e, feed_id)->Ok_0;
        let n1 = doc_step(s1, e, feed_id)->Ok_0;
        assert(doc_step(s0, e, feed_id) is Ok);
        assert(doc_step(s1, e, feed_id) is Ok);
        assert(n0.articles == Seq::<ArticleView>::empty() && n0.current is Some);
        assert(n1 == DocState { articles: arts, ..n0 });
        lemma_inside(arts, n0.current.unwrap(), n0.field, a.drop_first(), feed_id);
    }
}

proof fn lemma_segments(s: DocState, gs: Seq<ItemSegment>, tail: Seq<XmlEventView>, feed_id: i32)
    requires
        s.current is None,
        s.field == Seq::<char>::empty(),
        forall|i: int| 0 <= i < gs.len() ==> segment_ok(#[trigger] gs[i]),
        forall|i: int| 0 <= i < tail.len() ==> outside_item(#[trigger] tail[i]),
    ensures
        run_tokens(s, segments_tokens(gs, tail), feed_id) == Ok::<Seq<ArticleView>, Seq<char>>(s.articles + segments_articles(gs, feed_id)),
    decreases gs.len(),
{
    if gs.len() == 0 {
        lemma_run_after_fold(s, tail, seq![XmlEventView::Eof], feed_id);
        lemma_outside(s, tail, feed_id);
        assert(s.articles + Seq::<ArticleView>::empty() =~= s.articles);
    } else {
        let g = gs[0];
        assert(segment_ok(g));
        let seg = segment_tokens(g);
        let rest = gs.drop_first();
        assert forall|i: int| 0 <= i < rest.len() implies segment_ok(#[trigger] rest[i]) by {
            assert(rest[i] == gs[i + 1]);
        }
        assert forall|i: int| 0 <= i < seg.len() implies !is_terminal(#[trigger] seg[i]) by {
            if i < g.before.len() {
                assert(seg[i] == g.before[i]);
            } else if i == g.before.len() {
                assert(seg[i] == g.start);
            } else if i < g.before.len() + 1 + g.body.len() {
                assert(seg[i] == g.body[i - g.before.len() - 1]);
            } else {
                assert(seg[i] == g.end);
            }
        }
        lemma_run_after_fold(s, seg, segments_tokens(rest, tail), feed_id);
        // before
        lemma_fold_concat(s, g.before + seq![g.start] + g.body, seq![g.end], feed_id);
        lemma_fold_concat(s, g.before + seq![g.start], g.body, feed_id);
        lemma_fold_concat(s, g.before, seq![g.start], feed_id);
        lemma_outside(s, g.before, feed_id);
        let s1 = DocState { current: Some(empty_parsed()), ..s };
        lemma_fold_one(s, g.start, feed_id);
        assert(doc_step(s, g.start, feed_id) == Ok::<DocState, Seq<char>>(s1));
        lemma_inside(s.articles, empty_parsed(), Seq::empty(), g.body, feed_id);
        let d = fold_tokens(DocState { articles: Seq::empty(), current: Some(empty_parsed()), field: Seq::empty() }, g.body, feed_id)->Ok_0;
        let s2 = DocState { articles: s.articles, ..d };
        let p = item_read(g, feed_id);
        assert(s2.current == Some(p));
        let arts = if p.title.len() > 0 && p.link.len() > 0 { s.articles.push(article_from(p, feed_id)) } else { s.articles };
        let s3 = DocState { articles: arts, current: None, field: Seq::empty() };
        lemma_fold_one(s2, g.end, feed_id);
        assert(doc_step(s2, g.end, feed_id) == Ok::<DocState, Seq<char>>(s3));
        lemma_segments(s3, rest, tail, feed_id);
        assert(arts =~= s.articles + segment_articles(g, feed_id));
        assert(s.articles + segments_articles(gs, feed_id)
            =~= (s.articles + segment_articles(g, feed_id)) + segments_articles(rest, feed_id));
    }
}

/// One article per item, in document order: when the reader's tokens are a
/// run of items, each with a start tag, contents holding no other item and
/// no unreadable text, and an end tag (with anything but items between and
/// after them), the document yields exactly one article per item that has a
/// title and a link, in the order of the items, each built from what its
/// own item holds; items without a title or a link yield nothing, and
/// nothing outside the items contributes. A document with no items yields no
/// articles.
pub proof fn one_article_per_item_in_order(content: Seq<char>, gs: Seq<ItemSegment>, tail: Seq<XmlEventView>, feed_id: i32)
    requires
        forall|i: int| 0 <= i < gs.len() ==> segment_ok(#[trigger] gs[i]),
        forall|i: int| 0 <= i < tail.len() ==> outside_item(#[trigger] tail[i]),
    ensures
        run_tokens(initial_state(), segments_tokens(gs, tail), feed_id) == Ok::<Seq<ArticleView>, Seq<char>>(segments_articles(gs, feed_id)),
        xml_tokens(content) == segments_tokens(gs, tail)
            ==> document_articles(content, feed_id) == Ok::<Seq<ArticleView>, Seq<char>>(segments_articles(gs, feed_id)),
{
    lemma_segments(initial_state(), gs, tail, feed_id);
    assert(Seq::<ArticleView>::empty() + segments_articles(gs, feed_id) =~= segments_articles(gs, feed_id));
}

}
