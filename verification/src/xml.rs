//! The event source: a forward-only tokenizer over XML text, provided by
//! `quick_xml`. This file holds every call into that crate. What a call
//! returns is a matter of the document alone, so each result has a name, and
//! the decoders state what they return over those names.

use vstd::prelude::*;
use vstd::utf8::encode_utf8;
use quick_xml::events::{BytesStart, BytesText, Event};
use quick_xml::events::attributes::Attribute as RawAttribute;
use quick_xml::Error as XmlError;
use quick_xml::Reader;
use crate::Error;

verus! {

/// The tokenizer, a `quick_xml::Reader` over the bytes of a string. Its fields
/// are private to `quick_xml`; what matters of its state is named by
/// [`input_of`], [`trimming`] and [`step_of`].
#[verifier::external_body]
pub struct XmlReader<'a> {
    inner: Reader<&'a [u8]>,
}

/// `quick_xml::Error`: the tokenizer's account of malformed input.
#[verifier::external_type_specification]
#[verifier::external_body]
pub struct ExXmlError(XmlError);

/// One event of the tokenizer, with the bytes that a decoder may read of it.
#[derive(Debug)]
pub enum Read {
    /// An opening tag: its raw name, and its whole content, which begins
    /// with the name and goes on with the attributes.
    Start { name: Vec<u8>, content: Vec<u8> },
    /// A closing tag and its raw name.
    End { name: Vec<u8> },
    /// A self-closing tag.
    Empty,
    /// Character data, still escaped.
    Text { escaped: Vec<u8> },
    /// A comment.
    Comment,
    /// A section of unparsed character data.
    CData,
    /// The XML declaration.
    Decl,
    /// A processing instruction.
    PI,
    /// A document type declaration.
    DocType,
    /// The end of the input.
    Eof,
}

/// A [`Read`] as plain values.
pub enum ReadView {
    Start { name: Seq<u8>, content: Seq<u8> },
    End { name: Seq<u8> },
    Empty,
    Text { escaped: Seq<u8> },
    Comment,
    CData,
    Decl,
    PI,
    DocType,
    Eof,
}

impl View for Read {
    type V = ReadView;

    open spec fn view(&self) -> ReadView {
        match self {
            Read::Start { name, content } => ReadView::Start { name: name@, content: content@ },
            Read::End { name } => ReadView::End { name: name@ },
            Read::Empty => ReadView::Empty,
            Read::Text { escaped } => ReadView::Text { escaped: escaped@ },
            Read::Comment => ReadView::Comment,
            Read::CData => ReadView::CData,
            Read::Decl => ReadView::Decl,
            Read::PI => ReadView::PI,
            Read::DocType => ReadView::DocType,
            Read::Eof => ReadView::Eof,
        }
    }
}

/// One attribute as the tokenizer cut it out of a tag: its raw name and its
/// value, still escaped.
#[derive(Debug)]
pub struct RawPair {
    pub key: Vec<u8>,
    pub value: Vec<u8>,
}

/// A [`RawPair`] as plain values.
pub struct RawPairView {
    pub key: Seq<u8>,
    pub value: Seq<u8>,
}

impl View for RawPair {
    type V = RawPairView;

    open spec fn view(&self) -> RawPairView {
        RawPairView { key: self.key@, value: self.value@ }
    }
}

/// The text that a tokenizer was made over.
pub uninterp spec fn input_of(reader: XmlReader) -> Seq<char>;

/// Whether a tokenizer drops the whitespace around character data.
pub uninterp spec fn trimming(reader: XmlReader) -> bool;

/// How many events a tokenizer has read so far, counting those that reading
/// an element's text took.
pub uninterp spec fn step_of(reader: XmlReader) -> nat;

/// The event that `Reader::read_event` returns on `input` once `step` events
/// were read, or `None` where it reports a fault. `trim` is the setting made
/// before the first event.
pub uninterp spec fn event_at(input: Seq<char>, trim: bool, step: nat) -> Option<ReadView>;

/// What `Reader::read_text` does on `input` once `step` events were read:
/// the text it returns, or `None` where it reports a fault, and the number of
/// events read when it returns.
pub uninterp spec fn text_read(input: Seq<char>, trim: bool, step: nat, end: Seq<u8>) -> (
    Option<Seq<char>>,
    nat,
);

/// The byte offset that `Reader::buffer_position` gives on `input` once
/// `step` events were read.
pub uninterp spec fn offset_at(input: Seq<char>, trim: bool, step: nat) -> nat;

/// What the iterator of `BytesStart::attributes` yields for a tag of the
/// given content whose name takes the first `name_len` bytes, in order: each
/// attribute, or `None` where it yields a fault.
pub uninterp spec fn attributes_in(content: Seq<u8>, name_len: nat) -> Seq<Option<RawPairView>>;

/// What `Attribute::unescape_and_decode_value` makes of an escaped value, or
/// `None` where it reports a fault.
pub uninterp spec fn attribute_text(value: Seq<u8>) -> Option<Seq<char>>;

/// What `BytesStart::unescape_and_decode` makes of the content of a tag, or
/// `None` where it reports a fault.
pub uninterp spec fn tag_text(content: Seq<u8>) -> Option<Seq<char>>;

/// What `BytesText::unescape_and_decode` makes of escaped character data, or
/// `None` where it reports a fault.
pub uninterp spec fn data_text(escaped: Seq<u8>) -> Option<Seq<char>>;

/// A result of the tokenizer as plain values: what it gave, or `None` for a
/// fault.
pub open spec fn given<T: View>(result: Result<T, XmlError>) -> Option<T::V> {
    match result {
        Ok(value) => Some(value@),
        Err(_) => None,
    }
}

/// The results that an attribute iterator gave, as plain values.
pub open spec fn all_given(results: Seq<Result<RawPair, XmlError>>) -> Seq<Option<RawPairView>> {
    Seq::new(results.len(), |i: int| given(results[i]))
}

/// Calls `Reader::from_str`, which makes a tokenizer at the start of `xml`
/// that has read nothing and does not trim.
#[verifier::external_body]
fn reader_from_str<'a>(xml: &'a str) -> (reader: XmlReader<'a>)
    ensures
        input_of(reader) == xml@,
        step_of(reader) == 0,
        !trimming(reader),
{
    XmlReader { inner: Reader::from_str(xml) }
}

/// Calls `Reader::trim_text`, which sets whether the whitespace around
/// character data is dropped, and character data that is nothing else
/// passed over. The setting is made before anything is read.
#[verifier::external_body]
fn reader_trim_text<'a>(reader: &mut XmlReader<'a>, val: bool)
    requires
        step_of(*old(reader)) == 0,
    ensures
        trimming(*final(reader)) == val,
        input_of(*final(reader)) == input_of(*old(reader)),
        step_of(*final(reader)) == 0,
{
    reader.inner.trim_text(val);
}

/// Calls `Reader::read_event` with a fresh buffer and copies out of the event
/// the bytes it holds. The tokenizer is one event further, and the event is
/// the one that the document holds at that place.
#[verifier::external_body]
fn reader_read_event<'a>(reader: &mut XmlReader<'a>) -> (read: Result<Read, XmlError>)
    ensures
        input_of(*final(reader)) == input_of(*old(reader)),
        trimming(*final(reader)) == trimming(*old(reader)),
        step_of(*final(reader)) == step_of(*old(reader)) + 1,
        given(read) == event_at(
            input_of(*old(reader)),
            trimming(*old(reader)),
            step_of(*old(reader)),
        ),
{
    Ok(match reader.inner.read_event(&mut Vec::new())? {
        Event::Start(e) => Read::Start { name: e.name().to_vec(), content: e.to_vec() },
        Event::End(e) => Read::End { name: e.name().to_vec() },
        Event::Empty(_) => Read::Empty,
        Event::Text(e) => Read::Text { escaped: e.escaped().to_vec() },
        Event::Comment(_) => Read::Comment,
        Event::CData(_) => Read::CData,
        Event::Decl(_) => Read::Decl,
        Event::PI(_) => Read::PI,
        Event::DocType(_) => Read::DocType,
        Event::Eof => Read::Eof,
    })
}

/// Calls `Reader::read_text`, which reads the character data of the element
/// just opened and everything up to the closing tag named `end`.
#[verifier::external_body]
fn reader_read_text<'a>(reader: &mut XmlReader<'a>, end: &[u8]) -> (text: Result<String, XmlError>)
    ensures
        input_of(*final(reader)) == input_of(*old(reader)),
        trimming(*final(reader)) == trimming(*old(reader)),
        (given(text), step_of(*final(reader))) == text_read(
            input_of(*old(reader)),
            trimming(*old(reader)),
            step_of(*old(reader)),
            end@,
        ),
{
    reader.inner.read_text(end, &mut Vec::new())
}

/// Calls `Reader::buffer_position`, the byte offset that the tokenizer has
/// reached.
#[verifier::external_body]
fn reader_buffer_position<'a>(reader: &XmlReader<'a>) -> (position: usize)
    ensures
        position == offset_at(input_of(*reader), trimming(*reader), step_of(*reader)),
{
    reader.inner.buffer_position()
}

/// Calls `BytesStart::attributes` on a tag of the given content and gathers
/// what the iterator yields, in order, each attribute copied out.
#[verifier::external_body]
fn start_attributes(content: &[u8], name_len: usize) -> (found: Vec<Result<RawPair, XmlError>>)
    ensures
        all_given(found@) == attributes_in(content@, name_len as nat),
{
    BytesStart::borrowed(content, name_len)
        .attributes()
        .map(|a| a.map(|a| RawPair { key: a.key.to_vec(), value: a.value.to_vec() }))
        .collect()
}

/// Calls `Attribute::unescape_and_decode_value` on an attribute of the given
/// escaped value.
#[verifier::external_body]
fn attribute_value<'a>(value: &[u8], reader: &XmlReader<'a>) -> (text: Result<String, XmlError>)
    ensures
        given(text) == attribute_text(value@),
{
    RawAttribute::from((&[][..], value)).unescape_and_decode_value(&reader.inner)
}

/// Calls `BytesStart::unescape_and_decode` on a tag of the given content.
#[verifier::external_body]
fn start_content<'a>(content: &[u8], reader: &XmlReader<'a>) -> (text: Result<String, XmlError>)
    ensures
        given(text) == tag_text(content@),
{
    BytesStart::borrowed(content, 0).unescape_and_decode(&reader.inner)
}

/// Calls `BytesText::unescape_and_decode` on the given escaped character
/// data.
#[verifier::external_body]
fn text_content<'a>(escaped: &[u8], reader: &XmlReader<'a>) -> (text: Result<String, XmlError>)
    ensures
        given(text) == data_text(escaped@),
{
    BytesText::from_escaped(escaped).unescape_and_decode(&reader.inner)
}

/// Formats a `quick_xml::Error` through its `Display` impl.
#[verifier::external_body]
fn error_message(e: &XmlError) -> String {
    format!("{}", e)
}

/// One attribute of an opening tag.
#[derive(Debug)]
pub struct Attribute {
    /// The attribute's name, as the bytes of the document.
    pub key: Vec<u8>,
    /// The attribute's value, with escape sequences resolved.
    pub value: String,
}

/// An [`Attribute`] as plain values.
pub struct AttributeView {
    pub key: Seq<u8>,
    pub value: Seq<char>,
}

impl View for Attribute {
    type V = AttributeView;

    open spec fn view(&self) -> AttributeView {
        AttributeView { key: self.key@, value: self.value@ }
    }
}

impl DeepView for Attribute {
    type V = AttributeView;

    open spec fn deep_view(&self) -> AttributeView {
        self@
    }
}

impl Clone for Attribute {
    fn clone(&self) -> (copy: Self)
        ensures
            copy@ == self@,
    {
        Attribute { key: self.key.clone(), value: self.value.clone() }
    }
}

/// The attributes that a run of raw attributes decodes to, in order, or
/// `None` if any of them is a fault or has a value that cannot be decoded.
pub open spec fn gathered(raw: Seq<Option<RawPairView>>) -> Option<Seq<AttributeView>>
    decreases raw.len(),
{
    if raw.len() == 0 {
        Some(Seq::empty())
    } else {
        match (gathered(raw.drop_last()), raw.last()) {
            (Some(earlier), Some(pair)) => match attribute_text(pair.value) {
                Some(value) => Some(earlier.push(AttributeView { key: pair.key, value })),
                None => None,
            },
            _ => None,
        }
    }
}

/// The attributes of a tag of the given content whose name takes the first
/// `name_len` bytes, or `None` if any of them is malformed.
pub open spec fn attributes_of(content: Seq<u8>, name_len: nat) -> Option<Seq<AttributeView>> {
    gathered(attributes_in(content, name_len))
}

/// A run that was read, with one more element in front of it.
pub open spec fn and_then<E>(first: E, rest: (Seq<E>, Option<nat>)) -> (Seq<E>, Option<nat>) {
    (seq![first] + rest.0, rest.1)
}

/// How many events a document may hold at most: one for each of its bytes.
pub open spec fn event_bound(input: Seq<char>) -> nat {
    encode_utf8(input).len()
}

/// A tokenizer over one document, with a bound on the events it will still
/// hand out. Every event but the end of the input takes at least one byte,
/// so the bound of [`event_bound`] never cuts a document short; it is what
/// lets a decoder's loop be shown to end.
pub(crate) struct EventSource<'a> {
    reader: XmlReader<'a>,
    budget: usize,
}

impl<'a> EventSource<'a> {
    /// How many events may still come before the end of the input.
    pub(crate) closed spec fn budget(&self) -> nat {
        self.budget as nat
    }

    /// The document.
    pub(crate) closed spec fn input(&self) -> Seq<char> {
        input_of(self.reader)
    }

    /// Whether the whitespace around character data is dropped.
    pub(crate) closed spec fn trims(&self) -> bool {
        trimming(self.reader)
    }

    /// How many events were read so far.
    pub(crate) closed spec fn step(&self) -> nat {
        step_of(self.reader)
    }

    /// The byte offset that the tokenizer has reached.
    pub(crate) open spec fn offset(&self) -> nat {
        offset_at(self.input(), self.trims(), self.step())
    }

    /// A tokenizer at the start of `xml`, trimming or not.
    pub(crate) fn open(xml: &'a str, trim: bool) -> (source: Self)
        ensures
            source.input() == xml@,
            source.trims() == trim,
            source.step() == 0,
            source.budget() == event_bound(xml@),
    {
        let mut reader = reader_from_str(xml);
        reader_trim_text(&mut reader, trim);
        EventSource { reader, budget: xml.as_bytes().len() }
    }

    /// The error for a fault that the tokenizer reports at its present
    /// position.
    fn fail(&self, e: &XmlError) -> (err: Error)
        ensures
            err matches Error::MalformedInput { position, .. } && position == self.offset(),
    {
        Error::MalformedInput {
            position: reader_buffer_position(&self.reader),
            detail: error_message(e),
        }
    }

    /// The next event. With no budget left, the end of the input is
    /// reported and the tokenizer is not asked; otherwise the tokenizer is
    /// asked once, at the cost of one event of budget, whatever it answers.
    pub(crate) fn next(&mut self) -> (r: Result<Read, Error>)
        ensures
            final(self).input() == old(self).input(),
            final(self).trims() == old(self).trims(),
            old(self).budget() == 0 ==> final(self).budget() == 0 && final(self).step() == old(
                self,
            ).step() && (r matches Ok(read) && read@ == ReadView::Eof),
            old(self).budget() > 0 ==> final(self).budget() == old(self).budget() - 1
                && final(self).step() == old(self).step() + 1 && match event_at(
                old(self).input(),
                old(self).trims(),
                old(self).step(),
            ) {
                Some(event) => r matches Ok(read) && read@ == event,
                None => r matches Err(Error::MalformedInput { position, .. }) && position
                    == final(self).offset(),
            },
    {
        if self.budget == 0 {
            return Ok(Read::Eof);
        }
        self.budget = self.budget - 1;
        match reader_read_event(&mut self.reader) {
            Ok(read) => Ok(read),
            Err(e) => Err(self.fail(&e)),
        }
    }

    /// The character data of the element just opened, read through its
    /// closing tag named `end`.
    pub(crate) fn read_text(&mut self, end: &[u8]) -> (r: Result<String, Error>)
        ensures
            final(self).input() == old(self).input(),
            final(self).trims() == old(self).trims(),
            final(self).budget() == old(self).budget(),
            final(self).step() == text_read(
                old(self).input(),
                old(self).trims(),
                old(self).step(),
                end@,
            ).1,
            match text_read(old(self).input(), old(self).trims(), old(self).step(), end@).0 {
                Some(text) => r matches Ok(read) && read@ == text,
                None => r matches Err(Error::MalformedInput { position, .. }) && position
                    == final(self).offset(),
            },
    {
        match reader_read_text(&mut self.reader, end) {
            Ok(text) => Ok(text),
            Err(e) => Err(self.fail(&e)),
        }
    }

    /// The decoded content of an opening tag.
    pub(crate) fn content(&self, content: &[u8]) -> (r: Result<String, Error>)
        ensures
            match tag_text(content@) {
                Some(text) => r matches Ok(read) && read@ == text,
                None => r matches Err(Error::MalformedInput { position, .. }) && position
                    == self.offset(),
            },
    {
        match start_content(content, &self.reader) {
            Ok(text) => Ok(text),
            Err(e) => Err(self.fail(&e)),
        }
    }

    /// Decoded character data.
    pub(crate) fn text(&self, escaped: &[u8]) -> (r: Result<String, Error>)
        ensures
            match data_text(escaped@) {
                Some(text) => r matches Ok(read) && read@ == text,
                None => r matches Err(Error::MalformedInput { position, .. }) && position
                    == self.offset(),
            },
    {
        match text_content(escaped, &self.reader) {
            Ok(text) => Ok(text),
            Err(e) => Err(self.fail(&e)),
        }
    }

    /// The attributes of an opening tag of the given content, whose name
    /// takes the first `name_len` bytes, in document order. The first
    /// malformed attribute or value fails the whole tag.
    pub(crate) fn attributes(&self, content: &[u8], name_len: usize) -> (r: Result<
        Vec<Attribute>,
        Error,
    >)
        ensures
            match attributes_of(content@, name_len as nat) {
                Some(found) => r matches Ok(attributes) && attributes.deep_view() == found,
                None => r matches Err(Error::MalformedInput { position, .. }) && position
                    == self.offset(),
            },
    {
        let raw = start_attributes(content, name_len);
        let ghost all = all_given(raw@);
        let mut attributes: Vec<Attribute> = Vec::new();
        assert(attributes.deep_view() =~= Seq::empty());
        let mut i: usize = 0;
        while i < raw.len()
            invariant
                i <= raw.len(),
                all == all_given(raw@),
                all == attributes_in(content@, name_len as nat),
                gathered(all.take(i as int)) == Some(attributes.deep_view()),
            decreases raw.len() - i,
        {
            let ghost before = attributes.deep_view();
            proof {
                assert(all.take(i + 1).drop_last() =~= all.take(i as int));
                assert(all.take(i + 1).last() == given(raw[i as int]));
            }
            match &raw[i] {
                Ok(pair) => {
                    match attribute_value(pair.value.as_slice(), &self.reader) {
                        Ok(value) => {
                            let attribute = Attribute { key: pair.key.clone(), value };
                            attributes.push(attribute);
                            assert(attributes.deep_view() =~= before.push(attribute@));
                        },
                        Err(e) => {
                            proof {
                                lemma_gathered_fails(all, i as int);
                            }
                            return Err(self.fail(&e));
                        },
                    }
                },
                Err(e) => {
                    proof {
                        lemma_gathered_fails(all, i as int);
                    }
                    return Err(self.fail(e));
                },
            }
            i += 1;
        }
        assert(all.take(raw.len() as int) =~= all);
        Ok(attributes)
    }
}

/// Once a part of a run of raw attributes fails to decode, the whole run
/// does.
proof fn lemma_gathered_fails(raw: Seq<Option<RawPairView>>, upto: int)
    requires
        0 <= upto < raw.len(),
        gathered(raw.take(upto + 1)) is None,
    ensures
        gathered(raw) is None,
    decreases raw.len(),
{
    if upto + 1 < raw.len() {
        assert(raw.drop_last().take(upto + 1) =~= raw.take(upto + 1));
        lemma_gathered_fails(raw.drop_last(), upto);
    } else {
        assert(raw.take(upto + 1) =~= raw);
    }
}

} // verus!
