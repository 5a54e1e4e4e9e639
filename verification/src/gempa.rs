//! Earthquake records: the feed addresses, the record type with its strict
//! field setter, and the decoder that turns a feed into records.

use vstd::prelude::*;
use crate::text::{lowercase_of, spelled, spells, str_eq, to_lowercase, Text};
use crate::xml::{
    and_then, event_at, event_bound, offset_at, tag_text, text_read, EventSource, Read, ReadView,
};
use crate::{Error, BMKG_BASE_URL};

pub mod autogempa;

verus! {

/// The earthquake feeds.
#[derive(Debug, Clone, Copy, PartialEq, Eq, Structural)]
pub enum Url {
    /// The latest earthquake.
    Autogempa,
    /// The latest earthquakes of magnitude five and above.
    GempaTerkini,
    /// The latest earthquakes that were felt.
    GempaDirasakan,
}

impl Url {
    /// The part of the feed's address that follows the host.
    pub open spec fn path(self) -> Seq<char> {
        match self {
            Url::Autogempa => "/DataMKG/TEWS/autogempa.xml"@,
            Url::GempaTerkini => "/DataMKG/TEWS/gempaterkini.xml"@,
            Url::GempaDirasakan => "/DataMKG/TEWS/gempadirasakan.xml"@,
        }
    }

    /// The feed's full address.
    pub open spec fn address(self) -> Seq<char> {
        BMKG_BASE_URL@ + self.path()
    }

    /// The feed that a lowercase name selects, if any.
    pub open spec fn named(name: Seq<char>) -> Option<Url> {
        if name == "autogempa"@ {
            Some(Url::Autogempa)
        } else if name == "gempaterkini"@ {
            Some(Url::GempaTerkini)
        } else if name == "gempadirasakan"@ {
            Some(Url::GempaDirasakan)
        } else {
            None
        }
    }

    /// The feed's full address.
    pub fn to_str(&self) -> (url: String)
        ensures
            url@ == self.address(),
    {
        let host = BMKG_BASE_URL.to_owned();
        match self {
            Url::Autogempa => host.concat("/DataMKG/TEWS/autogempa.xml"),
            Url::GempaTerkini => host.concat("/DataMKG/TEWS/gempaterkini.xml"),
            Url::GempaDirasakan => host.concat("/DataMKG/TEWS/gempadirasakan.xml"),
        }
    }

    /// Looks a feed up by its name, which must already be in lowercase.
    pub fn from_lowercase(name: &str) -> (url: Option<Url>)
        ensures
            url == Url::named(name@),
    {
        if str_eq(name, "autogempa") {
            Some(Url::Autogempa)
        } else if str_eq(name, "gempaterkini") {
            Some(Url::GempaTerkini)
        } else if str_eq(name, "gempadirasakan") {
            Some(Url::GempaDirasakan)
        } else {
            None
        }
    }

    /// Looks a feed up by its name, ignoring case.
    pub fn from_str<T: Text>(s: T) -> (url: Option<Url>)
        ensures
            url == Url::named(lowercase_of(s.text())),
    {
        let name = to_lowercase(s.as_text());
        Url::from_lowercase(name.as_str())
    }
}

/// The fields of an earthquake record: the closed set that a setter accepts.
#[derive(Debug, Clone, Copy, PartialEq, Eq, Structural)]
pub enum Field {
    Tanggal,
    Jam,
    Coordinates,
    Lintang,
    Bujur,
    Magnitude,
    Kedalaman,
    Wilayah,
    Potensi,
    Dirasakan,
    Shakemap,
}

impl Field {
    /// The field that a lowercase name selects, if any.
    pub open spec fn named(name: Seq<char>) -> Option<Field> {
        if name == "tanggal"@ {
            Some(Field::Tanggal)
        } else if name == "jam"@ {
            Some(Field::Jam)
        } else if name == "coordinates"@ {
            Some(Field::Coordinates)
        } else if name == "lintang"@ {
            Some(Field::Lintang)
        } else if name == "bujur"@ {
            Some(Field::Bujur)
        } else if name == "magnitude"@ {
            Some(Field::Magnitude)
        } else if name == "kedalaman"@ {
            Some(Field::Kedalaman)
        } else if name == "wilayah"@ {
            Some(Field::Wilayah)
        } else if name == "potensi"@ {
            Some(Field::Potensi)
        } else if name == "dirasakan"@ {
            Some(Field::Dirasakan)
        } else if name == "shakemap"@ {
            Some(Field::Shakemap)
        } else {
            None
        }
    }

    /// Looks a field up by its name, which must already be in lowercase.
    pub fn from_name(name: &str) -> (field: Option<Field>)
        ensures
            field == Field::named(name@),
    {
        if str_eq(name, "tanggal") {
            Some(Field::Tanggal)
        } else if str_eq(name, "jam") {
            Some(Field::Jam)
        } else if str_eq(name, "coordinates") {
            Some(Field::Coordinates)
        } else if str_eq(name, "lintang") {
            Some(Field::Lintang)
        } else if str_eq(name, "bujur") {
            Some(Field::Bujur)
        } else if str_eq(name, "magnitude") {
            Some(Field::Magnitude)
        } else if str_eq(name, "kedalaman") {
            Some(Field::Kedalaman)
        } else if str_eq(name, "wilayah") {
            Some(Field::Wilayah)
        } else if str_eq(name, "potensi") {
            Some(Field::Potensi)
        } else if str_eq(name, "dirasakan") {
            Some(Field::Dirasakan)
        } else if str_eq(name, "shakemap") {
            Some(Field::Shakemap)
        } else {
            None
        }
    }

    /// Whether an element of this name holds a field of a record. The feed
    /// writes most of these names with a capital.
    pub open spec fn tagged(name: Seq<u8>) -> bool {
        name == spelled("Tanggal")
        || name == spelled("Jam")
        || name == spelled("coordinates")
        || name == spelled("Lintang")
        || name == spelled("Bujur")
        || name == spelled("Magnitude")
        || name == spelled("Kedalaman")
        || name == spelled("Wilayah")
        || name == spelled("Potensi")
        || name == spelled("Dirasakan")
        || name == spelled("Shakemap")
    }

    /// Whether an element of this name holds a field of a record.
    pub fn is_tag(name: &[u8]) -> (known: bool)
        ensures
            known == Field::tagged(name@),
    {
        spells(name, "Tanggal")
        || spells(name, "Jam")
        || spells(name, "coordinates")
        || spells(name, "Lintang")
        || spells(name, "Bujur")
        || spells(name, "Magnitude")
        || spells(name, "Kedalaman")
        || spells(name, "Wilayah")
        || spells(name, "Potensi")
        || spells(name, "Dirasakan")
        || spells(name, "Shakemap")
    }
}

/// An earthquake record as plain values: what the contracts speak of.
pub struct GempaView {
    pub tanggal: Option<Seq<char>>,
    pub jam: Option<Seq<char>>,
    pub coordinates: Option<Seq<char>>,
    pub lintang: Option<Seq<char>>,
    pub bujur: Option<Seq<char>>,
    pub magnitude: Option<Seq<char>>,
    pub kedalaman: Option<Seq<char>>,
    pub wilayah: Option<Seq<char>>,
    pub potensi: Option<Seq<char>>,
    pub dirasakan: Option<Seq<char>>,
    pub shakemap: Option<Seq<char>>,
}

impl GempaView {
    /// The record in which no field is set.
    pub open spec fn empty() -> GempaView {
        GempaView {
            tanggal: None,
            jam: None,
            coordinates: None,
            lintang: None,
            bujur: None,
            magnitude: None,
            kedalaman: None,
            wilayah: None,
            potensi: None,
            dirasakan: None,
            shakemap: None,
        }
    }

    /// The value of one field.
    pub open spec fn get(self, field: Field) -> Option<Seq<char>> {
        match field {
            Field::Tanggal => self.tanggal,
            Field::Jam => self.jam,
            Field::Coordinates => self.coordinates,
            Field::Lintang => self.lintang,
            Field::Bujur => self.bujur,
            Field::Magnitude => self.magnitude,
            Field::Kedalaman => self.kedalaman,
            Field::Wilayah => self.wilayah,
            Field::Potensi => self.potensi,
            Field::Dirasakan => self.dirasakan,
            Field::Shakemap => self.shakemap,
        }
    }

    /// This record with one field set to `value`, whatever it held before.
    pub open spec fn with(self, field: Field, value: Seq<char>) -> GempaView {
        match field {
            Field::Tanggal => GempaView { tanggal: Some(value), ..self },
            Field::Jam => GempaView { jam: Some(value), ..self },
            Field::Coordinates => GempaView { coordinates: Some(value), ..self },
            Field::Lintang => GempaView { lintang: Some(value), ..self },
            Field::Bujur => GempaView { bujur: Some(value), ..self },
            Field::Magnitude => GempaView { magnitude: Some(value), ..self },
            Field::Kedalaman => GempaView { kedalaman: Some(value), ..self },
            Field::Wilayah => GempaView { wilayah: Some(value), ..self },
            Field::Potensi => GempaView { potensi: Some(value), ..self },
            Field::Dirasakan => GempaView { dirasakan: Some(value), ..self },
            Field::Shakemap => GempaView { shakemap: Some(value), ..self },
        }
    }

    /// This record after a value arrived under `name`: set if the name
    /// selects a field, untouched otherwise.
    pub open spec fn assigned(self, name: Seq<char>, value: Seq<char>) -> GempaView {
        match Field::named(name) {
            Some(field) => self.with(field, value),
            None => self,
        }
    }
}

/// Last write wins. Setting a field leaves it holding the value just set,
/// whatever it held before, and leaves every other field as it was.
pub proof fn lemma_field_holds_last_value(
    record: GempaView,
    field: Field,
    value: Seq<char>,
    other: Field,
)
    ensures
        record.with(field, value).get(other) == if other == field {
            Some(value)
        } else {
            record.get(other)
        },
{
}

/// One earthquake.
#[derive(Debug)]
pub struct Gempa {
    /// Date of the event.
    pub tanggal: Option<String>,
    /// Time of day of the event.
    pub jam: Option<String>,
    /// Latitude and longitude as one string.
    pub coordinates: Option<String>,
    /// Latitude.
    pub lintang: Option<String>,
    /// Longitude.
    pub bujur: Option<String>,
    /// Magnitude.
    pub magnitude: Option<String>,
    /// Depth.
    pub kedalaman: Option<String>,
    /// Region description.
    pub wilayah: Option<String>,
    /// Tsunami potential.
    pub potensi: Option<String>,
    /// Where the event was felt.
    pub dirasakan: Option<String>,
    /// Address of the shake map image.
    pub shakemap: Option<String>,
}

impl View for Gempa {
    type V = GempaView;

    open spec fn view(&self) -> GempaView {
        GempaView {
            tanggal: self.tanggal.deep_view(),
            jam: self.jam.deep_view(),
            coordinates: self.coordinates.deep_view(),
            lintang: self.lintang.deep_view(),
            bujur: self.bujur.deep_view(),
            magnitude: self.magnitude.deep_view(),
            kedalaman: self.kedalaman.deep_view(),
            wilayah: self.wilayah.deep_view(),
            potensi: self.potensi.deep_view(),
            dirasakan: self.dirasakan.deep_view(),
            shakemap: self.shakemap.deep_view(),
        }
    }
}

impl DeepView for Gempa {
    type V = GempaView;

    open spec fn deep_view(&self) -> GempaView {
        self@
    }
}

impl Clone for Gempa {
    fn clone(&self) -> (copy: Self)
        ensures
            copy@ == self@,
    {
        Gempa {
            tanggal: self.tanggal.clone(),
            jam: self.jam.clone(),
            coordinates: self.coordinates.clone(),
            lintang: self.lintang.clone(),
            bujur: self.bujur.clone(),
            magnitude: self.magnitude.clone(),
            kedalaman: self.kedalaman.clone(),
            wilayah: self.wilayah.clone(),
            potensi: self.potensi.clone(),
            dirasakan: self.dirasakan.clone(),
            shakemap: self.shakemap.clone(),
        }
    }
}

impl Gempa {
    /// A record in which no field is set.
    pub fn new() -> (record: Self)
        ensures
            record@ == GempaView::empty(),
    {
        Self {
            tanggal: None,
            jam: None,
            coordinates: None,
            lintang: None,
            bujur: None,
            magnitude: None,
            kedalaman: None,
            wilayah: None,
            potensi: None,
            dirasakan: None,
            shakemap: None,
        }
    }

    /// Sets one field, replacing what it held.
    pub fn put(&mut self, field: Field, value: String)
        ensures
            final(self)@ == old(self)@.with(field, value@),
    {
        match field {
            Field::Tanggal => {
                self.tanggal = Some(value);
            }
            Field::Jam => {
                self.jam = Some(value);
            }
            Field::Coordinates => {
                self.coordinates = Some(value);
            }
            Field::Lintang => {
                self.lintang = Some(value);
            }
            Field::Bujur => {
                self.bujur = Some(value);
            }
            Field::Magnitude => {
                self.magnitude = Some(value);
            }
            Field::Kedalaman => {
                self.kedalaman = Some(value);
            }
            Field::Wilayah => {
                self.wilayah = Some(value);
            }
            Field::Potensi => {
                self.potensi = Some(value);
            }
            Field::Dirasakan => {
                self.dirasakan = Some(value);
            }
            Field::Shakemap => {
                self.shakemap = Some(value);
            }
        }
    }

    /// Sets the field that the lowercase `name` selects. A name outside the
    /// set of fields is an error and leaves the record as it was.
    pub fn set_field(&mut self, name: &str, value: String) -> (done: Result<(), Error>)
        ensures
            match Field::named(name@) {
                Some(field) => done is Ok && final(self)@ == old(self)@.with(field, value@),
                None => final(self)@ == old(self)@ && (done matches Err(
                    Error::UnrecognizedField { name: unknown },
                ) && unknown@ == name@),
            },
    {
        match Field::from_name(name) {
            Some(field) => {
                self.put(field, value);
                Ok(())
            },
            None => Err(Error::UnrecognizedField { name: name.to_owned() }),
        }
    }

    /// Sets the field that `k` selects, ignoring case, to `v`. A name outside
    /// the set of fields is an error and leaves the record as it was.
    pub fn set<T: Text>(&mut self, k: T, v: T) -> (done: Result<(), Error>)
        ensures
            match Field::named(lowercase_of(k.text())) {
                Some(field) => done is Ok && final(self)@ == old(self)@.with(field, v.text()),
                None => final(self)@ == old(self)@ && (done matches Err(
                    Error::UnrecognizedField { name: unknown },
                ) && unknown@ == lowercase_of(k.text())),
            },
    {
        let value = v.as_text().to_owned();
        let name = to_lowercase(k.as_text());
        self.set_field(name.as_str(), value)
    }
}

/// What the decoder takes from the feed, one event at a time.
#[derive(Debug)]
pub enum Event {
    /// An element that holds a field: the decoded content of its opening tag
    /// and its character data.
    Field { key: String, text: String },
    /// The closing tag of a record.
    End,
}

/// An [`Event`] as plain values.
pub enum EventView {
    Field { key: Seq<char>, text: Seq<char> },
    End,
}

impl View for Event {
    type V = EventView;

    open spec fn view(&self) -> EventView {
        match self {
            Event::Field { key, text } => EventView::Field { key: key@, text: text@ },
            Event::End => EventView::End,
        }
    }
}

impl DeepView for Event {
    type V = EventView;

    open spec fn deep_view(&self) -> EventView {
        self@
    }
}

/// The address of a shake map image, from the file name that the feed gives.
pub open spec fn shakemap_address(file: Seq<char>) -> Seq<char> {
    BMKG_BASE_URL@ + "/DataMKG/TEWS/"@ + file
}

/// The value that a field event stores: the text as it came, but for the
/// element spelled `Shakemap`, whose file name becomes a full address.
pub open spec fn stored_value(key: Seq<char>, text: Seq<char>) -> Seq<char> {
    if key == "Shakemap"@ {
        shakemap_address(text)
    } else {
        text
    }
}

/// The decoder's state as plain values: the record in progress and the
/// records already closed, in document order.
pub struct RecordsView {
    pub current: GempaView,
    pub done: Seq<GempaView>,
}

impl RecordsView {
    /// The state before any event.
    pub open spec fn initial() -> RecordsView {
        RecordsView { current: GempaView::empty(), done: Seq::empty() }
    }

    /// The state after one more event. A field event sets the field that its
    /// key selects, ignoring case, and is ignored if the key selects none. The
    /// end of a record appends the record in progress and starts a fresh one.
    pub open spec fn after(self, event: EventView) -> RecordsView {
        match event {
            EventView::Field { key, text } => RecordsView {
                current: self.current.assigned(lowercase_of(key), stored_value(key, text)),
                ..self
            },
            EventView::End => RecordsView {
                current: GempaView::empty(),
                done: self.done.push(self.current),
            },
        }
    }

    /// The state after a run of events, taken in order.
    pub open spec fn run(self, events: Seq<EventView>) -> RecordsView
        decreases events.len(),
    {
        if events.len() == 0 {
            self
        } else {
            self.run(events.drop_last()).after(events.last())
        }
    }
}

/// The records that a run of events decodes to. A record in progress that is
/// never closed is not among them.
pub open spec fn records(events: Seq<EventView>) -> Seq<GempaView> {
    RecordsView::initial().run(events).done
}

/// Builds records from events, one accumulator deep.
pub struct RecordBuilder {
    current: Gempa,
    done: Vec<Gempa>,
}

impl View for RecordBuilder {
    type V = RecordsView;

    closed spec fn view(&self) -> RecordsView {
        RecordsView { current: self.current@, done: self.done.deep_view() }
    }
}

impl RecordBuilder {
    /// A builder that has seen no event.
    pub fn new() -> (builder: Self)
        ensures
            builder@ == RecordsView::initial(),
    {
        let builder = RecordBuilder { current: Gempa::new(), done: Vec::new() };
        assert(builder.done.deep_view() =~= Seq::empty());
        builder
    }

    /// Takes one event.
    pub fn observe(&mut self, event: Event)
        ensures
            final(self)@ == old(self)@.after(event@),
    {
        match event {
            Event::Field { key, text } => {
                let value = if str_eq(key.as_str(), "Shakemap") {
                    BMKG_BASE_URL.to_owned().concat("/DataMKG/TEWS/").concat(text.as_str())
                } else {
                    text
                };
                match self.current.set(key, value) {
                    Ok(_) => {},
                    Err(_) => {},
                }
            },
            Event::End => {
                let mut record = Gempa::new();
                std::mem::swap(&mut record, &mut self.current);
                self.done.push(record);
                assert(self.done.deep_view() =~= old(self).done.deep_view().push(
                    old(self).current@,
                ));
            },
        }
    }

    /// The records closed so far, in document order.
    pub fn finish(self) -> (list: Vec<Gempa>)
        ensures
            list.deep_view() == self@.done,
    {
        self.done
    }
}

/// Decodes a run of events that is already at hand.
pub fn decode(events: Vec<Event>) -> (list: Vec<Gempa>)
    ensures
        list.deep_view() == records(events.deep_view()),
{
    let ghost all = events.deep_view();
    let mut builder = RecordBuilder::new();
    for event in it: events
        invariant
            all == events.deep_view(),
            it.seq() == events@,
            builder@ == RecordsView::initial().run(all.take(it.index())),
    {
        proof {
            let n = it.index();
            assert(all.take(n + 1).drop_last() =~= all.take(n));
            assert(all.take(n + 1).last() == event@);
        }
        builder.observe(event);
    }
    assert(all.take(all.len() as int) =~= all);
    builder.finish()
}

/// What the decoder finds in a feed from the event numbered `step` on, with
/// `budget` events still allowed: the events it hands to the record builder,
/// in order, up to the end of the input or the first fault, and the byte
/// offset of that fault if there is one.
///
/// An element that holds a field is read together with its text, and the
/// decoded content of its opening tag is the key. The closing tag spelled
/// `gempa` ends a record. Anything else is passed over.
pub open spec fn reads_from(input: Seq<char>, step: nat, budget: nat) -> (
    Seq<EventView>,
    Option<nat>,
)
    decreases budget,
{
    if budget == 0 {
        (Seq::empty(), None)
    } else {
        let left = (budget - 1) as nat;
        match event_at(input, true, step) {
            None => (Seq::empty(), Some(offset_at(input, true, step + 1))),
            Some(ReadView::Eof) => (Seq::empty(), None),
            Some(ReadView::Start { name, content }) => if Field::tagged(name) {
                let (text, after) = text_read(input, true, step + 1, name);
                match (text, tag_text(content)) {
                    (Some(text), Some(key)) => and_then(
                        EventView::Field { key, text },
                        reads_from(input, after, left),
                    ),
                    _ => (Seq::empty(), Some(offset_at(input, true, after))),
                }
            } else {
                reads_from(input, step + 1, left)
            },
            Some(ReadView::End { name }) => if name == spelled("gempa") {
                and_then(EventView::End, reads_from(input, step + 1, left))
            } else {
                reads_from(input, step + 1, left)
            },
            Some(_) => reads_from(input, step + 1, left),
        }
    }
}

/// What the decoder finds in a whole feed, read with the whitespace around
/// character data dropped: the events for the record builder and the byte
/// offset of the first fault, if there is one.
pub open spec fn feed_reads(input: Seq<char>) -> (Seq<EventView>, Option<nat>) {
    reads_from(input, 0, event_bound(input))
}

/// Decodes a feed into its records, in document order. Only records whose
/// closing tag was seen are returned. A fault of the tokenizer fails the
/// whole feed, whatever was decoded before it, and is reported with its byte
/// offset.
pub fn parse_data<T: Text>(xml: T) -> (decoded: Result<Vec<Gempa>, Error>)
    ensures
        match feed_reads(xml.text()).1 {
            None => decoded matches Ok(list) && list.deep_view() == records(
                feed_reads(xml.text()).0,
            ),
            Some(at) => decoded matches Err(Error::MalformedInput { position, .. }) && position
                == at,
        },
{
    let mut source = EventSource::open(xml.as_text(), true);
    let mut builder = RecordBuilder::new();
    let ghost input = xml.text();
    let ghost mut seen: Seq<EventView> = Seq::empty();
    loop
        invariant_except_break
            feed_reads(input) == (
                seen + reads_from(input, source.step(), source.budget()).0,
                reads_from(input, source.step(), source.budget()).1,
            ),
        invariant
            input == xml.text(),
            source.input() == input,
            source.trims(),
            builder@ == RecordsView::initial().run(seen),
        ensures
            feed_reads(input) == (seen, None::<nat>),
        decreases source.budget(),
    {
        let ghost rest = reads_from(input, source.step(), source.budget());
        let read = match source.next() {
            Ok(read) => read,
            Err(e) => {
                return Err(e);
            },
        };
        match read {
            Read::Start { name, content } => {
                if Field::is_tag(name.as_slice()) {
                    let text = match source.read_text(name.as_slice()) {
                        Ok(text) => text,
                        Err(e) => {
                            return Err(e);
                        },
                    };
                    let key = match source.content(content.as_slice()) {
                        Ok(key) => key,
                        Err(e) => {
                            return Err(e);
                        },
                    };
                    let event = Event::Field { key, text };
                    proof {
                        let next = reads_from(input, source.step(), source.budget());
                        assert(seen.push(event@).drop_last() =~= seen);
                        assert(seen.push(event@) + next.0 =~= seen + rest.0);
                        seen = seen.push(event@);
                    }
                    builder.observe(event);
                }
            },
            Read::End { name } => {
                if spells(name.as_slice(), "gempa") {
                    proof {
                        let next = reads_from(input, source.step(), source.budget());
                        assert(seen.push(EventView::End).drop_last() =~= seen);
                        assert(seen.push(EventView::End) + next.0 =~= seen + rest.0);
                        seen = seen.push(EventView::End);
                    }
                    builder.observe(Event::End);
                }
            },
            Read::Eof => {
                assert(seen + rest.0 =~= seen);
                break ;
            },
            _ => {},
        }
    }
    Ok(builder.finish())
}

} // verus!
