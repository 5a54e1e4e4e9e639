//! The feed of the latest earthquake: one record, filled leniently.

use vstd::prelude::*;
use crate::gempa::{Field, GempaView};
use crate::text::{lowercase_of, to_lowercase, Text};
use crate::xml::{
    and_then, event_at, event_bound, offset_at, tag_text, text_read, EventSource, Read, ReadView,
};
use crate::Error;

verus! {

/// The latest earthquake.
#[derive(Debug)]
pub struct Autogempa {
    /// Date of the event.
    pub tanggal: Option<String>,
    /// Time of day of the event.
    pub jam: Option<String>,
    /// Latitude and longitude as one string.
    pub coordinates: Option<String>,
    /// Latitude.
    pub lintang: Option<String>,
    /// Longitude.
    pub bujur: Option<String>,
    /// Magnitude.
    pub magnitude: Option<String>,
    /// Depth.
    pub kedalaman: Option<String>,
    /// Region description.
    pub wilayah: Option<String>,
    /// Tsunami potential.
    pub potensi: Option<String>,
    /// Where the event was felt.
    pub dirasakan: Option<String>,
    /// File name of the shake map image.
    pub shakemap: Option<String>,
}

impl View for Autogempa {
    type V = GempaView;

    open spec fn view(&self) -> GempaView {
        GempaView {
            tanggal: self.tanggal.deep_view(),
            jam: self.jam.deep_view(),
            coordinates: self.coordinates.deep_view(),
            lintang: self.lintang.deep_view(),
            bujur: self.bujur.deep_view(),
            magnitude: self.magnitude.deep_view(),
            kedalaman: self.kedalaman.deep_view(),
            wilayah: self.wilayah.deep_view(),
            potensi: self.potensi.deep_view(),
            dirasakan: self.dirasakan.deep_view(),
            shakemap: self.shakemap.deep_view(),
        }
    }
}

impl Clone for Autogempa {
    fn clone(&self) -> (copy: Self)
        ensures
            copy@ == self@,
    {
        Autogempa {
            tanggal: self.tanggal.clone(),
            jam: self.jam.clone(),
            coordinates: self.coordinates.clone(),
            lintang: self.lintang.clone(),
            bujur: self.bujur.clone(),
            magnitude: self.magnitude.clone(),
            kedalaman: self.kedalaman.clone(),
            wilayah: self.wilayah.clone(),
            potensi: self.potensi.clone(),
            dirasakan: self.dirasakan.clone(),
            shakemap: self.shakemap.clone(),
        }
    }
}

/// The record that a run of named values leaves behind: each value is stored
/// under the field that its name selects, ignoring case, a later value
/// replacing an earlier one; names that select no field are passed over.
pub open spec fn record(entries: Seq<(Seq<char>, Seq<char>)>) -> GempaView
    decreases entries.len(),
{
    if entries.len() == 0 {
        GempaView::empty()
    } else {
        record(entries.drop_last()).assigned(lowercase_of(entries.last().0), entries.last().1)
    }
}

impl Autogempa {
    /// A record in which no field is set.
    pub fn new() -> (record: Self)
        ensures
            record@ == GempaView::empty(),
    {
        Self {
            tanggal: None,
            jam: None,
            coordinates: None,
            lintang: None,
            bujur: None,
            magnitude: None,
            kedalaman: None,
            wilayah: None,
            potensi: None,
            dirasakan: None,
            shakemap: None,
        }
    }

    /// Sets one field, replacing what it held.
    pub fn put(&mut self, field: Field, value: String)
        ensures
            final(self)@ == old(self)@.with(field, value@),
    {
        match field {
            Field::Tanggal => {
                self.tanggal = Some(value);
            }
            Field::Jam => {
                self.jam = Some(value);
            }
            Field::Coordinates => {
                self.coordinates = Some(value);
            }
            Field::Lintang => {
                self.lintang = Some(value);
            }
            Field::Bujur => {
                self.bujur = Some(value);
            }
            Field::Magnitude => {
                self.magnitude = Some(value);
            }
            Field::Kedalaman => {
                self.kedalaman = Some(value);
            }
            Field::Wilayah => {
                self.wilayah = Some(value);
            }
            Field::Potensi => {
                self.potensi = Some(value);
            }
            Field::Dirasakan => {
                self.dirasakan = Some(value);
            }
            Field::Shakemap => {
                self.shakemap = Some(value);
            }
        }
    }

    /// Sets the field that the lowercase `name` selects; a name that selects
    /// none is passed over.
    pub fn set_field(&mut self, name: &str, value: String)
        ensures
            final(self)@ == old(self)@.assigned(name@, value@),
    {
        match Field::from_name(name) {
            Some(field) => {
                self.put(field, value);
            },
            None => {},
        }
    }

    /// Sets the field that `k` selects, ignoring case, to `v`; a name that
    /// selects none is passed over.
    pub fn set<T: Text>(&mut self, k: T, v: T)
        ensures
            final(self)@ == old(self)@.assigned(lowercase_of(k.text()), v.text()),
    {
        let value = v.as_text().to_owned();
        let name = to_lowercase(k.as_text());
        self.set_field(name.as_str(), value);
    }
}

/// What the decoder finds in a feed from the event numbered `step` on, with
/// `budget` events still allowed: the named values it stores, in order, up to
/// the end of the input or the first fault, and the byte offset of that fault
/// if there is one. An element that holds a field is read together with its
/// text, under the decoded content of its opening tag; anything else is
/// passed over.
pub open spec fn reads_from(input: Seq<char>, step: nat, budget: nat) -> (
    Seq<(Seq<char>, Seq<char>)>,
    Option<nat>,
)
    decreases budget,
{
    if budget == 0 {
        (Seq::empty(), None)
    } else {
        let left = (budget - 1) as nat;
        match event_at(input, true, step) {
            None => (Seq::empty(), Some(offset_at(input, true, step + 1))),
            Some(ReadView::Eof) => (Seq::empty(), None),
            Some(ReadView::Start { name, content }) => if Field::tagged(name) {
                let (text, after) = text_read(input, true, step + 1, name);
                match (text, tag_text(content)) {
                    (Some(text), Some(key)) => and_then((key, text), reads_from(input, after, left)),
                    _ => (Seq::empty(), Some(offset_at(input, true, after))),
                }
            } else {
                reads_from(input, step + 1, left)
            },
            Some(_) => reads_from(input, step + 1, left),
        }
    }
}

/// What the decoder finds in a whole feed, read with the whitespace around
/// character data dropped: the named values and the byte offset of the first
/// fault, if there is one.
pub open spec fn feed_reads(input: Seq<char>) -> (Seq<(Seq<char>, Seq<char>)>, Option<nat>) {
    reads_from(input, 0, event_bound(input))
}

/// Decodes the feed into its one record. Fields may come in any order and
/// need no enclosing element. A fault of the tokenizer fails the whole feed
/// and is reported with its byte offset.
pub fn parse_data(xml: &str) -> (decoded: Result<Autogempa, Error>)
    ensures
        match feed_reads(xml@).1 {
            None => decoded matches Ok(found) && found@ == record(feed_reads(xml@).0),
            Some(at) => decoded matches Err(Error::MalformedInput { position, .. }) && position
                == at,
        },
{
    let mut source = EventSource::open(xml, true);
    let mut found = Autogempa::new();
    let ghost input = xml@;
    let ghost mut seen: Seq<(Seq<char>, Seq<char>)> = Seq::empty();
    loop
        invariant_except_break
            feed_reads(input) == (
                seen + reads_from(input, source.step(), source.budget()).0,
                reads_from(input, source.step(), source.budget()).1,
            ),
        invariant
            input == xml@,
            source.input() == input,
            source.trims(),
            found@ == record(seen),
        ensures
            feed_reads(input) == (seen, None::<nat>),
        decreases source.budget(),
    {
        let ghost rest = reads_from(input, source.step(), source.budget());
        let read = match source.next() {
            Ok(read) => read,
            Err(e) => {
                return Err(e);
            },
        };
        match read {
            Read::Start { name, content } => {
                if Field::is_tag(name.as_slice()) {
                    let text = source.read_text(name.as_slice());
                    let key = match source.content(content.as_slice()) {
                        Ok(key) => key,
                        Err(e) => {
                            return Err(e);
                        },
                    };
                    let text = match text {
                        Ok(text) => text,
                        Err(e) => {
                            return Err(e);
                        },
                    };
                    proof {
                        let next = reads_from(input, source.step(), source.budget());
                        assert(seen.push((key@, text@)).drop_last() =~= seen);
                        assert(seen.push((key@, text@)) + next.0 =~= seen + rest.0);
                        seen = seen.push((key@, text@));
                    }
                    found.set(key, text);
                }
            },
            Read::Eof => {
                assert(seen + rest.0 =~= seen);
                break ;
            },
            _ => {},
        }
    }
    Ok(found)
}

} // verus!
