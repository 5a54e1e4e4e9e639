//! The tag-tree builder: a state machine that turns the events of a forecast
//! document into its nested record, holding one record in progress for each
//! level of nesting.

use vstd::prelude::*;
use crate::cuaca::{
    Area, AreaView, Data, DataView, Forecast, ForecastView, Issue, IssueView, Name, NameView,
    Parameter, ParameterView, TimeRange, TimeRangeView, Value, ValueView,
};
use crate::text::{spelled, spells, Text};
use crate::xml::{
    and_then, attributes_of, event_at, event_bound, offset_at, text_read, Attribute, AttributeView,
    EventSource, Read, ReadView,
};
use crate::Error;

verus! {

/// The elements that the builder knows, and one variant for all others.
#[derive(Debug, Clone, Copy, PartialEq, Eq, Structural)]
pub enum Element {
    /// The document root. Spelled `data`.
    Data,
    /// The forecast. Spelled `forecast`.
    Forecast,
    /// The time of issue. Spelled `issue`.
    Issue,
    /// One location. Spelled `area`.
    Area,
    /// One name of a location. Spelled `name`.
    Name,
    /// One forecast quantity. Spelled `parameter`.
    Parameter,
    /// One interval. Spelled `timerange`.
    TimeRange,
    /// One measurement. Spelled `value`.
    Value,
    /// The time of issue as one string. Spelled `timestamp`.
    Timestamp,
    /// Year of issue. Spelled `year`.
    Year,
    /// Month of issue. Spelled `month`.
    Month,
    /// Day of issue. Spelled `day`.
    Day,
    /// Hour of issue. Spelled `hour`.
    Hour,
    /// Minute of issue. Spelled `minute`.
    Minute,
    /// Second of issue. Spelled `second`.
    Second,
    /// Any other element. The builder passes it over.
    Unknown,
}

impl Element {
    /// The element that a raw name spells. The match is exact and
    /// case-sensitive.
    pub open spec fn named(name: Seq<u8>) -> Element {
        if name == spelled("data") {
            Element::Data
        } else if name == spelled("forecast") {
            Element::Forecast
        } else if name == spelled("issue") {
            Element::Issue
        } else if name == spelled("area") {
            Element::Area
        } else if name == spelled("name") {
            Element::Name
        } else if name == spelled("parameter") {
            Element::Parameter
        } else if name == spelled("timerange") {
            Element::TimeRange
        } else if name == spelled("value") {
            Element::Value
        } else if name == spelled("timestamp") {
            Element::Timestamp
        } else if name == spelled("year") {
            Element::Year
        } else if name == spelled("month") {
            Element::Month
        } else if name == spelled("day") {
            Element::Day
        } else if name == spelled("hour") {
            Element::Hour
        } else if name == spelled("minute") {
            Element::Minute
        } else if name == spelled("second") {
            Element::Second
        } else {
            Element::Unknown
        }
    }

    /// The element that a raw name spells.
    pub fn of(name: &[u8]) -> (element: Element)
        ensures
            element == Element::named(name@),
    {
        if spells(name, "data") {
            Element::Data
        } else if spells(name, "forecast") {
            Element::Forecast
        } else if spells(name, "issue") {
            Element::Issue
        } else if spells(name, "area") {
            Element::Area
        } else if spells(name, "name") {
            Element::Name
        } else if spells(name, "parameter") {
            Element::Parameter
        } else if spells(name, "timerange") {
            Element::TimeRange
        } else if spells(name, "value") {
            Element::Value
        } else if spells(name, "timestamp") {
            Element::Timestamp
        } else if spells(name, "year") {
            Element::Year
        } else if spells(name, "month") {
            Element::Month
        } else if spells(name, "day") {
            Element::Day
        } else if spells(name, "hour") {
            Element::Hour
        } else if spells(name, "minute") {
            Element::Minute
        } else if spells(name, "second") {
            Element::Second
        } else {
            Element::Unknown
        }
    }

    /// Whether the element's character data is read as its payload.
    pub open spec fn holds_text(self) -> bool {
        match self {
            Element::Name
            | Element::Value
            | Element::Timestamp
            | Element::Year
            | Element::Month
            | Element::Day
            | Element::Hour
            | Element::Minute
            | Element::Second => true,
            _ => false,
        }
    }

    /// Whether the element's character data is read as its payload.
    pub fn is_leaf(&self) -> (leaf: bool)
        ensures
            leaf == self.holds_text(),
    {
        match self {
            Element::Name
            | Element::Value
            | Element::Timestamp
            | Element::Year
            | Element::Month
            | Element::Day
            | Element::Hour
            | Element::Minute
            | Element::Second => true,
            _ => false,
        }
    }

    /// Whether the element's attributes are read.
    pub open spec fn holds_attributes(self) -> bool {
        match self {
            Element::Data
            | Element::Forecast
            | Element::Area
            | Element::Name
            | Element::Parameter
            | Element::TimeRange
            | Element::Value => true,
            _ => false,
        }
    }

    /// Whether the element's attributes are read.
    pub fn has_attributes(&self) -> (read: bool)
        ensures
            read == self.holds_attributes(),
    {
        match self {
            Element::Data
            | Element::Forecast
            | Element::Area
            | Element::Name
            | Element::Parameter
            | Element::TimeRange
            | Element::Value => true,
            _ => false,
        }
    }
}

/// What the builder takes from a document, one event at a time.
#[derive(Debug)]
pub enum Event {
    /// An opening tag with its attributes, in document order.
    Open { element: Element, attributes: Vec<Attribute> },
    /// An element that holds text: its attributes and its character data up
    /// to its closing tag. The builder stores the text as it is handed over.
    Text { element: Element, attributes: Vec<Attribute>, text: String },
    /// A closing tag.
    Close { element: Element },
}

/// An [`Event`] as plain values.
pub enum EventView {
    Open { element: Element, attributes: Seq<AttributeView> },
    Text { element: Element, attributes: Seq<AttributeView>, text: Seq<char> },
    Close { element: Element },
}

impl View for Event {
    type V = EventView;

    open spec fn view(&self) -> EventView {
        match self {
            Event::Open { element, attributes } => EventView::Open {
                element: *element,
                attributes: attributes.deep_view(),
            },
            Event::Text { element, attributes, text } => EventView::Text {
                element: *element,
                attributes: attributes.deep_view(),
                text: text@,
            },
            Event::Close { element } => EventView::Close { element: *element },
        }
    }
}

impl DeepView for Event {
    type V = EventView;

    open spec fn deep_view(&self) -> EventView {
        self@
    }
}

/// The value of the last attribute whose raw name is `key`, if there is one.
pub open spec fn last_value(attributes: Seq<AttributeView>, key: Seq<u8>) -> Option<Seq<char>>
    decreases attributes.len(),
{
    if attributes.len() == 0 {
        None
    } else if attributes.last().key == key {
        Some(attributes.last().value)
    } else {
        last_value(attributes.drop_last(), key)
    }
}

/// What a field holds after the attributes of an opening tag were read: the
/// value of the last attribute spelled `key`, or what it held before if no
/// attribute is spelled so.
pub open spec fn overwritten(
    previous: Option<Seq<char>>,
    attributes: Seq<AttributeView>,
    key: &str,
) -> Option<Seq<char>> {
    match last_value(attributes, spelled(key)) {
        Some(value) => Some(value),
        None => previous,
    }
}

/// The value of the last attribute, whatever its name.
pub open spec fn any_value(attributes: Seq<AttributeView>) -> Option<Seq<char>> {
    if attributes.len() == 0 {
        None
    } else {
        Some(attributes.last().value)
    }
}

impl DataView {
    /// This record after the attributes of its opening tag were read.
    pub open spec fn with_attributes(self, attributes: Seq<AttributeView>) -> DataView {
        DataView {
            source: overwritten(self.source, attributes, "source"),
            production_center: overwritten(self.production_center, attributes, "productioncenter"),
            ..self
        }
    }
}

impl ForecastView {
    /// This record after the attributes of its opening tag were read.
    pub open spec fn with_attributes(self, attributes: Seq<AttributeView>) -> ForecastView {
        ForecastView {
            domain: overwritten(self.domain, attributes, "domain"),
            ..self
        }
    }
}

impl AreaView {
    /// This record after the attributes of its opening tag were read.
    pub open spec fn with_attributes(self, attributes: Seq<AttributeView>) -> AreaView {
        AreaView {
            id: overwritten(self.id, attributes, "id"),
            latitude: overwritten(self.latitude, attributes, "latitude"),
            longitude: overwritten(self.longitude, attributes, "longitude"),
            coordinate: overwritten(self.coordinate, attributes, "coordinate"),
            typ: overwritten(self.typ, attributes, "type"),
            region: overwritten(self.region, attributes, "region"),
            level: overwritten(self.level, attributes, "level"),
            description: overwritten(self.description, attributes, "description"),
            domain: overwritten(self.domain, attributes, "domain"),
            tags: overwritten(self.tags, attributes, "tags"),
            ..self
        }
    }
}

impl ParameterView {
    /// This record after the attributes of its opening tag were read.
    pub open spec fn with_attributes(self, attributes: Seq<AttributeView>) -> ParameterView {
        ParameterView {
            id: overwritten(self.id, attributes, "id"),
            typ: overwritten(self.typ, attributes, "type"),
            description: overwritten(self.description, attributes, "description"),
            ..self
        }
    }
}

impl TimeRangeView {
    /// This record after the attributes of its opening tag were read.
    pub open spec fn with_attributes(self, attributes: Seq<AttributeView>) -> TimeRangeView {
        TimeRangeView {
            h: overwritten(self.h, attributes, "h"),
            typ: overwritten(self.typ, attributes, "type"),
            datetime: overwritten(self.datetime, attributes, "datetime"),
            ..self
        }
    }
}

impl IssueView {
    /// This record after the text of one of its elements was read.
    pub open spec fn with_text(self, element: Element, text: Seq<char>) -> IssueView {
        match element {
            Element::Timestamp => IssueView { timestamp: Some(text), ..self },
            Element::Year => IssueView { year: Some(text), ..self },
            Element::Month => IssueView { month: Some(text), ..self },
            Element::Day => IssueView { day: Some(text), ..self },
            Element::Hour => IssueView { hour: Some(text), ..self },
            Element::Minute => IssueView { minute: Some(text), ..self },
            Element::Second => IssueView { second: Some(text), ..self },
            _ => self,
        }
    }
}

/// The builder's state as plain values: the record in progress at each level
/// of nesting. Names and measurements are complete as soon as they are read,
/// so none is ever in progress between two events.
pub struct BuilderView {
    pub data: DataView,
    pub forecast: ForecastView,
    pub issue: IssueView,
    pub area: AreaView,
    pub parameter: ParameterView,
    pub time_range: TimeRangeView,
}

impl BuilderView {
    /// The state before any event: every record empty.
    pub open spec fn initial() -> BuilderView {
        BuilderView {
            data: DataView::empty(),
            forecast: ForecastView::empty(),
            issue: IssueView::empty(),
            area: AreaView::empty(),
            parameter: ParameterView::empty(),
            time_range: TimeRangeView::empty(),
        }
    }

    /// The state after an opening tag: the record in progress for that
    /// element takes the attributes it knows.
    pub open spec fn opened(self, element: Element, attributes: Seq<AttributeView>) -> BuilderView {
        match element {
            Element::Data => BuilderView { data: self.data.with_attributes(attributes), ..self },
            Element::Forecast => BuilderView {
                forecast: self.forecast.with_attributes(attributes),
                ..self
            },
            Element::Area => BuilderView { area: self.area.with_attributes(attributes), ..self },
            Element::Parameter => BuilderView {
                parameter: self.parameter.with_attributes(attributes),
                ..self
            },
            Element::TimeRange => BuilderView {
                time_range: self.time_range.with_attributes(attributes),
                ..self
            },
            _ => self,
        }
    }

    /// The state after an element that holds text. A name or a measurement is
    /// appended to its parent at once; a part of the time of issue is stored
    /// in the issue in progress.
    pub open spec fn filled(
        self,
        element: Element,
        attributes: Seq<AttributeView>,
        text: Seq<char>,
    ) -> BuilderView {
        match element {
            Element::Name => BuilderView {
                area: AreaView {
                    names: self.area.names.push(
                        NameView { lang: any_value(attributes), text: Some(text) },
                    ),
                    ..self.area
                },
                ..self
            },
            Element::Value => BuilderView {
                time_range: TimeRangeView {
                    values: self.time_range.values.push(
                        ValueView { unit: any_value(attributes), value: Some(text) },
                    ),
                    ..self.time_range
                },
                ..self
            },
            Element::Timestamp
            | Element::Year
            | Element::Month
            | Element::Day
            | Element::Hour
            | Element::Minute
            | Element::Second => BuilderView { issue: self.issue.with_text(element, text), ..self },
            _ => self,
        }
    }

    /// The state after a closing tag. A list member is appended to its
    /// parent's list and a fresh record takes its place; the forecast and the
    /// time of issue are stored in their parent and stay in progress.
    pub open spec fn closed(self, element: Element) -> BuilderView {
        match element {
            Element::Forecast => BuilderView {
                data: DataView { forecast: Some(self.forecast), ..self.data },
                ..self
            },
            Element::Issue => BuilderView {
                forecast: ForecastView { issue: Some(self.issue), ..self.forecast },
                ..self
            },
            Element::Area => BuilderView {
                forecast: ForecastView {
                    areas: self.forecast.areas.push(self.area),
                    ..self.forecast
                },
                area: AreaView::empty(),
                ..self
            },
            Element::Parameter => BuilderView {
                area: AreaView {
                    parameters: self.area.parameters.push(self.parameter),
                    ..self.area
                },
                parameter: ParameterView::empty(),
                ..self
            },
            Element::TimeRange => BuilderView {
                parameter: ParameterView {
                    timeranges: self.parameter.timeranges.push(self.time_range),
                    ..self.parameter
                },
                time_range: TimeRangeView::empty(),
                ..self
            },
            _ => self,
        }
    }

    /// The state after one more event.
    pub open spec fn after(self, event: EventView) -> BuilderView {
        match event {
            EventView::Open { element, attributes } => self.opened(element, attributes),
            EventView::Text { element, attributes, text } => self.filled(element, attributes, text),
            EventView::Close { element } => self.closed(element),
        }
    }

    /// The state after a run of events, taken in order.
    pub open spec fn run(self, events: Seq<EventView>) -> BuilderView
        decreases events.len(),
    {
        if events.len() == 0 {
            self
        } else {
            self.run(events.drop_last()).after(events.last())
        }
    }
}

/// The record that a run of events decodes to.
pub open spec fn document(events: Seq<EventView>) -> DataView {
    BuilderView::initial().run(events).data
}

/// Stores in `slot` the value of the last attribute spelled `key`, if there
/// is one.
fn overwrite(slot: &mut Option<String>, attributes: &Vec<Attribute>, key: &str)
    ensures
        final(slot).deep_view() == overwritten(old(slot).deep_view(), attributes.deep_view(), key),
{
    let ghost all = attributes.deep_view();
    let ghost before = slot.deep_view();
    let mut i: usize = 0;
    while i < attributes.len()
        invariant
            i <= attributes.len(),
            all == attributes.deep_view(),
            slot.deep_view() == overwritten(before, all.take(i as int), key),
        decreases attributes.len() - i,
    {
        proof {
            assert(all.take(i + 1).drop_last() =~= all.take(i as int));
            assert(all.take(i + 1).last() == attributes[i as int]@);
        }
        if spells(attributes[i].key.as_slice(), key) {
            *slot = Some(attributes[i].value.clone());
        }
        i += 1;
    }
    assert(all.take(attributes.len() as int) =~= all);
}

/// The value of the last attribute, whatever its name.
fn last_attribute(attributes: &Vec<Attribute>) -> (value: Option<String>)
    ensures
        value.deep_view() == any_value(attributes.deep_view()),
{
    if attributes.len() == 0 {
        None
    } else {
        Some(attributes[attributes.len() - 1].value.clone())
    }
}

impl Data {
    /// Takes from the attributes of an opening tag those that this record
    /// knows; a later attribute replaces an earlier one of the same name.
    pub fn read_attributes(&mut self, attributes: &Vec<Attribute>)
        ensures
            final(self)@ == old(self)@.with_attributes(attributes.deep_view()),
    {
        overwrite(&mut self.source, attributes, "source");
        overwrite(&mut self.production_center, attributes, "productioncenter");
    }
}

impl Forecast {
    /// Takes from the attributes of an opening tag those that this record
    /// knows; a later attribute replaces an earlier one of the same name.
    pub fn read_attributes(&mut self, attributes: &Vec<Attribute>)
        ensures
            final(self)@ == old(self)@.with_attributes(attributes.deep_view()),
    {
        overwrite(&mut self.domain, attributes, "domain");
    }
}

impl Area {
    /// Takes from the attributes of an opening tag those that this record
    /// knows; a later attribute replaces an earlier one of the same name.
    pub fn read_attributes(&mut self, attributes: &Vec<Attribute>)
        ensures
            final(self)@ == old(self)@.with_attributes(attributes.deep_view()),
    {
        overwrite(&mut self.id, attributes, "id");
        overwrite(&mut self.latitude, attributes, "latitude");
        overwrite(&mut self.longitude, attributes, "longitude");
        overwrite(&mut self.coordinate, attributes, "coordinate");
        overwrite(&mut self.typ, attributes, "type");
        overwrite(&mut self.region, attributes, "region");
        overwrite(&mut self.level, attributes, "level");
        overwrite(&mut self.description, attributes, "description");
        overwrite(&mut self.domain, attributes, "domain");
        overwrite(&mut self.tags, attributes, "tags");
    }
}

impl Parameter {
    /// Takes from the attributes of an opening tag those that this record
    /// knows; a later attribute replaces an earlier one of the same name.
    pub fn read_attributes(&mut self, attributes: &Vec<Attribute>)
        ensures
            final(self)@ == old(self)@.with_attributes(attributes.deep_view()),
    {
        overwrite(&mut self.id, attributes, "id");
        overwrite(&mut self.typ, attributes, "type");
        overwrite(&mut self.description, attributes, "description");
    }
}

impl TimeRange {
    /// Takes from the attributes of an opening tag those that this record
    /// knows; a later attribute replaces an earlier one of the same name.
    pub fn read_attributes(&mut self, attributes: &Vec<Attribute>)
        ensures
            final(self)@ == old(self)@.with_attributes(attributes.deep_view()),
    {
        overwrite(&mut self.h, attributes, "h");
        overwrite(&mut self.typ, attributes, "type");
        overwrite(&mut self.datetime, attributes, "datetime");
    }
}

impl Issue {
    /// Stores the text of one element of the time of issue; any other
    /// element leaves the record as it was.
    pub fn read_text(&mut self, element: Element, text: String)
        ensures
            final(self)@ == old(self)@.with_text(element, text@),
    {
        match element {
            Element::Timestamp => {
                self.timestamp = Some(text);
            },
            Element::Year => {
                self.year = Some(text);
            },
            Element::Month => {
                self.month = Some(text);
            },
            Element::Day => {
                self.day = Some(text);
            },
            Element::Hour => {
                self.hour = Some(text);
            },
            Element::Minute => {
                self.minute = Some(text);
            },
            Element::Second => {
                self.second = Some(text);
            },
            _ => {},
        }
    }
}

/// Builds a forecast record from the events of its document.
pub struct TreeBuilder {
    data: Data,
    forecast: Forecast,
    issue: Issue,
    area: Area,
    parameter: Parameter,
    time_range: TimeRange,
}

impl View for TreeBuilder {
    type V = BuilderView;

    closed spec fn view(&self) -> BuilderView {
        BuilderView {
            data: self.data@,
            forecast: self.forecast@,
            issue: self.issue@,
            area: self.area@,
            parameter: self.parameter@,
            time_range: self.time_range@,
        }
    }
}

impl TreeBuilder {
    /// A builder that has seen no event.
    pub fn new() -> (builder: Self)
        ensures
            builder@ == BuilderView::initial(),
    {
        TreeBuilder {
            data: Data::new(),
            forecast: Forecast::new(),
            issue: Issue::new(),
            area: Area::new(),
            parameter: Parameter::new(),
            time_range: TimeRange::new(),
        }
    }

    /// Takes an opening tag.
    fn open(&mut self, element: Element, attributes: &Vec<Attribute>)
        ensures
            final(self)@ == old(self)@.opened(element, attributes.deep_view()),
    {
        match element {
            Element::Data => {
                self.data.read_attributes(attributes);
            },
            Element::Forecast => {
                self.forecast.read_attributes(attributes);
            },
            Element::Area => {
                self.area.read_attributes(attributes);
            },
            Element::Parameter => {
                self.parameter.read_attributes(attributes);
            },
            Element::TimeRange => {
                self.time_range.read_attributes(attributes);
            },
            _ => {},
        }
    }

    /// Takes an element that holds text.
    fn fill(&mut self, element: Element, attributes: &Vec<Attribute>, text: String)
        ensures
            final(self)@ == old(self)@.filled(element, attributes.deep_view(), text@),
    {
        match element {
            Element::Name => {
                let name = Name { lang: last_attribute(attributes), text: Some(text) };
                self.area.names.push(name);
                assert(self.area.names.deep_view() =~= old(self).area.names.deep_view().push(name@));
            },
            Element::Value => {
                let value = Value { unit: last_attribute(attributes), value: Some(text) };
                self.time_range.values.push(value);
                assert(self.time_range.values.deep_view() =~= old(
                    self,
                ).time_range.values.deep_view().push(value@));
            },
            Element::Timestamp
            | Element::Year
            | Element::Month
            | Element::Day
            | Element::Hour
            | Element::Minute
            | Element::Second => {
                self.issue.read_text(element, text);
            },
            _ => {},
        }
    }

    /// Takes a closing tag.
    fn close(&mut self, element: Element)
        ensures
            final(self)@ == old(self)@.closed(element),
    {
        match element {
            Element::Forecast => {
                self.data.forecast = Some(self.forecast.clone());
            },
            Element::Issue => {
                self.forecast.issue = Some(self.issue.clone());
            },
            Element::Area => {
                let mut area = Area::new();
                std::mem::swap(&mut area, &mut self.area);
                self.forecast.areas.push(area);
                assert(self.forecast.areas.deep_view() =~= old(self).forecast.areas.deep_view().push(
                    area@,
                ));
            },
            Element::Parameter => {
                let mut parameter = Parameter::new();
                std::mem::swap(&mut parameter, &mut self.parameter);
                self.area.parameters.push(parameter);
                assert(self.area.parameters.deep_view() =~= old(
                    self,
                ).area.parameters.deep_view().push(parameter@));
            },
            Element::TimeRange => {
                let mut time_range = TimeRange::new();
                std::mem::swap(&mut time_range, &mut self.time_range);
                self.parameter.timeranges.push(time_range);
                assert(self.parameter.timeranges.deep_view() =~= old(
                    self,
                ).parameter.timeranges.deep_view().push(time_range@));
            },
            _ => {},
        }
    }

    /// Takes one event.
    pub fn observe(&mut self, event: Event)
        ensures
            final(self)@ == old(self)@.after(event@),
    {
        match event {
            Event::Open { element, attributes } => {
                self.open(element, &attributes);
            },
            Event::Text { element, attributes, text } => {
                self.fill(element, &attributes, text);
            },
            Event::Close { element } => {
                self.close(element);
            },
        }
    }

    /// The record as it stands, with what was stored in it so far.
    pub fn finish(self) -> (data: Data)
        ensures
            data@ == self@.data,
    {
        self.data
    }
}

/// Decodes a run of events that is already at hand.
pub fn build(events: Vec<Event>) -> (data: Data)
    ensures
        data@ == document(events.deep_view()),
{
    let ghost all = events.deep_view();
    let mut builder = TreeBuilder::new();
    for event in it: events
        invariant
            all == events.deep_view(),
            it.seq() == events@,
            builder@ == BuilderView::initial().run(all.take(it.index())),
    {
        proof {
            let n = it.index();
            assert(all.take(n + 1).drop_last() =~= all.take(n));
            assert(all.take(n + 1).last() == event@);
        }
        builder.observe(event);
    }
    assert(all.take(all.len() as int) =~= all);
    builder.finish()
}

/// What the decoder finds in a document from the event numbered `step` on,
/// with `budget` events still allowed: the events it hands to the builder,
/// in order, up to the end of the input or the first fault, and the byte
/// offset of that fault if there is one.
///
/// An opening tag of an element that holds text is read together with its
/// text; its attributes are decoded where the element has any that are read.
/// An opening tag of another element counts only where its attributes are
/// read. Every closing tag counts. Anything else is passed over: character
/// data between elements, self-closing tags, comments and the like.
pub open spec fn reads_from(input: Seq<char>, step: nat, budget: nat) -> (
    Seq<EventView>,
    Option<nat>,
)
    decreases budget,
{
    if budget == 0 {
        (Seq::empty(), None)
    } else {
        let left = (budget - 1) as nat;
        match event_at(input, false, step) {
            None => (Seq::empty(), Some(offset_at(input, false, step + 1))),
            Some(ReadView::Eof) => (Seq::empty(), None),
            Some(ReadView::Start { name, content }) => {
                let element = Element::named(name);
                if element.holds_text() {
                    let (text, after) = text_read(input, false, step + 1, name);
                    let attributes = if element.holds_attributes() {
                        attributes_of(content, name.len())
                    } else {
                        Some(Seq::empty())
                    };
                    match (text, attributes) {
                        (Some(text), Some(attributes)) => and_then(
                            EventView::Text { element, attributes, text },
                            reads_from(input, after, left),
                        ),
                        _ => (Seq::empty(), Some(offset_at(input, false, after))),
                    }
                } else if element.holds_attributes() {
                    match attributes_of(content, name.len()) {
                        Some(attributes) => and_then(
                            EventView::Open { element, attributes },
                            reads_from(input, step + 1, left),
                        ),
                        None => (Seq::empty(), Some(offset_at(input, false, step + 1))),
                    }
                } else {
                    reads_from(input, step + 1, left)
                }
            },
            Some(ReadView::End { name }) => and_then(
                EventView::Close { element: Element::named(name) },
                reads_from(input, step + 1, left),
            ),
            Some(_) => reads_from(input, step + 1, left),
        }
    }
}

/// What the decoder finds in a whole document, read untrimmed: the events for
/// the builder and the byte offset of the first fault, if there is one.
pub open spec fn forecast_reads(input: Seq<char>) -> (Seq<EventView>, Option<nat>) {
    reads_from(input, 0, event_bound(input))
}

/// Decodes a forecast document. Elements and attributes that the builder
/// does not know are passed over, text is kept as the document has it, and a
/// document that ends early yields what was stored by then. A fault of the
/// tokenizer fails the whole document and is reported with its byte offset.
pub fn parse_data<T: Text>(xml: T) -> (decoded: Result<Data, Error>)
    ensures
        match forecast_reads(xml.text()).1 {
            None => decoded matches Ok(data) && data@ == document(forecast_reads(xml.text()).0),
            Some(at) => decoded matches Err(Error::MalformedInput { position, .. }) && position
                == at,
        },
{
    let mut source = EventSource::open(xml.as_text(), false);
    let mut builder = TreeBuilder::new();
    let ghost input = xml.text();
    let ghost mut seen: Seq<EventView> = Seq::empty();
    loop
        invariant_except_break
            forecast_reads(input) == (
                seen + reads_from(input, source.step(), source.budget()).0,
                reads_from(input, source.step(), source.budget()).1,
            ),
        invariant
            input == xml.text(),
            source.input() == input,
            !source.trims(),
            builder@ == BuilderView::initial().run(seen),
        ensures
            forecast_reads(input) == (seen, None::<nat>),
        decreases source.budget(),
    {
        let ghost rest = reads_from(input, source.step(), source.budget());
        let read = match source.next() {
            Ok(read) => read,
            Err(e) => {
                return Err(e);
            },
        };
        match read {
            Read::Start { name, content } => {
                let element = Element::of(name.as_slice());
                if element.is_leaf() {
                    let text = match source.read_text(name.as_slice()) {
                        Ok(text) => text,
                        Err(e) => {
                            return Err(e);
                        },
                    };
                    let attributes = if element.has_attributes() {
                        match source.attributes(content.as_slice(), name.len()) {
                            Ok(attributes) => attributes,
                            Err(e) => {
                                return Err(e);
                            },
                        }
                    } else {
                        let none: Vec<Attribute> = Vec::new();
                        assert(none.deep_view() =~= Seq::empty());
                        none
                    };
                    let event = Event::Text { element, attributes, text };
                    proof {
                        let next = reads_from(input, source.step(), source.budget());
                        assert(seen.push(event@).drop_last() =~= seen);
                        assert(seen.push(event@) + next.0 =~= seen + rest.0);
                        seen = seen.push(event@);
                    }
                    builder.observe(event);
                } else if element.has_attributes() {
                    let attributes = match source.attributes(content.as_slice(), name.len()) {
                        Ok(attributes) => attributes,
                        Err(e) => {
                            return Err(e);
                        },
                    };
                    let event = Event::Open { element, attributes };
                    proof {
                        let next = reads_from(input, source.step(), source.budget());
                        assert(seen.push(event@).drop_last() =~= seen);
                        assert(seen.push(event@) + next.0 =~= seen + rest.0);
                        seen = seen.push(event@);
                    }
                    builder.observe(event);
                }
            },
            Read::End { name } => {
                let event = Event::Close { element: Element::of(name.as_slice()) };
                proof {
                    let next = reads_from(input, source.step(), source.budget());
                    assert(seen.push(event@).drop_last() =~= seen);
                    assert(seen.push(event@) + next.0 =~= seen + rest.0);
                    seen = seen.push(event@);
                }
                builder.observe(event);
            },
            Read::Eof => {
                assert(seen + rest.0 =~= seen);
                break ;
            },
            _ => {},
        }
    }
    Ok(builder.finish())
}

} // verus!
