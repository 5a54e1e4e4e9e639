//! What holds of the tag-tree builder on every run of events: a field keeps
//! the last value written to it, and a list keeps its members in the order
//! in which they closed.

use vstd::prelude::*;
use crate::cuaca::builder::{any_value, last_value, BuilderView, Element, EventView};
use crate::cuaca::{AreaView, NameView, ParameterView, TimeRangeView, ValueView};
use crate::text::spelled;
use crate::xml::AttributeView;

verus! {

/// The scalar fields of the records in progress, each named by its record
/// and its field.
pub enum Slot {
    DataSource,
    DataProductionCenter,
    ForecastDomain,
    AreaId,
    AreaLatitude,
    AreaLongitude,
    AreaCoordinate,
    AreaTyp,
    AreaRegion,
    AreaLevel,
    AreaDescription,
    AreaDomain,
    AreaTags,
    ParameterId,
    ParameterTyp,
    ParameterDescription,
    TimeRangeH,
    TimeRangeTyp,
    TimeRangeDatetime,
    IssueTimestamp,
    IssueYear,
    IssueMonth,
    IssueDay,
    IssueHour,
    IssueMinute,
    IssueSecond,
}

impl Slot {
    /// The element whose opening tag writes the field from an attribute, if
    /// the field is written so.
    pub open spec fn opened_by(self) -> Option<Element> {
        match self {
            Slot::DataSource => Some(Element::Data),
            Slot::DataProductionCenter => Some(Element::Data),
            Slot::ForecastDomain => Some(Element::Forecast),
            Slot::AreaId => Some(Element::Area),
            Slot::AreaLatitude => Some(Element::Area),
            Slot::AreaLongitude => Some(Element::Area),
            Slot::AreaCoordinate => Some(Element::Area),
            Slot::AreaTyp => Some(Element::Area),
            Slot::AreaRegion => Some(Element::Area),
            Slot::AreaLevel => Some(Element::Area),
            Slot::AreaDescription => Some(Element::Area),
            Slot::AreaDomain => Some(Element::Area),
            Slot::AreaTags => Some(Element::Area),
            Slot::ParameterId => Some(Element::Parameter),
            Slot::ParameterTyp => Some(Element::Parameter),
            Slot::ParameterDescription => Some(Element::Parameter),
            Slot::TimeRangeH => Some(Element::TimeRange),
            Slot::TimeRangeTyp => Some(Element::TimeRange),
            Slot::TimeRangeDatetime => Some(Element::TimeRange),
            Slot::IssueTimestamp => None,
            Slot::IssueYear => None,
            Slot::IssueMonth => None,
            Slot::IssueDay => None,
            Slot::IssueHour => None,
            Slot::IssueMinute => None,
            Slot::IssueSecond => None,
        }
    }

    /// The spelling of the attribute that writes the field. Meaningful only
    /// where [`Slot::opened_by`] names an element.
    pub open spec fn key(self) -> &'static str {
        match self {
            Slot::DataSource => "source",
            Slot::DataProductionCenter => "productioncenter",
            Slot::ForecastDomain => "domain",
            Slot::AreaId => "id",
            Slot::AreaLatitude => "latitude",
            Slot::AreaLongitude => "longitude",
            Slot::AreaCoordinate => "coordinate",
            Slot::AreaTyp => "type",
            Slot::AreaRegion => "region",
            Slot::AreaLevel => "level",
            Slot::AreaDescription => "description",
            Slot::AreaDomain => "domain",
            Slot::AreaTags => "tags",
            Slot::ParameterId => "id",
            Slot::ParameterTyp => "type",
            Slot::ParameterDescription => "description",
            Slot::TimeRangeH => "h",
            Slot::TimeRangeTyp => "type",
            Slot::TimeRangeDatetime => "datetime",
            Slot::IssueTimestamp => "",
            Slot::IssueYear => "",
            Slot::IssueMonth => "",
            Slot::IssueDay => "",
            Slot::IssueHour => "",
            Slot::IssueMinute => "",
            Slot::IssueSecond => "",
        }
    }

    /// The element whose text writes the field, if the field is written so.
    pub open spec fn filled_by(self) -> Option<Element> {
        match self {
            Slot::DataSource => None,
            Slot::DataProductionCenter => None,
            Slot::ForecastDomain => None,
            Slot::AreaId => None,
            Slot::AreaLatitude => None,
            Slot::AreaLongitude => None,
            Slot::AreaCoordinate => None,
            Slot::AreaTyp => None,
            Slot::AreaRegion => None,
            Slot::AreaLevel => None,
            Slot::AreaDescription => None,
            Slot::AreaDomain => None,
            Slot::AreaTags => None,
            Slot::ParameterId => None,
            Slot::ParameterTyp => None,
            Slot::ParameterDescription => None,
            Slot::TimeRangeH => None,
            Slot::TimeRangeTyp => None,
            Slot::TimeRangeDatetime => None,
            Slot::IssueTimestamp => Some(Element::Timestamp),
            Slot::IssueYear => Some(Element::Year),
            Slot::IssueMonth => Some(Element::Month),
            Slot::IssueDay => Some(Element::Day),
            Slot::IssueHour => Some(Element::Hour),
            Slot::IssueMinute => Some(Element::Minute),
            Slot::IssueSecond => Some(Element::Second),
        }
    }

    /// The element whose closing tag replaces the field's record by a fresh
    /// one, if any does.
    pub open spec fn cleared_by(self) -> Option<Element> {
        match self {
            Slot::DataSource => None,
            Slot::DataProductionCenter => None,
            Slot::ForecastDomain => None,
            Slot::AreaId => Some(Element::Area),
            Slot::AreaLatitude => Some(Element::Area),
            Slot::AreaLongitude => Some(Element::Area),
            Slot::AreaCoordinate => Some(Element::Area),
            Slot::AreaTyp => Some(Element::Area),
            Slot::AreaRegion => Some(Element::Area),
            Slot::AreaLevel => Some(Element::Area),
            Slot::AreaDescription => Some(Element::Area),
            Slot::AreaDomain => Some(Element::Area),
            Slot::AreaTags => Some(Element::Area),
            Slot::ParameterId => Some(Element::Parameter),
            Slot::ParameterTyp => Some(Element::Parameter),
            Slot::ParameterDescription => Some(Element::Parameter),
            Slot::TimeRangeH => Some(Element::TimeRange),
            Slot::TimeRangeTyp => Some(Element::TimeRange),
            Slot::TimeRangeDatetime => Some(Element::TimeRange),
            Slot::IssueTimestamp => None,
            Slot::IssueYear => None,
            Slot::IssueMonth => None,
            Slot::IssueDay => None,
            Slot::IssueHour => None,
            Slot::IssueMinute => None,
            Slot::IssueSecond => None,
        }
    }
}

impl BuilderView {
    /// What a field of the records in progress holds.
    pub open spec fn slot(self, slot: Slot) -> Option<Seq<char>> {
        match slot {
            Slot::DataSource => self.data.source,
            Slot::DataProductionCenter => self.data.production_center,
            Slot::ForecastDomain => self.forecast.domain,
            Slot::AreaId => self.area.id,
            Slot::AreaLatitude => self.area.latitude,
            Slot::AreaLongitude => self.area.longitude,
            Slot::AreaCoordinate => self.area.coordinate,
            Slot::AreaTyp => self.area.typ,
            Slot::AreaRegion => self.area.region,
            Slot::AreaLevel => self.area.level,
            Slot::AreaDescription => self.area.description,
            Slot::AreaDomain => self.area.domain,
            Slot::AreaTags => self.area.tags,
            Slot::ParameterId => self.parameter.id,
            Slot::ParameterTyp => self.parameter.typ,
            Slot::ParameterDescription => self.parameter.description,
            Slot::TimeRangeH => self.time_range.h,
            Slot::TimeRangeTyp => self.time_range.typ,
            Slot::TimeRangeDatetime => self.time_range.datetime,
            Slot::IssueTimestamp => self.issue.timestamp,
            Slot::IssueYear => self.issue.year,
            Slot::IssueMonth => self.issue.month,
            Slot::IssueDay => self.issue.day,
            Slot::IssueHour => self.issue.hour,
            Slot::IssueMinute => self.issue.minute,
            Slot::IssueSecond => self.issue.second,
        }
    }
}

impl EventView {
    /// The value that this event writes to a field, if it writes one.
    pub open spec fn written(self, slot: Slot) -> Option<Seq<char>> {
        match self {
            EventView::Open { element, attributes } => if slot.opened_by() == Some(element) {
                last_value(attributes, spelled(slot.key()))
            } else {
                None
            },
            EventView::Text { element, attributes, text } => if slot.filled_by() == Some(element) {
                Some(text)
            } else {
                None
            },
            EventView::Close { element } => None,
        }
    }

    /// Whether this event replaces the field's record by a fresh one.
    pub open spec fn clears(self, slot: Slot) -> bool {
        self matches EventView::Close { element } && slot.cleared_by() == Some(element)
    }
}

/// One event changes a field in one of three ways: it writes a value, which
/// replaces whatever the field held; or it starts the field's record afresh,
/// which leaves the field unset; or it leaves the field as it was.
pub proof fn lemma_event_on_field(state: BuilderView, event: EventView, slot: Slot)
    ensures
        state.after(event).slot(slot) == match event.written(slot) {
            Some(value) => Some(value),
            None => if event.clears(slot) {
                None
            } else {
                state.slot(slot)
            },
        },
{
}

/// Last write wins. If a run of events writes a field at position `at`, and
/// no later event of the run writes the field or starts its record afresh,
/// then after the run the field holds the value written at `at`, whatever was
/// written to it before.
pub proof fn lemma_last_write_wins(state: BuilderView, events: Seq<EventView>, at: int, slot: Slot)
    requires
        0 <= at < events.len(),
        events[at].written(slot) is Some,
        forall|k: int|
            at < k < events.len() ==> (#[trigger] events[k]).written(slot) is None
                && !events[k].clears(slot),
    ensures
        state.run(events).slot(slot) == events[at].written(slot),
    decreases events.len(),
{
    let before = state.run(events.drop_last());
    lemma_event_on_field(before, events.last(), slot);
    if at < events.len() - 1 {
        assert(forall|k: int|
            at < k < events.drop_last().len() ==> (#[trigger] events.drop_last()[k]) == events[k]);
        lemma_last_write_wins(state, events.drop_last(), at, slot);
    }
}

/// Among the attributes of one opening tag, the last one of a given name
/// gives the value.
pub proof fn lemma_last_attribute_wins(attributes: Seq<AttributeView>, at: int, key: Seq<u8>)
    requires
        0 <= at < attributes.len(),
        attributes[at].key == key,
        forall|k: int| at < k < attributes.len() ==> (#[trigger] attributes[k]).key != key,
    ensures
        last_value(attributes, key) == Some(attributes[at].value),
    decreases attributes.len(),
{
    if at < attributes.len() - 1 {
        assert(forall|k: int|
            at < k < attributes.drop_last().len() ==> (#[trigger] attributes.drop_last()[k])
                == attributes[k]);
        lemma_last_attribute_wins(attributes.drop_last(), at, key);
    }
}

/// The lists of the records in progress.
pub enum Listing {
    /// The locations of the forecast.
    Areas,
    /// The names of the location.
    Names,
    /// The quantities of the location.
    Parameters,
    /// The intervals of the quantity.
    TimeRanges,
    /// The measurements of the interval.
    Values,
}

/// A member of one of the lists.
pub enum Node {
    Area(AreaView),
    Name(NameView),
    Parameter(ParameterView),
    TimeRange(TimeRangeView),
    Value(ValueView),
}

impl BuilderView {
    /// The members of one list of the records in progress, in order.
    pub open spec fn entries(self, listing: Listing) -> Seq<Node> {
        match listing {
            Listing::Areas => Seq::new(
                self.forecast.areas.len(),
                |i: int| Node::Area(self.forecast.areas[i]),
            ),
            Listing::Names => Seq::new(self.area.names.len(), |i: int| Node::Name(self.area.names[i])),
            Listing::Parameters => Seq::new(
                self.area.parameters.len(),
                |i: int| Node::Parameter(self.area.parameters[i]),
            ),
            Listing::TimeRanges => Seq::new(
                self.parameter.timeranges.len(),
                |i: int| Node::TimeRange(self.parameter.timeranges[i]),
            ),
            Listing::Values => Seq::new(
                self.time_range.values.len(),
                |i: int| Node::Value(self.time_range.values[i]),
            ),
        }
    }
}

impl EventView {
    /// Whether this event completes a member of the list: the closing tag of
    /// a location, a quantity or an interval, or a name or a measurement with
    /// its text.
    pub open spec fn appends(self, listing: Listing) -> bool {
        match listing {
            Listing::Areas => self matches EventView::Close { element } && element == Element::Area,
            Listing::Names => self matches EventView::Text { element, .. } && element
                == Element::Name,
            Listing::Parameters => self matches EventView::Close { element } && element
                == Element::Parameter,
            Listing::TimeRanges => self matches EventView::Close { element } && element
                == Element::TimeRange,
            Listing::Values => self matches EventView::Text { element, .. } && element
                == Element::Value,
        }
    }

    /// Whether this event closes the parent of the list, which starts the
    /// list afresh. The forecast is never started afresh.
    pub open spec fn empties(self, listing: Listing) -> bool {
        match listing {
            Listing::Areas => false,
            Listing::Names | Listing::Parameters => self matches EventView::Close { element }
                && element == Element::Area,
            Listing::TimeRanges => self matches EventView::Close { element } && element
                == Element::Parameter,
            Listing::Values => self matches EventView::Close { element } && element
                == Element::TimeRange,
        }
    }

    /// The member that this event completes, given the state it arrives in:
    /// the record in progress as it stands, or the name or measurement that
    /// the event itself holds.
    pub open spec fn appended(self, before: BuilderView, listing: Listing) -> Node {
        match listing {
            Listing::Areas => Node::Area(before.area),
            Listing::Parameters => Node::Parameter(before.parameter),
            Listing::TimeRanges => Node::TimeRange(before.time_range),
            Listing::Names => match self {
                EventView::Text { attributes, text, .. } => Node::Name(
                    NameView { lang: any_value(attributes), text: Some(text) },
                ),
                _ => Node::Name(NameView::empty()),
            },
            Listing::Values => match self {
                EventView::Text { attributes, text, .. } => Node::Value(
                    ValueView { unit: any_value(attributes), value: Some(text) },
                ),
                _ => Node::Value(ValueView::empty()),
            },
        }
    }
}

/// One event changes a list in one of three ways: it appends the member that
/// it completes, behind the members already there; or it closes the list's
/// parent, which leaves the list empty; or it leaves the list as it was.
pub proof fn lemma_event_on_list(state: BuilderView, event: EventView, listing: Listing)
    ensures
        state.after(event).entries(listing) == if event.appends(listing) {
            state.entries(listing).push(event.appended(state, listing))
        } else if event.empties(listing) {
            Seq::empty()
        } else {
            state.entries(listing)
        },
{
    let after = state.after(event);
    if event.appends(listing) {
        assert(after.entries(listing) =~= state.entries(listing).push(
            event.appended(state, listing),
        ));
    } else if event.empties(listing) {
        assert(after.entries(listing) =~= Seq::empty());
    } else {
        assert(after.entries(listing) =~= state.entries(listing));
    }
}

/// The members that a run of events completes for one list, in the order of
/// the events, each as it stood when its event came.
pub open spec fn completed(state: BuilderView, events: Seq<EventView>, listing: Listing) -> Seq<Node>
    decreases events.len(),
{
    if events.len() == 0 {
        Seq::empty()
    } else {
        let earlier = completed(state, events.drop_last(), listing);
        if events.last().appends(listing) {
            earlier.push(events.last().appended(state.run(events.drop_last()), listing))
        } else {
            earlier
        }
    }
}

/// How many events of a run complete a member of one list.
pub open spec fn completions(events: Seq<EventView>, listing: Listing) -> nat
    decreases events.len(),
{
    if events.len() == 0 {
        0
    } else if events.last().appends(listing) {
        completions(events.drop_last(), listing) + 1
    } else {
        completions(events.drop_last(), listing)
    }
}

/// Order preservation. Over a run of events that does not close the list's
/// parent, the list grows by exactly one member for each sibling that the
/// run completes: the members it held stay in front, and the new ones follow
/// in document order.
pub proof fn lemma_siblings_in_order(state: BuilderView, events: Seq<EventView>, listing: Listing)
    requires
        forall|k: int| 0 <= k < events.len() ==> !(#[trigger] events[k]).empties(listing),
    ensures
        state.run(events).entries(listing) == state.entries(listing) + completed(
            state,
            events,
            listing,
        ),
        completed(state, events, listing).len() == completions(events, listing),
        state.run(events).entries(listing).len() == state.entries(listing).len() + completions(
            events,
            listing,
        ),
    decreases events.len(),
{
    if events.len() == 0 {
        assert(state.entries(listing) + Seq::<Node>::empty() =~= state.entries(listing));
    } else {
        let earlier = events.drop_last();
        assert(forall|k: int| 0 <= k < earlier.len() ==> (#[trigger] earlier[k]) == events[k]);
        lemma_siblings_in_order(state, earlier, listing);
        lemma_event_on_list(state.run(earlier), events.last(), listing);
        assert(state.run(events).entries(listing) =~= state.entries(listing) + completed(
            state,
            events,
            listing,
        ));
    }
}

} // verus!
