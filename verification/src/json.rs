//! Record projection: every decoded record as a generic JSON value, with
//! each field under its own name, a list as an array, and `null` where a
//! field was never set.

use vstd::prelude::*;
use crate::cuaca::{
    Area, AreaView, Data, DataView, Forecast, ForecastView, Issue, IssueView, Name, NameView,
    Parameter, ParameterView, TimeRange, TimeRangeView, Value, ValueView,
};
use crate::gempa::autogempa::Autogempa;
use crate::gempa::{Gempa, GempaView};
use crate::grouper::{flatten, flattened, group, grouped, marks_read, Pair, PairView};
use crate::text::{str_eq, Text};

verus! {

/// A JSON value of the shapes that records project to. An object keeps its
/// members in the order in which they were put.
#[derive(Debug, PartialEq, Eq)]
pub enum Json {
    Null,
    Text(String),
    Array(Vec<Json>),
    Object(Vec<Member>),
}

/// One member of an object: a name and the value under it.
#[derive(Debug, PartialEq, Eq)]
pub struct Member {
    pub key: String,
    pub value: Json,
}

/// A [`Json`] as plain values.
pub enum JsonView {
    Null,
    Text(Seq<char>),
    Array(Seq<JsonView>),
    Object(Seq<MemberView>),
}

/// A [`Member`] as plain values.
pub struct MemberView {
    pub key: Seq<char>,
    pub value: JsonView,
}

/// The member that holds `value` under the name `key`.
pub open spec fn field(key: &str, value: JsonView) -> MemberView {
    MemberView { key: key@, value }
}

impl View for Json {
    type V = JsonView;

    open spec fn view(&self) -> JsonView
        decreases self,
    {
        match self {
            Json::Null => JsonView::Null,
            Json::Text(text) => JsonView::Text(text@),
            Json::Array(items) => JsonView::Array(
                Seq::new(
                    items.len() as nat,
                    |i: int|
                        if 0 <= i < items.len() {
                            items[i]@
                        } else {
                            JsonView::Null
                        },
                ),
            ),
            Json::Object(members) => JsonView::Object(
                Seq::new(
                    members.len() as nat,
                    |i: int|
                        if 0 <= i < members.len() {
                            MemberView { key: members[i].key@, value: members[i].value@ }
                        } else {
                            MemberView { key: Seq::empty(), value: JsonView::Null }
                        },
                ),
            ),
        }
    }
}

/// The items of an array as plain values.
pub open spec fn items_of(items: Seq<Json>) -> Seq<JsonView> {
    Seq::new(items.len(), |i: int| items[i]@)
}

/// The members of an object as plain values.
pub open spec fn members_of(members: Seq<Member>) -> Seq<MemberView> {
    Seq::new(members.len(), |i: int| MemberView { key: members[i].key@, value: members[i].value@ })
}

/// The value of the first member named `key`, if there is one.
pub open spec fn member_of(members: Seq<MemberView>, key: Seq<char>) -> Option<JsonView>
    decreases members.len(),
{
    if members.len() == 0 {
        None
    } else if members[0].key == key {
        Some(members[0].value)
    } else {
        member_of(members.drop_first(), key)
    }
}

impl JsonView {
    /// The value of the member named `key`, if this is an object that has
    /// one.
    pub open spec fn member(self, key: Seq<char>) -> Option<JsonView> {
        match self {
            JsonView::Object(members) => member_of(members, key),
            _ => None,
        }
    }
}

/// How an optional text is projected: the text, or `null` where it was never
/// set.
pub open spec fn optional(text: Option<Seq<char>>) -> JsonView {
    match text {
        Some(text) => JsonView::Text(text),
        None => JsonView::Null,
    }
}

/// An array of the given items.
fn array(items: Vec<Json>) -> (json: Json)
    ensures
        json@ == JsonView::Array(items_of(items@)),
{
    let json = Json::Array(items);
    assert(json@->Array_0 =~= items_of(items@));
    json
}

/// An object of the given members.
fn object(members: Vec<Member>) -> (json: Json)
    ensures
        json@ == JsonView::Object(members_of(members@)),
{
    let json = Json::Object(members);
    proof {
        lemma_object_view(members);
    }
    json
}

/// The view of an object is the view of its members.
proof fn lemma_object_view(members: Vec<Member>)
    ensures
        Json::Object(members)@ == JsonView::Object(members_of(members@)),
{
    let viewed = Json::Object(members)@->Object_0;
    assert(viewed.len() == members@.len());
    assert forall|i: int| 0 <= i < viewed.len() implies viewed[i] == members_of(members@)[i] by {
        assert(viewed[i] == MemberView { key: members@[i].key@, value: members@[i].value@ });
    }
    assert(viewed =~= members_of(members@));
}

/// Puts one more member behind those already there.
fn put(members: &mut Vec<Member>, key: &str, value: Json)
    ensures
        members_of(final(members)@) == members_of(old(members)@).push(field(key, value@)),
{
    members.push(Member { key: key.to_owned(), value });
    assert(members_of(members@) =~= members_of(old(members)@).push(field(key, value@)));
}

/// Projects an optional text.
fn project_text(text: &Option<String>) -> (json: Json)
    ensures
        json@ == optional(text.deep_view()),
{
    match text {
        Some(text) => Json::Text(text.clone()),
        None => Json::Null,
    }
}

impl Json {
    /// The value of the first member named `key`, if this is an object that
    /// has one.
    pub fn get(&self, key: &str) -> (found: Option<&Json>)
        ensures
            match found {
                Some(value) => self@.member(key@) == Some(value@),
                None => self@.member(key@) is None,
            },
    {
        match self {
            Json::Object(members) => {
                proof {
                    lemma_object_view(*members);
                    assert(members_of(members@).skip(0) =~= members_of(members@));
                }
                let mut i: usize = 0;
                while i < members.len()
                    invariant
                        i <= members.len(),
                        self@ == JsonView::Object(members_of(members@)),
                        member_of(members_of(members@), key@) == member_of(
                            members_of(members@).skip(i as int),
                            key@,
                        ),
                    decreases members.len() - i,
                {
                    proof {
                        let rest = members_of(members@).skip(i as int);
                        assert(rest.drop_first() =~= members_of(members@).skip(i + 1));
                        assert(rest[0] == members_of(members@)[i as int]);
                    }
                    if str_eq(members[i].key.as_str(), key) {
                        return Some(&members[i].value);
                    }
                    i += 1;
                }
                None
            },
            _ => None,
        }
    }
}

impl ValueView {
    /// This record as a JSON object: one member for each field, under the
    /// name that the data model gives the field and in the order of the fields.
    pub open spec fn projection(self) -> JsonView {
        JsonView::Object(
            seq![
                field("unit", optional(self.unit)),
                field("text", optional(self.value)),
            ],
        )
    }
}

impl Value {
    /// This record as a JSON value.
    pub fn project(&self) -> (json: Json)
        ensures
            json@ == self@.projection(),
    {
        let mut members: Vec<Member> = Vec::new();
        assert(members_of(members@) =~= Seq::empty());
        put(&mut members, "unit", project_text(&self.unit));
        put(&mut members, "text", project_text(&self.value));
        let json = object(members);
        assert(json@->Object_0 =~= self@.projection()->Object_0);
        json
    }
}

/// Every field of a projected `Value` is found under its own name, and holds
/// `null` exactly where the field was never set.
pub proof fn lemma_value_members(record: ValueView)
    ensures
        record.projection().member("unit"@) == Some(optional(record.unit)),
        record.projection().member("text"@) == Some(optional(record.value)),
{
    reveal_with_fuel(member_of, 3);
    reveal_strlit("unit");
    assert(initials("unit"@) == (4nat, 'u', 'n'));
    reveal_strlit("text");
    assert(initials("text"@) == (4nat, 't', 'e'));
}

impl TimeRangeView {
    /// The projected members of `values`, in order.
    pub open spec fn projected_values(self) -> Seq<JsonView> {
        Seq::new(self.values.len(), |i: int| self.values[i].projection())
    }

    /// This record as a JSON object: one member for each field, under the
    /// name that the data model gives the field and in the order of the fields.
    pub open spec fn projection(self) -> JsonView {
        JsonView::Object(
            seq![
                field("kind", optional(self.typ)),
                field("hourOffset", optional(self.h)),
                field("datetime", optional(self.datetime)),
                field("values", JsonView::Array(self.projected_values())),
            ],
        )
    }
}

impl TimeRange {
    /// This record as a JSON value.
    pub fn project(&self) -> (json: Json)
        ensures
            json@ == self@.projection(),
    {
        let mut members: Vec<Member> = Vec::new();
        assert(members_of(members@) =~= Seq::empty());
        put(&mut members, "kind", project_text(&self.typ));
        put(&mut members, "hourOffset", project_text(&self.h));
        put(&mut members, "datetime", project_text(&self.datetime));
        let mut values: Vec<Json> = Vec::new();
        let mut i: usize = 0;
        while i < self.values.len()
            invariant
                i <= self.values.len(),
                items_of(values@) =~= self@.projected_values().take(i as int),
            decreases self.values.len() - i,
        {
            let ghost before = items_of(values@);
            let item = self.values[i].project();
            values.push(item);
            proof {
                assert(items_of(values@) =~= before.push(item@));
                assert(self@.projected_values()[i as int] == self.values[i as int]@.projection());
                assert(self@.projected_values().take(i + 1) =~= self@.projected_values().take(
                    i as int,
                ).push(item@));
            }
            i += 1;
        }
        assert(self@.projected_values().take(i as int) =~= self@.projected_values());
        put(&mut members, "values", array(values));
        let json = object(members);
        assert(json@->Object_0 =~= self@.projection()->Object_0);
        json
    }
}

/// Every field of a projected `TimeRange` is found under its own name, and holds
/// `null` exactly where the field was never set.
pub proof fn lemma_timerange_members(record: TimeRangeView)
    ensures
        record.projection().member("kind"@) == Some(optional(record.typ)),
        record.projection().member("hourOffset"@) == Some(optional(record.h)),
        record.projection().member("datetime"@) == Some(optional(record.datetime)),
        record.projection().member("values"@) == Some(JsonView::Array(record.projected_values())),
{
    reveal_with_fuel(member_of, 5);
    reveal_strlit("kind");
    assert(initials("kind"@) == (4nat, 'k', 'i'));
    reveal_strlit("hourOffset");
    assert(initials("hourOffset"@) == (10nat, 'h', 'o'));
    reveal_strlit("datetime");
    assert(initials("datetime"@) == (8nat, 'd', 'a'));
    reveal_strlit("values");
    assert(initials("values"@) == (6nat, 'v', 'a'));
}

impl ParameterView {
    /// The projected members of `timeranges`, in order.
    pub open spec fn projected_timeranges(self) -> Seq<JsonView> {
        Seq::new(self.timeranges.len(), |i: int| self.timeranges[i].projection())
    }

    /// This record as a JSON object: one member for each field, under the
    /// name that the data model gives the field and in the order of the fields.
    pub open spec fn projection(self) -> JsonView {
        JsonView::Object(
            seq![
                field("id", optional(self.id)),
                field("description", optional(self.description)),
                field("kind", optional(self.typ)),
                field("timeRanges", JsonView::Array(self.projected_timeranges())),
            ],
        )
    }
}

impl Parameter {
    /// This record as a JSON value.
    pub fn project(&self) -> (json: Json)
        ensures
            json@ == self@.projection(),
    {
        let mut members: Vec<Member> = Vec::new();
        assert(members_of(members@) =~= Seq::empty());
        put(&mut members, "id", project_text(&self.id));
        put(&mut members, "description", project_text(&self.description));
        put(&mut members, "kind", project_text(&self.typ));
        let mut timeranges: Vec<Json> = Vec::new();
        let mut i: usize = 0;
        while i < self.timeranges.len()
            invariant
                i <= self.timeranges.len(),
                items_of(timeranges@) =~= self@.projected_timeranges().take(i as int),
            decreases self.timeranges.len() - i,
        {
            let ghost before = items_of(timeranges@);
            let item = self.timeranges[i].project();
            timeranges.push(item);
            proof {
                assert(items_of(timeranges@) =~= before.push(item@));
                assert(self@.projected_timeranges()[i as int] == self.timeranges[i as int]@.projection());
                assert(self@.projected_timeranges().take(i + 1) =~= self@.projected_timeranges().take(
                    i as int,
                ).push(item@));
            }
            i += 1;
        }
        assert(self@.projected_timeranges().take(i as int) =~= self@.projected_timeranges());
        put(&mut members, "timeRanges", array(timeranges));
        let json = object(members);
        assert(json@->Object_0 =~= self@.projection()->Object_0);
        json
    }
}

/// Every field of a projected `Parameter` is found under its own name, and holds
/// `null` exactly where the field was never set.
pub proof fn lemma_parameter_members(record: ParameterView)
    ensures
        record.projection().member("id"@) == Some(optional(record.id)),
        record.projection().member("description"@) == Some(optional(record.description)),
        record.projection().member("kind"@) == Some(optional(record.typ)),
        record.projection().member("timeRanges"@) == Some(JsonView::Array(record.projected_timeranges())),
{
    reveal_with_fuel(member_of, 5);
    reveal_strlit("id");
    assert(initials("id"@) == (2nat, 'i', 'd'));
    reveal_strlit("description");
    assert(initials("description"@) == (11nat, 'd', 'e'));
    reveal_strlit("kind");
    assert(initials("kind"@) == (4nat, 'k', 'i'));
    reveal_strlit("timeRanges");
    assert(initials("timeRanges"@) == (10nat, 't', 'i'));
}

impl NameView {
    /// This record as a JSON object: one member for each field, under the
    /// name that the data model gives the field and in the order of the fields.
    pub open spec fn projection(self) -> JsonView {
        JsonView::Object(
            seq![
                field("language", optional(self.lang)),
                field("text", optional(self.text)),
            ],
        )
    }
}

impl Name {
    /// This record as a JSON value.
    pub fn project(&self) -> (json: Json)
        ensures
            json@ == self@.projection(),
    {
        let mut members: Vec<Member> = Vec::new();
        assert(members_of(members@) =~= Seq::empty());
        put(&mut members, "language", project_text(&self.lang));
        put(&mut members, "text", project_text(&self.text));
        let json = object(members);
        assert(json@->Object_0 =~= self@.projection()->Object_0);
        json
    }
}

/// Every field of a projected `Name` is found under its own name, and holds
/// `null` exactly where the field was never set.
pub proof fn lemma_name_members(record: NameView)
    ensures
        record.projection().member("language"@) == Some(optional(record.lang)),
        record.projection().member("text"@) == Some(optional(record.text)),
{
    reveal_with_fuel(member_of, 3);
    reveal_strlit("language");
    assert(initials("language"@) == (8nat, 'l', 'a'));
    reveal_strlit("text");
    assert(initials("text"@) == (4nat, 't', 'e'));
}

impl AreaView {
    /// The projected members of `names`, in order.
    pub open spec fn projected_names(self) -> Seq<JsonView> {
        Seq::new(self.names.len(), |i: int| self.names[i].projection())
    }

    /// The projected members of `parameters`, in order.
    pub open spec fn projected_parameters(self) -> Seq<JsonView> {
        Seq::new(self.parameters.len(), |i: int| self.parameters[i].projection())
    }

    /// This record as a JSON object: one member for each field, under the
    /// name that the data model gives the field and in the order of the fields.
    pub open spec fn projection(self) -> JsonView {
        JsonView::Object(
            seq![
                field("id", optional(self.id)),
                field("latitude", optional(self.latitude)),
                field("longitude", optional(self.longitude)),
                field("coordinate", optional(self.coordinate)),
                field("kind", optional(self.typ)),
                field("region", optional(self.region)),
                field("level", optional(self.level)),
                field("description", optional(self.description)),
                field("domain", optional(self.domain)),
                field("tags", optional(self.tags)),
                field("names", JsonView::Array(self.projected_names())),
                field("parameters", JsonView::Array(self.projected_parameters())),
            ],
        )
    }
}

impl Area {
    /// This record as a JSON value.
    pub fn project(&self) -> (json: Json)
        ensures
            json@ == self@.projection(),
    {
        let mut members: Vec<Member> = Vec::new();
        assert(members_of(members@) =~= Seq::empty());
        put(&mut members, "id", project_text(&self.id));
        put(&mut members, "latitude", project_text(&self.latitude));
        put(&mut members, "longitude", project_text(&self.longitude));
        put(&mut members, "coordinate", project_text(&self.coordinate));
        put(&mut members, "kind", project_text(&self.typ));
        put(&mut members, "region", project_text(&self.region));
        put(&mut members, "level", project_text(&self.level));
        put(&mut members, "description", project_text(&self.description));
        put(&mut members, "domain", project_text(&self.domain));
        put(&mut members, "tags", project_text(&self.tags));
        let mut names: Vec<Json> = Vec::new();
        let mut i: usize = 0;
        while i < self.names.len()
            invariant
                i <= self.names.len(),
                items_of(names@) =~= self@.projected_names().take(i as int),
            decreases self.names.len() - i,
        {
            let ghost before = items_of(names@);
            let item = self.names[i].project();
            names.push(item);
            proof {
                assert(items_of(names@) =~= before.push(item@));
                assert(self@.projected_names()[i as int] == self.names[i as int]@.projection());
                assert(self@.projected_names().take(i + 1) =~= self@.projected_names().take(
                    i as int,
                ).push(item@));
            }
            i += 1;
        }
        assert(self@.projected_names().take(i as int) =~= self@.projected_names());
        put(&mut members, "names", array(names));
        let mut parameters: Vec<Json> = Vec::new();
        let mut i: usize = 0;
        while i < self.parameters.len()
            invariant
                i <= self.parameters.len(),
                items_of(parameters@) =~= self@.projected_parameters().take(i as int),
            decreases self.parameters.len() - i,
        {
            let ghost before = items_of(parameters@);
            let item = self.parameters[i].project();
            parameters.push(item);
            proof {
                assert(items_of(parameters@) =~= before.push(item@));
                assert(self@.projected_parameters()[i as int] == self.parameters[i as int]@.projection());
                assert(self@.projected_parameters().take(i + 1) =~= self@.projected_parameters().take(
                    i as int,
                ).push(item@));
            }
            i += 1;
        }
        assert(self@.projected_parameters().take(i as int) =~= self@.projected_parameters());
        put(&mut members, "parameters", array(parameters));
        let json = object(members);
        assert(json@->Object_0 =~= self@.projection()->Object_0);
        json
    }
}

/// Every field of a projected `Area` is found under its own name, and holds
/// `null` exactly where the field was never set.
pub proof fn lemma_area_members(record: AreaView)
    ensures
        record.projection().member("id"@) == Some(optional(record.id)),
        record.projection().member("latitude"@) == Some(optional(record.latitude)),
        record.projection().member("longitude"@) == Some(optional(record.longitude)),
        record.projection().member("coordinate"@) == Some(optional(record.coordinate)),
        record.projection().member("kind"@) == Some(optional(record.typ)),
        record.projection().member("region"@) == Some(optional(record.region)),
        record.projection().member("level"@) == Some(optional(record.level)),
        record.projection().member("description"@) == Some(optional(record.description)),
        record.projection().member("domain"@) == Some(optional(record.domain)),
        record.projection().member("tags"@) == Some(optional(record.tags)),
        record.projection().member("names"@) == Some(JsonView::Array(record.projected_names())),
        record.projection().member("parameters"@) == Some(JsonView::Array(record.projected_parameters())),
{
    reveal_with_fuel(member_of, 13);
    reveal_strlit("id");
    assert(initials("id"@) == (2nat, 'i', 'd'));
    reveal_strlit("latitude");
    assert(initials("latitude"@) == (8nat, 'l', 'a'));
    reveal_strlit("longitude");
    assert(initials("longitude"@) == (9nat, 'l', 'o'));
    reveal_strlit("coordinate");
    assert(initials("coordinate"@) == (10nat, 'c', 'o'));
    reveal_strlit("kind");
    assert(initials("kind"@) == (4nat, 'k', 'i'));
    reveal_strlit("region");
    assert(initials("region"@) == (6nat, 'r', 'e'));
    reveal_strlit("level");
    assert(initials("level"@) == (5nat, 'l', 'e'));
    reveal_strlit("description");
    assert(initials("description"@) == (11nat, 'd', 'e'));
    reveal_strlit("domain");
    assert(initials("domain"@) == (6nat, 'd', 'o'));
    reveal_strlit("tags");
    assert(initials("tags"@) == (4nat, 't', 'a'));
    reveal_strlit("names");
    assert(initials("names"@) == (5nat, 'n', 'a'));
    reveal_strlit("parameters");
    assert(initials("parameters"@) == (10nat, 'p', 'a'));
}

impl IssueView {
    /// This record as a JSON object: one member for each field, under the
    /// name that the data model gives the field and in the order of the fields.
    pub open spec fn projection(self) -> JsonView {
        JsonView::Object(
            seq![
                field("timestamp", optional(self.timestamp)),
                field("year", optional(self.year)),
                field("month", optional(self.month)),
                field("day", optional(self.day)),
                field("hour", optional(self.hour)),
                field("minute", optional(self.minute)),
                field("second", optional(self.second)),
            ],
        )
    }
}

impl Issue {
    /// This record as a JSON value.
    pub fn project(&self) -> (json: Json)
        ensures
            json@ == self@.projection(),
    {
        let mut members: Vec<Member> = Vec::new();
        assert(members_of(members@) =~= Seq::empty());
        put(&mut members, "timestamp", project_text(&self.timestamp));
        put(&mut members, "year", project_text(&self.year));
        put(&mut members, "month", project_text(&self.month));
        put(&mut members, "day", project_text(&self.day));
        put(&mut members, "hour", project_text(&self.hour));
        put(&mut members, "minute", project_text(&self.minute));
        put(&mut members, "second", project_text(&self.second));
        let json = object(members);
        assert(json@->Object_0 =~= self@.projection()->Object_0);
        json
    }
}

/// Every field of a projected `Issue` is found under its own name, and holds
/// `null` exactly where the field was never set.
pub proof fn lemma_issue_members(record: IssueView)
    ensures
        record.projection().member("timestamp"@) == Some(optional(record.timestamp)),
        record.projection().member("year"@) == Some(optional(record.year)),
        record.projection().member("month"@) == Some(optional(record.month)),
        record.projection().member("day"@) == Some(optional(record.day)),
        record.projection().member("hour"@) == Some(optional(record.hour)),
        record.projection().member("minute"@) == Some(optional(record.minute)),
        record.projection().member("second"@) == Some(optional(record.second)),
{
    reveal_with_fuel(member_of, 8);
    reveal_strlit("timestamp");
    assert(initials("timestamp"@) == (9nat, 't', 'i'));
    reveal_strlit("year");
    assert(initials("year"@) == (4nat, 'y', 'e'));
    reveal_strlit("month");
    assert(initials("month"@) == (5nat, 'm', 'o'));
    reveal_strlit("day");
    assert(initials("day"@) == (3nat, 'd', 'a'));
    reveal_strlit("hour");
    assert(initials("hour"@) == (4nat, 'h', 'o'));
    reveal_strlit("minute");
    assert(initials("minute"@) == (6nat, 'm', 'i'));
    reveal_strlit("second");
    assert(initials("second"@) == (6nat, 's', 'e'));
}

impl ForecastView {
    /// The projected members of `areas`, in order.
    pub open spec fn projected_areas(self) -> Seq<JsonView> {
        Seq::new(self.areas.len(), |i: int| self.areas[i].projection())
    }

    /// This record as a JSON object: one member for each field, under the
    /// name that the data model gives the field and in the order of the fields.
    pub open spec fn projection(self) -> JsonView {
        JsonView::Object(
            seq![
                field("domain", optional(self.domain)),
                field(
                    "issue",
                    match self.issue {
                        Some(issue) => issue.projection(),
                        None => JsonView::Null,
                    },
                ),
                field("areas", JsonView::Array(self.projected_areas())),
            ],
        )
    }
}

impl Forecast {
    /// This record as a JSON value.
    pub fn project(&self) -> (json: Json)
        ensures
            json@ == self@.projection(),
    {
        let mut members: Vec<Member> = Vec::new();
        assert(members_of(members@) =~= Seq::empty());
        put(&mut members, "domain", project_text(&self.domain));
        let issue = match &self.issue {
            Some(issue) => issue.project(),
            None => Json::Null,
        };
        put(&mut members, "issue", issue);
        let mut areas: Vec<Json> = Vec::new();
        let mut i: usize = 0;
        while i < self.areas.len()
            invariant
                i <= self.areas.len(),
                items_of(areas@) =~= self@.projected_areas().take(i as int),
            decreases self.areas.len() - i,
        {
            let ghost before = items_of(areas@);
            let item = self.areas[i].project();
            areas.push(item);
            proof {
                assert(items_of(areas@) =~= before.push(item@));
                assert(self@.projected_areas()[i as int] == self.areas[i as int]@.projection());
                assert(self@.projected_areas().take(i + 1) =~= self@.projected_areas().take(
                    i as int,
                ).push(item@));
            }
            i += 1;
        }
        assert(self@.projected_areas().take(i as int) =~= self@.projected_areas());
        put(&mut members, "areas", array(areas));
        let json = object(members);
        assert(json@->Object_0 =~= self@.projection()->Object_0);
        json
    }
}

/// Every field of a projected `Forecast` is found under its own name, and holds
/// `null` exactly where the field was never set.
pub proof fn lemma_forecast_members(record: ForecastView)
    ensures
        record.projection().member("domain"@) == Some(optional(record.domain)),
        record.projection().member("issue"@) == Some(
            match record.issue {
                Some(issue) => issue.projection(),
                None => JsonView::Null,
            },
        ),
        record.projection().member("areas"@) == Some(JsonView::Array(record.projected_areas())),
{
    reveal_with_fuel(member_of, 4);
    reveal_strlit("domain");
    assert(initials("domain"@) == (6nat, 'd', 'o'));
    reveal_strlit("issue");
    assert(initials("issue"@) == (5nat, 'i', 's'));
    reveal_strlit("areas");
    assert(initials("areas"@) == (5nat, 'a', 'r'));
}

impl DataView {
    /// This record as a JSON object: one member for each field, under the
    /// name that the data model gives the field and in the order of the fields.
    pub open spec fn projection(self) -> JsonView {
        JsonView::Object(
            seq![
                field("source", optional(self.source)),
                field("productionCenter", optional(self.production_center)),
                field(
                    "forecast",
                    match self.forecast {
                        Some(forecast) => forecast.projection(),
                        None => JsonView::Null,
                    },
                ),
            ],
        )
    }
}

impl Data {
    /// This record as a JSON value.
    pub fn project(&self) -> (json: Json)
        ensures
            json@ == self@.projection(),
    {
        let mut members: Vec<Member> = Vec::new();
        assert(members_of(members@) =~= Seq::empty());
        put(&mut members, "source", project_text(&self.source));
        put(&mut members, "productionCenter", project_text(&self.production_center));
        let forecast = match &self.forecast {
            Some(forecast) => forecast.project(),
            None => Json::Null,
        };
        put(&mut members, "forecast", forecast);
        let json = object(members);
        assert(json@->Object_0 =~= self@.projection()->Object_0);
        json
    }
}

/// Every field of a projected `Data` is found under its own name, and holds
/// `null` exactly where the field was never set.
pub proof fn lemma_data_members(record: DataView)
    ensures
        record.projection().member("source"@) == Some(optional(record.source)),
        record.projection().member("productionCenter"@) == Some(optional(record.production_center)),
        record.projection().member("forecast"@) == Some(
            match record.forecast {
                Some(forecast) => forecast.projection(),
                None => JsonView::Null,
            },
        ),
{
    reveal_with_fuel(member_of, 4);
    reveal_strlit("source");
    assert(initials("source"@) == (6nat, 's', 'o'));
    reveal_strlit("productionCenter");
    assert(initials("productionCenter"@) == (16nat, 'p', 'r'));
    reveal_strlit("forecast");
    assert(initials("forecast"@) == (8nat, 'f', 'o'));
}

impl GempaView {
    /// This record as a JSON object: one member for each field, under the
    /// name that the data model gives the field and in the order of the fields.
    pub open spec fn projection(self) -> JsonView {
        JsonView::Object(
            seq![
                field("tanggal", optional(self.tanggal)),
                field("jam", optional(self.jam)),
                field("coordinates", optional(self.coordinates)),
                field("lintang", optional(self.lintang)),
                field("bujur", optional(self.bujur)),
                field("magnitude", optional(self.magnitude)),
                field("kedalaman", optional(self.kedalaman)),
                field("wilayah", optional(self.wilayah)),
                field("potensi", optional(self.potensi)),
                field("dirasakan", optional(self.dirasakan)),
                field("shakemap", optional(self.shakemap)),
            ],
        )
    }
}

impl Gempa {
    /// This record as a JSON value.
    pub fn project(&self) -> (json: Json)
        ensures
            json@ == self@.projection(),
    {
        let mut members: Vec<Member> = Vec::new();
        assert(members_of(members@) =~= Seq::empty());
        put(&mut members, "tanggal", project_text(&self.tanggal));
        put(&mut members, "jam", project_text(&self.jam));
        put(&mut members, "coordinates", project_text(&self.coordinates));
        put(&mut members, "lintang", project_text(&self.lintang));
        put(&mut members, "bujur", project_text(&self.bujur));
        put(&mut members, "magnitude", project_text(&self.magnitude));
        put(&mut members, "kedalaman", project_text(&self.kedalaman));
        put(&mut members, "wilayah", project_text(&self.wilayah));
        put(&mut members, "potensi", project_text(&self.potensi));
        put(&mut members, "dirasakan", project_text(&self.dirasakan));
        put(&mut members, "shakemap", project_text(&self.shakemap));
        let json = object(members);
        assert(json@->Object_0 =~= self@.projection()->Object_0);
        json
    }
}

impl Autogempa {
    /// This record as a JSON value.
    pub fn project(&self) -> (json: Json)
        ensures
            json@ == self@.projection(),
    {
        let mut members: Vec<Member> = Vec::new();
        assert(members_of(members@) =~= Seq::empty());
        put(&mut members, "tanggal", project_text(&self.tanggal));
        put(&mut members, "jam", project_text(&self.jam));
        put(&mut members, "coordinates", project_text(&self.coordinates));
        put(&mut members, "lintang", project_text(&self.lintang));
        put(&mut members, "bujur", project_text(&self.bujur));
        put(&mut members, "magnitude", project_text(&self.magnitude));
        put(&mut members, "kedalaman", project_text(&self.kedalaman));
        put(&mut members, "wilayah", project_text(&self.wilayah));
        put(&mut members, "potensi", project_text(&self.potensi));
        put(&mut members, "dirasakan", project_text(&self.dirasakan));
        put(&mut members, "shakemap", project_text(&self.shakemap));
        let json = object(members);
        assert(json@->Object_0 =~= self@.projection()->Object_0);
        json
    }
}

/// Every field of a projected `Gempa` is found under its own name, and holds
/// `null` exactly where the field was never set.
pub proof fn lemma_gempa_members(record: GempaView)
    ensures
        record.projection().member("tanggal"@) == Some(optional(record.tanggal)),
        record.projection().member("jam"@) == Some(optional(record.jam)),
        record.projection().member("coordinates"@) == Some(optional(record.coordinates)),
        record.projection().member("lintang"@) == Some(optional(record.lintang)),
        record.projection().member("bujur"@) == Some(optional(record.bujur)),
        record.projection().member("magnitude"@) == Some(optional(record.magnitude)),
        record.projection().member("kedalaman"@) == Some(optional(record.kedalaman)),
        record.projection().member("wilayah"@) == Some(optional(record.wilayah)),
        record.projection().member("potensi"@) == Some(optional(record.potensi)),
        record.projection().member("dirasakan"@) == Some(optional(record.dirasakan)),
        record.projection().member("shakemap"@) == Some(optional(record.shakemap)),
{
    reveal_with_fuel(member_of, 12);
    reveal_strlit("tanggal");
    assert(initials("tanggal"@) == (7nat, 't', 'a'));
    reveal_strlit("jam");
    assert(initials("jam"@) == (3nat, 'j', 'a'));
    reveal_strlit("coordinates");
    assert(initials("coordinates"@) == (11nat, 'c', 'o'));
    reveal_strlit("lintang");
    assert(initials("lintang"@) == (7nat, 'l', 'i'));
    reveal_strlit("bujur");
    assert(initials("bujur"@) == (5nat, 'b', 'u'));
    reveal_strlit("magnitude");
    assert(initials("magnitude"@) == (9nat, 'm', 'a'));
    reveal_strlit("kedalaman");
    assert(initials("kedalaman"@) == (9nat, 'k', 'e'));
    reveal_strlit("wilayah");
    assert(initials("wilayah"@) == (7nat, 'w', 'i'));
    reveal_strlit("potensi");
    assert(initials("potensi"@) == (7nat, 'p', 'o'));
    reveal_strlit("dirasakan");
    assert(initials("dirasakan"@) == (9nat, 'd', 'i'));
    reveal_strlit("shakemap");
    assert(initials("shakemap"@) == (8nat, 's', 'h'));
}

/// The position of the first member named `key`, or the number of members if
/// none is named so.
pub open spec fn first_position(members: Seq<MemberView>, key: Seq<char>) -> int
    decreases members.len(),
{
    if members.len() == 0 {
        0
    } else if members[0].key == key {
        0
    } else {
        1 + first_position(members.drop_first(), key)
    }
}

/// The members with one more put among them: in place of the first member of
/// its name, or behind all of them if none has its name.
pub open spec fn put_member(members: Seq<MemberView>, member: MemberView) -> Seq<MemberView> {
    let at = first_position(members, member.key);
    if at < members.len() {
        members.update(at, member)
    } else {
        members.push(member)
    }
}

/// The members that a record of pairs projects to. Each tag is a member
/// once, at the place where the tag first came, and holds the text that came
/// with the tag last.
pub open spec fn group_members(pairs: Seq<PairView>) -> Seq<MemberView>
    decreases pairs.len(),
{
    if pairs.len() == 0 {
        Seq::empty()
    } else {
        put_member(
            group_members(pairs.drop_last()),
            MemberView { key: pairs.last().0, value: JsonView::Text(pairs.last().1) },
        )
    }
}

/// The JSON object that a record of pairs projects to.
pub open spec fn group_projection(pairs: Seq<PairView>) -> JsonView {
    JsonView::Object(group_members(pairs))
}

/// Where the first member named `key` stands: no member before it is named
/// so.
proof fn lemma_first_position(members: Seq<MemberView>, key: Seq<char>, at: int)
    requires
        0 <= at <= members.len(),
        forall|j: int| 0 <= j < at ==> (#[trigger] members[j]).key != key,
        at < members.len() ==> members[at].key == key,
    ensures
        first_position(members, key) == at,
    decreases at,
{
    if at > 0 {
        let rest = members.drop_first();
        assert(forall|j: int| 0 <= j < at - 1 ==> (#[trigger] rest[j]) == members[j + 1]);
        lemma_first_position(rest, key, at - 1);
    }
}

/// The first position lies within the members or just behind them, and the
/// member there, if any, is the first one named `key`.
proof fn lemma_first_position_bounds(members: Seq<MemberView>, key: Seq<char>)
    ensures
        0 <= first_position(members, key) <= members.len(),
        first_position(members, key) < members.len() ==> members[first_position(
            members,
            key,
        )].key == key,
        forall|j: int|
            0 <= j < first_position(members, key) ==> (#[trigger] members[j]).key != key,
        member_of(members, key) == if first_position(members, key) < members.len() {
            Some(members[first_position(members, key)].value)
        } else {
            None
        },
    decreases members.len(),
{
    if members.len() > 0 && members[0].key != key {
        let rest = members.drop_first();
        lemma_first_position_bounds(rest, key);
        assert forall|j: int| 0 <= j < first_position(members, key) implies (
        #[trigger] members[j]).key != key by {
            if j > 0 {
                assert(members[j] == rest[j - 1]);
            }
        }
    }
}

/// Projects one record of pairs: each tag becomes a member where it first
/// came, and a tag that comes again replaces the text of its member.
pub fn project_group(pairs: &Vec<Pair>) -> (json: Json)
    ensures
        json@ == group_projection(pairs.deep_view()),
{
    let ghost all = pairs.deep_view();
    let mut members: Vec<Member> = Vec::new();
    assert(members_of(members@) =~= Seq::empty());
    let mut i: usize = 0;
    while i < pairs.len()
        invariant
            i <= pairs.len(),
            all == pairs.deep_view(),
            members_of(members@) == group_members(all.take(i as int)),
        decreases pairs.len() - i,
    {
        let ghost earlier = members_of(members@);
        let key = pairs[i].0.clone();
        let value = Json::Text(pairs[i].1.clone());
        let ghost member = MemberView { key: key@, value: value@ };
        proof {
            assert(all.take(i + 1).drop_last() =~= all.take(i as int));
            assert(all.take(i + 1).last() == pairs[i as int].deep_view());
        }
        let mut at: usize = 0;
        while at < members.len() && !str_eq(members[at].key.as_str(), key.as_str())
            invariant
                at <= members.len(),
                earlier == members_of(members@),
                forall|j: int| 0 <= j < at ==> (#[trigger] earlier[j]).key != key@,
            decreases members.len() - at,
        {
            at += 1;
        }
        proof {
            lemma_first_position(earlier, key@, at as int);
        }
        if at < members.len() {
            members.set(at, Member { key, value });
            assert(members_of(members@) =~= earlier.update(at as int, member));
        } else {
            members.push(Member { key, value });
            assert(members_of(members@) =~= earlier.push(member));
        }
        i += 1;
    }
    assert(all.take(i as int) =~= all);
    object(members)
}

/// Putting a member makes it the member found under its name and leaves
/// every other name as it was.
proof fn lemma_member_after_put(members: Seq<MemberView>, member: MemberView, key: Seq<char>)
    ensures
        member_of(put_member(members, member), key) == if key == member.key {
            Some(member.value)
        } else {
            member_of(members, key)
        },
    decreases members.len(),
{
    let after = put_member(members, member);
    lemma_first_position_bounds(members, member.key);
    if members.len() == 0 {
        assert(after =~= seq![member]);
        assert(after.drop_first() =~= Seq::empty());
        assert(member_of(after.drop_first(), key) is None);
    } else if members[0].key == member.key {
        assert(after[0] == member);
        assert(after.drop_first() =~= members.drop_first());
    } else {
        let rest = members.drop_first();
        lemma_member_after_put(rest, member, key);
        lemma_first_position_bounds(rest, member.key);
        assert(after[0] == members[0]);
        assert(after.drop_first() =~= put_member(rest, member));
    }
}

/// First place is kept. Putting a member leaves every member in its place
/// and under its name, and adds a place at the end only for a new name.
pub proof fn lemma_put_keeps_places(members: Seq<MemberView>, member: MemberView)
    ensures
        put_member(members, member).len() == if member_of(members, member.key) is Some {
            members.len()
        } else {
            members.len() + 1
        },
        forall|i: int|
            0 <= i < members.len() ==> (#[trigger] put_member(members, member)[i]).key
                == members[i].key,
{
    lemma_first_position_bounds(members, member.key);
}

/// Last text wins. In a projected record of pairs, the member named by a
/// tag holds the text of the last pair that carries the tag.
pub proof fn lemma_group_last_text_wins(pairs: Seq<PairView>, at: int)
    requires
        0 <= at < pairs.len(),
        forall|k: int| at < k < pairs.len() ==> (#[trigger] pairs[k]).0 != pairs[at].0,
    ensures
        group_projection(pairs).member(pairs[at].0) == Some(JsonView::Text(pairs[at].1)),
    decreases pairs.len(),
{
    let earlier = group_members(pairs.drop_last());
    let member = MemberView { key: pairs.last().0, value: JsonView::Text(pairs.last().1) };
    lemma_member_after_put(earlier, member, pairs[at].0);
    if at < pairs.len() - 1 {
        assert(forall|k: int|
            at < k < pairs.drop_last().len() ==> (#[trigger] pairs.drop_last()[k]) == pairs[k]);
        lemma_group_last_text_wins(pairs.drop_last(), at);
    }
}

/// A projected record of pairs has a member under a name exactly where some
/// pair carries that name as its tag.
pub proof fn lemma_group_members_are_tags(pairs: Seq<PairView>, key: Seq<char>)
    ensures
        group_projection(pairs).member(key) is Some <==> exists|k: int|
            0 <= k < pairs.len() && (#[trigger] pairs[k]).0 == key,
    decreases pairs.len(),
{
    if pairs.len() > 0 {
        let earlier = group_members(pairs.drop_last());
        let member = MemberView { key: pairs.last().0, value: JsonView::Text(pairs.last().1) };
        lemma_member_after_put(earlier, member, key);
        lemma_group_members_are_tags(pairs.drop_last(), key);
        if key == pairs.last().0 {
            assert(pairs[pairs.len() - 1].0 == key);
        } else if group_projection(pairs).member(key) is Some {
            let k = choose|k: int|
                0 <= k < pairs.drop_last().len() && (#[trigger] pairs.drop_last()[k]).0 == key;
            assert(pairs[k].0 == key);
        } else {
            if exists|k: int| 0 <= k < pairs.len() && (#[trigger] pairs[k]).0 == key {
                let k = choose|k: int| 0 <= k < pairs.len() && (#[trigger] pairs[k]).0 == key;
                assert(pairs.drop_last()[k].0 == key);
            }
        }
    }
}

/// The projections of a run of records of pairs, in order.
pub open spec fn groups_projection(groups: Seq<Seq<PairView>>) -> Seq<JsonView> {
    Seq::new(groups.len(), |i: int| group_projection(groups[i]))
}

/// Projects the records of a flat feed: an array with one object for each
/// record, in document order.
pub fn project_groups(groups: &Vec<Vec<Pair>>) -> (json: Json)
    ensures
        json@ == JsonView::Array(groups_projection(groups.deep_view())),
{
    let ghost all = groups.deep_view();
    let mut items: Vec<Json> = Vec::new();
    let mut i: usize = 0;
    while i < groups.len()
        invariant
            i <= groups.len(),
            all == groups.deep_view(),
            items_of(items@) =~= groups_projection(all).take(i as int),
        decreases groups.len() - i,
    {
        let ghost before = items_of(items@);
        let item = project_group(&groups[i]);
        items.push(item);
        proof {
            assert(items_of(items@) =~= before.push(item@));
            assert(all[i as int] == groups[i as int].deep_view());
            assert(groups_projection(all).take(i + 1) =~= groups_projection(all).take(
                i as int,
            ).push(item@));
        }
        i += 1;
    }
    assert(groups_projection(all).take(i as int) =~= groups_projection(all));
    array(items)
}

/// Decodes a flat feed in one go: the document is flattened into pairs, the
/// pairs are cut into records where the first tag comes again, and every
/// record is projected to an object. A fault of the tokenizer ends the feed
/// where it occurs.
pub fn decode_feed<T: Text>(xml: T) -> (json: Json)
    ensures
        json@ == JsonView::Array(groups_projection(grouped(flattened(marks_read(xml.text()))))),
{
    let records = group(flatten(xml));
    project_groups(&records)
}

/// What tells the names of the fields apart: a name's length and its first
/// two characters.
spec fn initials(name: Seq<char>) -> (nat, char, char) {
    (name.len(), name[0], name[1])
}

/// A projected text is `null` exactly where the text was never set.
pub proof fn lemma_null_means_unset(text: Option<Seq<char>>)
    ensures
        optional(text) is Null <==> text is None,
{
}

} // verus!
