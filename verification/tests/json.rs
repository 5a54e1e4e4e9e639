use bmkg::cuaca::builder::parse_data;
use bmkg::cuaca::{Data, Issue, Value};
use bmkg::gempa::Gempa;
use bmkg::grouper::Pair;
use bmkg::json::{decode_feed, project_group, project_groups, Json, Member};

fn text(s: &str) -> Json {
    Json::Text(s.to_string())
}

fn member(key: &str, value: Json) -> Member {
    Member { key: key.to_string(), value }
}

fn pair(tag: &str, text: &str) -> Pair {
    (tag.to_string(), text.to_string())
}

#[test]
fn value_projection() {
    let value = Value { unit: None, value: Some("30".to_string()) };

    assert_eq!(
        value.project(),
        Json::Object(vec![member("unit", Json::Null), member("text", text("30"))])
    );
}

#[test]
fn empty_data_projection() {
    assert_eq!(
        Data::new().project(),
        Json::Object(vec![
            member("source", Json::Null),
            member("productionCenter", Json::Null),
            member("forecast", Json::Null),
        ])
    );
}

#[test]
fn unset_fields_are_null() {
    let mut issue = Issue::new();
    issue.year = Some("2021".to_string());
    let json = issue.project();

    assert_eq!(json.get("year"), Some(&text("2021")));
    for key in ["timestamp", "month", "day", "hour", "minute", "second"] {
        assert_eq!(json.get(key), Some(&Json::Null));
    }
    assert_eq!(json.get("week"), None);
    assert_eq!(text("x").get("year"), None);
}

#[test]
fn nested_projection() {
    let xml = "<data source=\"s\"><forecast domain=\"d\"><issue><year>2021</year></issue>\
        <area id=\"1\" type=\"land\"><name xml:lang=\"id_ID\">Jakarta</name>\
        <parameter id=\"t\" type=\"hourly\"><timerange h=\"3\" type=\"hourly\">\
        <value unit=\"C\">30</value></timerange></parameter></area></forecast></data>";
    let json = parse_data(xml).unwrap().project();

    assert_eq!(json.get("source"), Some(&text("s")));
    assert_eq!(json.get("productionCenter"), Some(&Json::Null));
    let forecast = json.get("forecast").unwrap();
    assert_eq!(forecast.get("domain"), Some(&text("d")));
    assert_eq!(forecast.get("issue").unwrap().get("year"), Some(&text("2021")));
    assert_eq!(forecast.get("issue").unwrap().get("month"), Some(&Json::Null));
    let areas = match forecast.get("areas").unwrap() {
        Json::Array(areas) => areas,
        other => panic!("areas is {:?}", other),
    };
    assert_eq!(areas.len(), 1);
    assert_eq!(areas[0].get("id"), Some(&text("1")));
    assert_eq!(areas[0].get("kind"), Some(&text("land")));
    assert_eq!(areas[0].get("typ"), None);
    assert_eq!(areas[0].get("type"), None);
    assert_eq!(areas[0].get("latitude"), Some(&Json::Null));
    assert_eq!(
        areas[0].get("names"),
        Some(&Json::Array(vec![Json::Object(vec![
            member("language", text("id_ID")),
            member("text", text("Jakarta")),
        ])]))
    );
    assert_eq!(
        areas[0].get("parameters"),
        Some(&Json::Array(vec![Json::Object(vec![
            member("id", text("t")),
            member("description", Json::Null),
            member("kind", text("hourly")),
            member(
                "timeRanges",
                Json::Array(vec![Json::Object(vec![
                    member("kind", text("hourly")),
                    member("hourOffset", text("3")),
                    member("datetime", Json::Null),
                    member(
                        "values",
                        Json::Array(vec![Json::Object(vec![
                            member("unit", text("C")),
                            member("text", text("30")),
                        ])])
                    ),
                ])])
            ),
        ])]))
    );
}

#[test]
fn gempa_projection() {
    let mut record = Gempa::new();
    record.set("tanggal", "30-Jul-20").unwrap();
    let json = record.project();

    assert_eq!(json.get("tanggal"), Some(&text("30-Jul-20")));
    assert_eq!(json.get("jam"), Some(&Json::Null));
    assert_eq!(json.get("shakemap"), Some(&Json::Null));
    match json {
        Json::Object(members) => assert_eq!(members.len(), 11),
        other => panic!("a record projects to {:?}", other),
    }
}

#[test]
fn group_projection_keeps_first_place_and_last_text() {
    let group = vec![
        pair("Tanggal", "1"),
        pair("Dirasakan", "II Jakarta"),
        pair("Jam", "2"),
        pair("Dirasakan", "III Bogor"),
        pair("Tanggal", "3"),
    ];

    assert_eq!(
        project_group(&group),
        Json::Object(vec![
            member("Tanggal", text("3")),
            member("Dirasakan", text("III Bogor")),
            member("Jam", text("2")),
        ])
    );
    assert_eq!(project_group(&vec![]), Json::Object(vec![]));
}

#[test]
fn member_names_follow_the_data_model() {
    let xml = "<data productioncenter=\"p\"><forecast><area type=\"land\">\
        <name xml:lang=\"id_ID\">a</name><parameter type=\"hourly\"><timerange h=\"3\" type=\"t\">\
        <value unit=\"C\">30</value></timerange></parameter></area></forecast></data>";
    let json = parse_data(xml).unwrap().project();

    assert_eq!(json.get("productionCenter"), Some(&text("p")));
    assert_eq!(json.get("production_center"), None);
    let forecast = json.get("forecast").unwrap();
    let area = match forecast.get("areas").unwrap() {
        Json::Array(areas) => &areas[0],
        other => panic!("areas is {:?}", other),
    };
    assert_eq!(area.get("kind"), Some(&text("land")));
    let name = match area.get("names").unwrap() {
        Json::Array(names) => &names[0],
        other => panic!("names is {:?}", other),
    };
    assert_eq!(name.get("language"), Some(&text("id_ID")));
    assert_eq!(name.get("text"), Some(&text("a")));
    let parameter = match area.get("parameters").unwrap() {
        Json::Array(parameters) => &parameters[0],
        other => panic!("parameters is {:?}", other),
    };
    assert_eq!(parameter.get("kind"), Some(&text("hourly")));
    let time_range = match parameter.get("timeRanges").unwrap() {
        Json::Array(time_ranges) => &time_ranges[0],
        other => panic!("timeRanges is {:?}", other),
    };
    assert_eq!(time_range.get("hourOffset"), Some(&text("3")));
    assert_eq!(time_range.get("kind"), Some(&text("t")));
    let value = match time_range.get("values").unwrap() {
        Json::Array(values) => &values[0],
        other => panic!("values is {:?}", other),
    };
    assert_eq!(value.get("unit"), Some(&text("C")));
    assert_eq!(value.get("text"), Some(&text("30")));
}

#[test]
fn feed_decoded_in_one_go() {
    let xml = "<Infogempa><gempa><Tanggal>1</Tanggal><Jam>a</Jam><Jam>b</Jam></gempa>\
        <gempa><Tanggal>2</Tanggal></gempa></Infogempa>";

    assert_eq!(
        decode_feed(xml),
        Json::Array(vec![
            Json::Object(vec![member("Tanggal", text("1")), member("Jam", text("b"))]),
            Json::Object(vec![member("Tanggal", text("2"))]),
        ])
    );
    assert_eq!(decode_feed(""), Json::Array(vec![]));
    assert_eq!(decode_feed("<Tanggal>30-Jul-20"), Json::Array(vec![]));
    assert_eq!(
        project_groups(&vec![vec![pair("a", "1")], vec![]]),
        Json::Array(vec![Json::Object(vec![member("a", text("1"))]), Json::Object(vec![])])
    );
}
