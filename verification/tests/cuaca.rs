use bmkg::cuaca::builder::{build, parse_data, Element, Event, TreeBuilder};
use bmkg::cuaca::Url;
use bmkg::xml::Attribute;
use bmkg::ErrorKind;

fn text(s: &str) -> Option<String> {
    Some(s.to_string())
}

fn attribute(key: &str, value: &str) -> Attribute {
    Attribute { key: key.as_bytes().to_vec(), value: value.to_string() }
}

#[test]
fn forecast_nesting_example() {
    let xml = "<area><parameter id=\"t\"><timerange h=\"3\"><value unit=\"C\">30</value></timerange></parameter></area>";
    let events = vec![
        Event::Open { element: Element::Area, attributes: vec![] },
        Event::Open { element: Element::Parameter, attributes: vec![attribute("id", "t")] },
        Event::Open { element: Element::TimeRange, attributes: vec![attribute("h", "3")] },
        Event::Text {
            element: Element::Value,
            attributes: vec![attribute("unit", "C")],
            text: "30".to_string(),
        },
        Event::Close { element: Element::TimeRange },
        Event::Close { element: Element::Parameter },
        Event::Close { element: Element::Area },
    ];
    let mut builder = TreeBuilder::new();
    for event in events {
        builder.observe(event);
    }
    // The area is closed but no forecast is: the record itself stays empty.
    assert!(builder.finish().forecast.is_none());

    let wrapped = format!("<data><forecast>{}</forecast></data>", xml);
    let data = parse_data(wrapped.as_str()).unwrap();
    let forecast = data.forecast.unwrap();
    assert_eq!(forecast.areas.len(), 1);
    let area = &forecast.areas[0];
    assert_eq!(area.parameters.len(), 1);
    let parameter = &area.parameters[0];
    assert_eq!(parameter.id, text("t"));
    assert_eq!(parameter.timeranges.len(), 1);
    let time_range = &parameter.timeranges[0];
    assert_eq!(time_range.h, text("3"));
    assert_eq!(time_range.values.len(), 1);
    assert_eq!(time_range.values[0].unit, text("C"));
    assert_eq!(time_range.values[0].value, text("30"));
}

#[test]
fn whole_document() {
    let xml = r#"<?xml version="1.0" encoding="UTF-8"?>
<data source="meteofactory" productioncenter="NC Jakarta">
  <forecast domain="local">
    <issue>
      <timestamp>20211122040353</timestamp>
      <year>2021</year><month>11</month><day>22</day>
      <hour>04</hour><minute>03</minute><second>53</second>
    </issue>
    <area id="501195" latitude="-6.1" longitude="106.8" coordinate="106.8 -6.1" type="land"
          region="" level="1" description="Jakarta Pusat" domain="DKI Jakarta" tags="" extra="x">
      <name xml:lang="en_US">Central Jakarta</name>
      <name xml:lang="id_ID">Jakarta Pusat</name>
      <parameter id="hu" description="Humidity" type="hourly">
        <timerange type="hourly" h="0" datetime="202111220000">
          <value unit="%">75</value>
        </timerange>
        <timerange type="hourly" h="6" datetime="202111220600">
          <value unit="%">80</value>
        </timerange>
      </parameter>
      <parameter id="t" description="Temperature" type="hourly">
        <timerange type="hourly" h="0" datetime="202111220000">
          <value unit="C">27</value>
          <value unit="F">80.6</value>
        </timerange>
      </parameter>
    </area>
    <area id="501196" description="Jakarta Utara">
    </area>
  </forecast>
</data>"#;
    let data = parse_data(xml).unwrap();
    assert_eq!(data.source, text("meteofactory"));
    assert_eq!(data.production_center, text("NC Jakarta"));
    let forecast = data.forecast.unwrap();
    assert_eq!(forecast.domain, text("local"));
    let issue = forecast.issue.unwrap();
    assert_eq!(issue.timestamp, text("20211122040353"));
    assert_eq!(issue.year, text("2021"));
    assert_eq!(issue.month, text("11"));
    assert_eq!(issue.day, text("22"));
    assert_eq!(issue.hour, text("04"));
    assert_eq!(issue.minute, text("03"));
    assert_eq!(issue.second, text("53"));
    assert_eq!(forecast.areas.len(), 2);
    let area = &forecast.areas[0];
    assert_eq!(area.id, text("501195"));
    assert_eq!(area.latitude, text("-6.1"));
    assert_eq!(area.longitude, text("106.8"));
    assert_eq!(area.coordinate, text("106.8 -6.1"));
    assert_eq!(area.typ, text("land"));
    assert_eq!(area.region, text(""));
    assert_eq!(area.level, text("1"));
    assert_eq!(area.description, text("Jakarta Pusat"));
    assert_eq!(area.domain, text("DKI Jakarta"));
    assert_eq!(area.tags, text(""));
    assert_eq!(area.names.len(), 2);
    assert_eq!(area.names[0].lang, text("en_US"));
    assert_eq!(area.names[0].text, text("Central Jakarta"));
    assert_eq!(area.names[1].lang, text("id_ID"));
    assert_eq!(area.names[1].text, text("Jakarta Pusat"));
    assert_eq!(area.parameters.len(), 2);
    assert_eq!(area.parameters[0].id, text("hu"));
    assert_eq!(area.parameters[0].description, text("Humidity"));
    assert_eq!(area.parameters[0].typ, text("hourly"));
    assert_eq!(area.parameters[0].timeranges.len(), 2);
    assert_eq!(area.parameters[0].timeranges[0].h, text("0"));
    assert_eq!(area.parameters[0].timeranges[0].typ, text("hourly"));
    assert_eq!(area.parameters[0].timeranges[0].datetime, text("202111220000"));
    assert_eq!(area.parameters[0].timeranges[1].h, text("6"));
    assert_eq!(area.parameters[0].timeranges[1].values[0].value, text("80"));
    assert_eq!(area.parameters[1].id, text("t"));
    let values = &area.parameters[1].timeranges[0].values;
    assert_eq!(values.len(), 2);
    assert_eq!(values[0].unit, text("C"));
    assert_eq!(values[0].value, text("27"));
    assert_eq!(values[1].unit, text("F"));
    assert_eq!(values[1].value, text("80.6"));
    let second = &forecast.areas[1];
    assert_eq!(second.id, text("501196"));
    assert_eq!(second.description, text("Jakarta Utara"));
    assert_eq!(second.latitude, None);
    assert!(second.names.is_empty());
    assert!(second.parameters.is_empty());
}

#[test]
fn build_matches_parse() {
    let events = vec![
        Event::Open { element: Element::of(b"data"), attributes: vec![attribute("source", "s")] },
        Event::Open { element: Element::of(b"forecast"), attributes: vec![attribute("domain", "d")] },
        Event::Close { element: Element::of(b"forecast") },
        Event::Close { element: Element::of(b"data") },
    ];
    let built = build(events);
    let parsed = parse_data("<data source=\"s\"><forecast domain=\"d\"></forecast></data>").unwrap();
    assert_eq!(built.source, parsed.source);
    assert_eq!(built.source, text("s"));
    assert_eq!(
        built.forecast.unwrap().domain,
        parsed.forecast.unwrap().domain
    );
}

#[test]
fn malformed_forecast_is_rejected() {
    let err = parse_data("<data><forecast></data>").unwrap_err();
    assert_eq!(err.kind(), ErrorKind::MalformedInput);
}

#[test]
fn cuaca_url_addresses() {
    assert_eq!(
        Url::DKI.to_str(),
        "https://data.bmkg.go.id/DataMKG/MEWS/DigitalForecast/DigitalForecast-DKIJakarta.xml"
    );
    assert_eq!(
        Url::Kalsel.to_str(),
        "https://data.bmkg.go.id/DataMKG/MEWS/DigitalForecast/DigitalForecast-KalimantanSelatan.xml"
    );
}

#[test]
fn cuaca_url_names() {
    assert_eq!(Url::from_str("aceh"), Some(Url::Aceh));
    assert_eq!(Url::from_str("DKI"), Some(Url::DKI));
    assert_eq!(Url::from_str("dyi"), Some(Url::DIY));
    assert_eq!(Url::from_str("diy"), None);
    assert_eq!(Url::from_str(String::from("Jabar")), Some(Url::JawaBarat));
    assert_eq!(Url::from_str("maluku"), Some(Url::Maluku));
    assert_eq!(Url::from_str("maluku_utara"), Some(Url::MalukuUtara));
    assert_eq!(Url::from_str("papua_barat"), Some(Url::PapuaBarat));
    assert_eq!(Url::from_str("sumatera_utara"), Some(Url::SumateraUtara));
    assert_eq!(Url::from_str("sumatera_barat"), Some(Url::SumateraUtara));
    assert_eq!(Url::from_str("indonesia"), Some(Url::Indonesia));
    assert_eq!(Url::from_str("jakarta"), None);
    assert_eq!(Url::from_lowercase("kepri"), Some(Url::KepulauanRiau));
    assert_eq!(Url::from_lowercase("Kepri"), None);
}

#[test]
fn cuaca_every_url_has_its_own_address() {
    let all = [
        Url::Aceh, Url::Bali, Url::BangkaBelitung, Url::Banten, Url::Bengkulu, Url::DIY,
        Url::DKI, Url::Gorontalo, Url::Jambi, Url::JawaBarat, Url::JawaTengah, Url::JawaTimur,
        Url::Kalbar, Url::Kalsel, Url::Kalteng, Url::Kaltim, Url::Kaltara, Url::KepulauanRiau,
        Url::Lampung, Url::Maluku, Url::MalukuUtara, Url::NTB, Url::NTT, Url::Papua,
        Url::PapuaBarat, Url::Riau, Url::SulawesiBarat, Url::SulawesiSelatan,
        Url::SulawesiTengah, Url::SulawesiTenggara, Url::SulawesiUtara, Url::SumateraBarat,
        Url::SumateraSelatan, Url::SumateraUtara, Url::Indonesia,
    ];
    let mut seen = std::collections::BTreeSet::new();
    for url in all {
        let address = url.to_str();
        assert!(address.starts_with(
            "https://data.bmkg.go.id/DataMKG/MEWS/DigitalForecast/DigitalForecast-"
        ));
        assert!(address.ends_with(".xml"));
        assert!(seen.insert(address));
    }
    assert_eq!(seen.len(), 35);
    assert_eq!(
        Url::NTT.to_str(),
        "https://data.bmkg.go.id/DataMKG/MEWS/DigitalForecast/DigitalForecast-NusaTenggaraTimur.xml"
    );
}

#[test]
fn element_names_are_exact() {
    assert_eq!(Element::of(b"timerange"), Element::TimeRange);
    assert_eq!(Element::of(b"TimeRange"), Element::Unknown);
    assert_eq!(Element::of(b"values"), Element::Unknown);
    assert_eq!(Element::of(b""), Element::Unknown);
    assert!(Element::Value.is_leaf());
    assert!(Element::Second.is_leaf());
    assert!(!Element::Issue.is_leaf());
    assert!(Element::Name.has_attributes());
    assert!(!Element::Year.has_attributes());
    assert!(!Element::Issue.has_attributes());
}

#[test]
fn last_write_wins() {
    let data = build(vec![
        Event::Open {
            element: Element::Data,
            attributes: vec![attribute("source", "first"), attribute("source", "second")],
        },
        Event::Open { element: Element::Data, attributes: vec![attribute("other", "x")] },
        Event::Text { element: Element::Year, attributes: vec![], text: "2020".to_string() },
        Event::Text { element: Element::Year, attributes: vec![], text: "2021".to_string() },
        Event::Close { element: Element::Issue },
        Event::Open { element: Element::Forecast, attributes: vec![attribute("domain", "a")] },
        Event::Open { element: Element::Forecast, attributes: vec![attribute("domain", "b")] },
        Event::Close { element: Element::Forecast },
    ]);

    assert_eq!(data.source, text("second"));
    assert_eq!(data.production_center, None);
    let forecast = data.forecast.unwrap();
    assert_eq!(forecast.domain, text("b"));
    assert_eq!(forecast.issue.unwrap().year, text("2021"));
}

#[test]
fn siblings_keep_document_order() {
    let mut events = vec![Event::Open { element: Element::TimeRange, attributes: vec![] }];
    for n in 0..5 {
        events.push(Event::Text {
            element: Element::Value,
            attributes: vec![attribute("unit", "C"), attribute("scale", &n.to_string())],
            text: format!("{}", 20 + n),
        });
    }
    events.push(Event::Close { element: Element::TimeRange });
    events.push(Event::Close { element: Element::Parameter });
    events.push(Event::Close { element: Element::Area });
    events.push(Event::Close { element: Element::Area });
    events.push(Event::Close { element: Element::Forecast });
    let forecast = build(events).forecast.unwrap();

    assert_eq!(forecast.areas.len(), 2);
    assert!(forecast.areas[1].parameters.is_empty());
    let values = &forecast.areas[0].parameters[0].timeranges[0].values;
    assert_eq!(values.len(), 5);
    for n in 0..5 {
        // Any attribute of a measurement is its unit; the last one wins.
        assert_eq!(values[n].unit, text(&n.to_string()));
        assert_eq!(values[n].value, text(&format!("{}", 20 + n)));
    }
}

#[test]
fn forecast_attribute_must_be_named_domain() {
    let parsed = parse_data("<data><forecast region=\"x\"></forecast></data>").unwrap();

    assert_eq!(parsed.forecast.unwrap().domain, None);
}

#[test]
fn early_end_of_input_is_no_fault() {
    let parsed = parse_data("<data source=\"s\"><forecast domain=\"d\"><area id=\"1\">").unwrap();

    assert_eq!(parsed.source, text("s"));
    assert!(parsed.forecast.is_none());
    let nothing = parse_data("").unwrap();
    assert_eq!(nothing.source, None);
    assert!(nothing.forecast.is_none());
}

#[test]
fn builder_stores_text_untouched() {
    let data = build(vec![
        Event::Text {
            element: Element::Name,
            attributes: vec![],
            text: "  Kota   Banda  Aceh \n".to_string(),
        },
        Event::Close { element: Element::Area },
        Event::Close { element: Element::Forecast },
    ]);

    assert_eq!(
        data.forecast.unwrap().areas[0].names[0].text,
        text("  Kota   Banda  Aceh \n")
    );
}

#[test]
fn leaf_text_is_kept_verbatim() {
    let parsed = parse_data(
        "<data>\n <forecast>\n  <area>\n   <name>  Kota   Banda  Aceh </name>\n   <name></name>\n   <name> </name>\n  </area>\n </forecast>\n</data>",
    )
    .unwrap();
    let forecast = parsed.forecast.unwrap();

    assert_eq!(forecast.areas.len(), 1);
    assert_eq!(forecast.areas[0].names.len(), 3);
    assert_eq!(forecast.areas[0].names[0].text, text("  Kota   Banda  Aceh "));
    assert_eq!(forecast.areas[0].names[0].lang, None);
    assert_eq!(forecast.areas[0].names[1].text, text(""));
    assert_eq!(forecast.areas[0].names[2].text, text(" "));
}

#[test]
fn fault_is_reported_with_its_offset() {
    let xml = "<data><forecast></data>";
    match parse_data(xml).unwrap_err() {
        bmkg::Error::MalformedInput { position, detail } => {
            assert_eq!(position, 18);
            assert!(!detail.is_empty());
        }
        other => panic!("{:?}", other),
    }
}

#[test]
fn malformed_attribute_is_rejected() {
    let err = parse_data("<data source=\"a\" source=\"b\"></data>").unwrap_err();
    assert_eq!(err.kind(), ErrorKind::MalformedInput);
    let err = parse_data("<data><forecast><area id=1></area></forecast></data>").unwrap_err();
    assert_eq!(err.kind(), ErrorKind::MalformedInput);
    // An element that the builder passes over is not held to account.
    assert!(parse_data("<data><extra id=1></extra></data>").is_ok());
}

#[test]
fn unterminated_leaf_is_rejected() {
    let err = parse_data("<data><forecast><issue><year>2021").unwrap_err();

    assert_eq!(err.kind(), ErrorKind::MalformedInput);
}

#[test]
fn copies_are_deep() {
    let parsed = parse_data(
        "<data><forecast><area id=\"1\"><name>a</name></area></forecast></data>",
    )
    .unwrap();
    let copy = parsed.clone();

    assert_eq!(copy.forecast.unwrap().areas[0].names[0].text, text("a"));
    assert_eq!(parsed.forecast.unwrap().areas[0].id, text("1"));
}
