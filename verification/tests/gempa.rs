use bmkg::gempa::autogempa::Autogempa;
use bmkg::gempa::{decode, parse_data, Event, Field, Gempa, Url};

#[test]
fn gempa_set_test() {
    let mut data = Gempa::new();
    data.set("tanggal", "22-11-2021").unwrap();
    let expected = Some("22-11-2021".to_string());

    assert_eq!(data.tanggal, expected);
}

#[test]
fn gempa_parse_data_test() {
    let data = "<gempa><Tanggal>30-Jul-20</Tanggal><Jam>09:51:20 WIB</Jam></gempa>";
    let expected = Some("30-Jul-20".to_string());

    assert_eq!(parse_data(data).unwrap()[0].tanggal, expected);
}

#[test]
fn parse_data_without_gempa_tag_test() {
    let data = "<Tanggal>30-Jul-20</Tanggal><Jam>09:51:20 WIB</Jam>";

    assert_eq!(parse_data(data).unwrap().len(), 0);
}

#[test]
fn url_from_str_test() {
    let data = "gempaterkini";
    let expected = Url::GempaTerkini;

    assert_eq!(Url::from_str(data).unwrap(), expected);
}

#[test]
fn url_from_str_but_with_string_test() {
    let data = String::from("gempaterkini");
    let expected = Url::GempaTerkini;

    assert_eq!(Url::from_str(data).unwrap(), expected);
}

#[test]
fn autogempa_set_test() {
    let mut data = Autogempa::new();
    data.set("tanggal", "22-11-2021");
    let expected = Some("22-11-2021".to_string());

    assert_eq!(data.tanggal, expected);
}

#[test]
fn autogempa_parse_data_test() {
    let data = "<Tanggal>30-Jul-20</Tanggal><Jam>09:51:20 WIB</Jam>";
    let expected = Some("30-Jul-20".to_string());

    assert_eq!(
        bmkg::gempa::autogempa::parse_data(data).unwrap().tanggal,
        expected
    );
}

#[test]
fn gempa_single_record_round_trip() {
    let data = "<gempa><Tanggal>30-Jul-20</Tanggal><Jam>09:51:20 WIB</Jam></gempa>";
    let records = parse_data(data).unwrap();

    assert_eq!(records.len(), 1);
    assert_eq!(records[0].tanggal, Some("30-Jul-20".to_string()));
    assert_eq!(records[0].jam, Some("09:51:20 WIB".to_string()));
    assert_eq!(records[0].magnitude, None);
}

#[test]
fn gempa_unterminated_tag_is_malformed() {
    let err = parse_data("<Tanggal>30-Jul-20").unwrap_err();

    assert_eq!(err.kind(), bmkg::ErrorKind::MalformedInput);
    assert!(!err.describe().is_empty());
    match err {
        bmkg::Error::MalformedInput { position, .. } => assert_eq!(position, 18),
        other => panic!("{:?}", other),
    }
}

#[test]
fn gempa_fault_discards_closed_records() {
    let data = "<gempa><Tanggal>1</Tanggal></gempa><gempa><Tanggal>2</Jam></gempa>";

    assert!(parse_data(data).is_err());
}

#[test]
fn gempa_mismatched_tag_is_malformed() {
    let err = parse_data("<gempa><Tanggal>1</Jam></gempa>").unwrap_err();

    assert_eq!(err.kind(), bmkg::ErrorKind::MalformedInput);
}

#[test]
fn gempa_records_in_document_order() {
    let data = "<Infogempa>\
        <gempa><Tanggal>01-Jan-21</Tanggal><Magnitude>5.1</Magnitude></gempa>\
        <gempa><Tanggal>02-Jan-21</Tanggal><Magnitude>5.2</Magnitude></gempa>\
        <gempa><Tanggal>03-Jan-21</Tanggal></gempa>\
        </Infogempa>";
    let records = parse_data(data).unwrap();

    assert_eq!(records.len(), 3);
    assert_eq!(records[0].tanggal, Some("01-Jan-21".to_string()));
    assert_eq!(records[0].magnitude, Some("5.1".to_string()));
    assert_eq!(records[1].tanggal, Some("02-Jan-21".to_string()));
    assert_eq!(records[1].magnitude, Some("5.2".to_string()));
    assert_eq!(records[2].tanggal, Some("03-Jan-21".to_string()));
    assert_eq!(records[2].magnitude, None);
}

#[test]
fn gempa_all_fields_and_shakemap_address() {
    let data = "<gempa><Tanggal>a</Tanggal><Jam>b</Jam><point><coordinates>c</coordinates></point>\
        <Lintang>d</Lintang><Bujur>e</Bujur><Magnitude>f</Magnitude><Kedalaman>g</Kedalaman>\
        <Wilayah>h</Wilayah><Potensi>i</Potensi><Dirasakan>j</Dirasakan>\
        <Shakemap>20211122.mmi.jpg</Shakemap><Other>k</Other></gempa>";
    let records = parse_data(data).unwrap();

    assert_eq!(records.len(), 1);
    let g = &records[0];
    assert_eq!(g.tanggal, Some("a".to_string()));
    assert_eq!(g.jam, Some("b".to_string()));
    assert_eq!(g.coordinates, Some("c".to_string()));
    assert_eq!(g.lintang, Some("d".to_string()));
    assert_eq!(g.bujur, Some("e".to_string()));
    assert_eq!(g.magnitude, Some("f".to_string()));
    assert_eq!(g.kedalaman, Some("g".to_string()));
    assert_eq!(g.wilayah, Some("h".to_string()));
    assert_eq!(g.potensi, Some("i".to_string()));
    assert_eq!(g.dirasakan, Some("j".to_string()));
    assert_eq!(
        g.shakemap,
        Some("https://data.bmkg.go.id/DataMKG/TEWS/20211122.mmi.jpg".to_string())
    );
}

#[test]
fn gempa_last_write_wins() {
    let mut data = Gempa::new();
    data.set("jam", "01:00:00 WIB").unwrap();
    data.set("Jam", "02:00:00 WIB").unwrap();

    assert_eq!(data.jam, Some("02:00:00 WIB".to_string()));
    assert_eq!(data.tanggal, None);

    let records = parse_data("<gempa><Jam>1</Jam><Jam>2</Jam></gempa>").unwrap();
    assert_eq!(records[0].jam, Some("2".to_string()));
}

#[test]
fn gempa_set_rejects_unknown_field() {
    let mut data = Gempa::new();
    let err = data.set("Waktu", "x").unwrap_err();

    assert_eq!(err.kind(), bmkg::ErrorKind::UnrecognizedField);
    assert_eq!(err.describe(), "unknown field waktu");
    assert_eq!(data.tanggal, None);
    assert_eq!(data.jam, None);
}

#[test]
fn gempa_set_field_and_put() {
    let mut data = Gempa::new();
    data.set_field("magnitude", "5.0".to_string()).unwrap();
    assert_eq!(data.magnitude, Some("5.0".to_string()));
    // The strict setter takes the name as it is: no case folding here.
    assert!(data.set_field("Magnitude", "6.0".to_string()).is_err());
    assert_eq!(data.magnitude, Some("5.0".to_string()));
    data.put(Field::Wilayah, "Banten".to_string());
    assert_eq!(data.wilayah, Some("Banten".to_string()));
    assert_eq!(Field::from_name("potensi"), Some(Field::Potensi));
    assert_eq!(Field::from_name("Potensi"), None);
    assert!(Field::is_tag(b"Potensi"));
    assert!(Field::is_tag(b"coordinates"));
    assert!(!Field::is_tag(b"potensi"));
    assert!(!Field::is_tag(b"Coordinates"));
}

#[test]
fn gempa_decode_events() {
    let events = vec![
        Event::Field { key: "Tanggal".to_string(), text: "1".to_string() },
        Event::Field { key: "Shakemap".to_string(), text: "a.jpg".to_string() },
        Event::Field { key: "Tanggal x=\"1\"".to_string(), text: "ignored".to_string() },
        Event::End,
        Event::Field { key: "shakemap".to_string(), text: "b.jpg".to_string() },
        Event::End,
        Event::Field { key: "Jam".to_string(), text: "never closed".to_string() },
    ];
    let records = decode(events);

    assert_eq!(records.len(), 2);
    assert_eq!(records[0].tanggal, Some("1".to_string()));
    assert_eq!(
        records[0].shakemap,
        Some("https://data.bmkg.go.id/DataMKG/TEWS/a.jpg".to_string())
    );
    // Only the element spelled with a capital gets the address in front.
    assert_eq!(records[1].shakemap, Some("b.jpg".to_string()));
    assert_eq!(records[1].tanggal, None);
}

#[test]
fn gempa_url_addresses() {
    assert_eq!(
        Url::Autogempa.to_str(),
        "https://data.bmkg.go.id/DataMKG/TEWS/autogempa.xml"
    );
    assert_eq!(
        Url::GempaTerkini.to_str(),
        "https://data.bmkg.go.id/DataMKG/TEWS/gempaterkini.xml"
    );
    assert_eq!(
        Url::GempaDirasakan.to_str(),
        "https://data.bmkg.go.id/DataMKG/TEWS/gempadirasakan.xml"
    );
}

#[test]
fn gempa_url_names_ignore_case() {
    assert_eq!(Url::from_str("AutoGempa"), Some(Url::Autogempa));
    assert_eq!(Url::from_str("GEMPADIRASAKAN"), Some(Url::GempaDirasakan));
    assert_eq!(Url::from_str("gempa"), None);
    assert_eq!(Url::from_str(""), None);
    assert_eq!(Url::from_lowercase("autogempa"), Some(Url::Autogempa));
    assert_eq!(Url::from_lowercase("AutoGempa"), None);
}

#[test]
fn autogempa_lenient_setter() {
    let mut data = Autogempa::new();
    data.set("Magnitude", "5.5");
    data.set("nothing", "x");
    data.set("magnitude", "5.6");

    assert_eq!(data.magnitude, Some("5.6".to_string()));
    assert_eq!(data.tanggal, None);
}

#[test]
fn autogempa_parse_whole_feed() {
    let data = "<Infogempa><gempa><Tanggal>30-Jul-20</Tanggal><Jam>09:51:20 WIB</Jam>\
        <Shakemap>x.jpg</Shakemap></gempa></Infogempa>";
    let found = bmkg::gempa::autogempa::parse_data(data).unwrap();

    assert_eq!(found.tanggal, Some("30-Jul-20".to_string()));
    assert_eq!(found.jam, Some("09:51:20 WIB".to_string()));
    assert_eq!(found.shakemap, Some("x.jpg".to_string()));
}

#[test]
fn autogempa_unterminated_tag_is_malformed() {
    let err = bmkg::gempa::autogempa::parse_data("<Tanggal>30-Jul-20").unwrap_err();

    assert_eq!(err.kind(), bmkg::ErrorKind::MalformedInput);
}
