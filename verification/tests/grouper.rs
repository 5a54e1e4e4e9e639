use bmkg::grouper::{flatten, group, Flattener, Mark, Pair};

fn pair(tag: &str, text: &str) -> Pair {
    (tag.to_string(), text.to_string())
}

#[test]
fn group_of_nothing_is_nothing() {
    assert_eq!(group(vec![]), Vec::<Vec<Pair>>::new());
}

#[test]
fn group_boundary_rule() {
    let pairs = vec![pair("A", "1"), pair("B", "2"), pair("A", "3")];
    let expected = vec![vec![pair("A", "1"), pair("B", "2")], vec![pair("A", "3")]];

    assert_eq!(group(pairs), expected);
}

#[test]
fn group_single_record() {
    let pairs = vec![pair("A", "1"), pair("B", "2"), pair("C", "3"), pair("B", "4")];
    let records = group(pairs.clone());

    assert_eq!(records.len(), 1);
    assert_eq!(records[0], pairs);
}

#[test]
fn group_keeps_every_pair_in_order() {
    let pairs = vec![
        pair("T", "1"),
        pair("T", "2"),
        pair("x", "a"),
        pair("y", "b"),
        pair("T", "3"),
        pair("x", "c"),
    ];
    let records = group(pairs.clone());

    assert_eq!(records.len(), 3);
    assert_eq!(records[0], vec![pair("T", "1")]);
    assert_eq!(records[1], vec![pair("T", "2"), pair("x", "a"), pair("y", "b")]);
    assert_eq!(records[2], vec![pair("T", "3"), pair("x", "c")]);
    let joined: Vec<Pair> = records.into_iter().flatten().collect();
    assert_eq!(joined, pairs);
}

#[test]
fn group_is_case_sensitive() {
    let records = group(vec![pair("a", "1"), pair("A", "2")]);

    assert_eq!(records.len(), 1);
}

#[test]
fn flatten_unterminated_tag_gives_no_pairs() {
    assert_eq!(flatten("<Tanggal>30-Jul-20"), Vec::<Pair>::new());
}

#[test]
fn flatten_ignores_nesting() {
    let xml = "<Infogempa><gempa><Tanggal>30-Jul-20</Tanggal><Jam>09:51:20 WIB</Jam></gempa>\
        <gempa><Tanggal>31-Jul-20</Tanggal><point><coordinates>1,2</coordinates></point></gempa>\
        </Infogempa>";
    let pairs = flatten(xml);

    assert_eq!(
        pairs,
        vec![
            pair("Tanggal", "30-Jul-20"),
            pair("Jam", "09:51:20 WIB"),
            pair("Tanggal", "31-Jul-20"),
            pair("coordinates", "1,2"),
        ]
    );
    let records = group(pairs);
    assert_eq!(records.len(), 2);
    assert_eq!(records[0].len(), 2);
    assert_eq!(records[1].len(), 2);
}

#[test]
fn flatten_keeps_pairs_before_a_fault() {
    let pairs = flatten("<a>1</a><b>2</b><c>3</d>");

    assert_eq!(pairs, vec![pair("a", "1"), pair("b", "2")]);
}

#[test]
fn flatten_wants_text_right_after_the_tag() {
    // No character data, a comment in between, or text outside any element:
    // none of these makes a pair.
    assert_eq!(flatten("<a></a>"), Vec::<Pair>::new());
    assert_eq!(flatten("<a><!-- c -->1</a>"), Vec::<Pair>::new());
    assert_eq!(flatten("text<a/>"), Vec::<Pair>::new());
    assert_eq!(flatten("<a>&lt;1&gt;</a>"), vec![pair("a", "<1>")]);
    assert_eq!(flatten(String::from("<a> padded </a>")), vec![pair("a", "padded")]);
}

#[test]
fn flattener_in_isolation() {
    let mut flattener = Flattener::new();
    flattener.observe(Mark::Open { tag: "a".to_string() });
    flattener.observe(Mark::Open { tag: "b".to_string() });
    flattener.observe(Mark::Text { text: "1".to_string() });
    flattener.observe(Mark::Close);
    flattener.observe(Mark::Text { text: "stray".to_string() });
    flattener.observe(Mark::Close);
    flattener.observe(Mark::Open { tag: "c".to_string() });
    flattener.observe(Mark::Text { text: "2".to_string() });
    flattener.observe(Mark::Other);
    flattener.observe(Mark::Close);
    flattener.observe(Mark::Open { tag: "d".to_string() });
    flattener.observe(Mark::Text { text: "3".to_string() });
    flattener.observe(Mark::Text { text: "4".to_string() });
    flattener.observe(Mark::Close);

    assert_eq!(flattener.finish(), vec![pair("b", "1")]);
}

#[test]
fn flatten_tags_are_names() {
    let pairs = flatten("<a id=\"1\">x</a><a id=\"2\">y</a><b>z</b>");

    assert_eq!(pairs, vec![pair("a", "x"), pair("a", "y"), pair("b", "z")]);
    assert_eq!(group(pairs).len(), 2);
}
