use bruss_router::data::AreaType;
use bruss_router::number::{parse_u16, to_decimal};
use bruss_router::params::{
    located, routes_filter, stop_trips_filter, AreaQuery, FormatSelect, FormatSelectParseError,
    FromStringFormField, Id, ParamError, ParamQuery, RouteQuery, StopPairs, StopPairsParseError,
    StopQuery,
};
use bruss_router::query::DBQuery;
use bruss_router::text::{dedup, has_name, is_whitespace, same_text, split_at, trim};
use bson::{Bson, Document};

fn doc1(key: &str, value: impl Into<Bson>) -> Document {
    let mut d = Document::new();
    d.insert(key, value);
    d
}

fn doc_of(entries: Vec<(&str, Bson)>) -> Document {
    let mut d = Document::new();
    for (k, v) in entries {
        d.insert(k, v);
    }
    d
}

fn shown(d: &Document) -> String {
    format!("{:?}", d)
}

fn strings(list: &[&str]) -> Vec<String> {
    list.iter().map(|s| s.to_string()).collect()
}

#[test]
fn to_decimal_writes_numbers() {
    for n in [0u16, 1, 9, 10, 11, 99, 100, 101, 999, 1000, 9999, 10000, 12345, 60000, 65535] {
        assert_eq!(to_decimal(n), n.to_string());
    }
}

#[test]
fn parse_u16_reads_what_std_reads() {
    for text in [
        "0", "7", "+7", "007", "65535", "+65535", "065535", "65536", "99999", "100000",
        "4294967296", "18446744073709551616", "", "+", "-", "-1", "+-1", "++1", " 1", "1 ", "1a",
        "a1", "1-2", "１２", "٣", "1_000", "0x10", "1e3", "+0", "00000000000000000000000000001",
    ] {
        assert_eq!(parse_u16(text), text.parse::<u16>().ok(), "for {:?}", text);
    }
}

#[test]
fn parse_u16_reads_back_every_number() {
    for n in 0..=u16::MAX {
        assert_eq!(parse_u16(&to_decimal(n)), Some(n));
    }
}

#[test]
fn split_at_is_like_std_split() {
    for text in ["", ",", "a", "a,b", "a,,b", ",a", "a,", ",,", "ab,cd,ef", "è,日本,", "a-b,c-d"] {
        let expected: Vec<String> = text.split(',').map(|s| s.to_string()).collect();
        assert_eq!(split_at(text, ','), expected, "for {:?}", text);
    }
    assert_eq!(split_at("1-2-3", '-'), strings(&["1", "2", "3"]));
}

#[test]
fn dedup_keeps_the_first_of_each() {
    assert_eq!(dedup(strings(&["a", "b", "a", "c", "b", "a"])), strings(&["a", "b", "c"]));
    assert_eq!(dedup(strings(&[])), strings(&[]));
    assert_eq!(dedup(strings(&["x", "x", "x"])), strings(&["x"]));
    assert_eq!(dedup(strings(&["", "a", ""])), strings(&["", "a"]));
}

#[test]
fn text_is_compared_by_content() {
    assert!(same_text("abc", "abc"));
    assert!(!same_text("abc", "abd"));
    assert!(!same_text("abc", "ab"));
    assert!(same_text("", ""));
    assert!(has_name(&strings(&["a", "b"]), "b"));
    assert!(!has_name(&strings(&["a", "b"]), "c"));
    assert!(!has_name(&strings(&[]), ""));
}

#[test]
fn area_type_text_round_trip() {
    assert_eq!(AreaType::E.as_str(), "e");
    assert_eq!(AreaType::U.as_str(), "u");
    assert_eq!(AreaType::parse("e"), Some(AreaType::E));
    assert_eq!(AreaType::parse("u"), Some(AreaType::U));
    for bad in ["", "E", "U", "eu", "urban", " e", "é"] {
        assert_eq!(AreaType::parse(bad), None);
    }
}

#[test]
fn form_field_reads_a_classification_or_names_the_field() {
    let f = FromStringFormField::<AreaType>::from_value("type", "u").unwrap();
    assert_eq!(f.into_inner(), AreaType::U);
    match FromStringFormField::<AreaType>::from_value("type", "x") {
        Err(m) => assert_eq!(m, "invalid conversion for field type: x"),
        Ok(_) => panic!("x is no classification"),
    }
}

#[test]
fn form_field_gives_back_its_value() {
    assert_eq!(FromStringFormField::new(5u8).into_inner(), 5);
    assert_eq!(FromStringFormField::new("a".to_string()).into_inner(), "a");
    assert_eq!(FromStringFormField::new(AreaType::E).into_bson(), Bson::String("e".to_string()));
    assert_eq!(FromStringFormField::new(AreaType::U).into_bson(), Bson::String("u".to_string()));
}

#[test]
fn numeric_id_reads_a_number() {
    let id = Id::<u16>::from_param("402").unwrap();
    assert_eq!(id.key(), "id");
    assert_eq!(Id::<u16>::from_param("402").unwrap().value(), 402i32);
    assert_eq!(shown(&id.to_doc()), shown(&doc1("id", 402i32)));
    assert_eq!(Id::<u16>::from_param("65535").unwrap().value(), 65535i32);
    assert!(Id::<u16>::from_param("65536").is_err());
    assert!(Id::<u16>::from_param("abc").is_err());
    assert!(Id::<u16>::from_param("").is_err());
}

#[test]
fn string_id_takes_any_text() {
    let id = Id::<String>::from_param("0004306762025061320250909").unwrap();
    assert_eq!(id.key(), "id");
    assert_eq!(shown(&id.to_doc()), shown(&doc1("id", "0004306762025061320250909")));
    assert_eq!(Id::<String>::from_param("").unwrap().value(), "");
}

#[test]
fn area_type_id_reads_a_classification() {
    let id = Id::<FromStringFormField<AreaType>>::from_param("e").unwrap();
    assert_eq!(id.key(), "type");
    assert_eq!(shown(&id.to_doc()), shown(&doc1("type", "e")));
    let id = Id::<FromStringFormField<AreaType>>::from_param("u").unwrap();
    assert_eq!(id.value().into_inner(), AreaType::U);
    assert!(Id::<FromStringFormField<AreaType>>::from_param("x").is_err());
}

#[test]
fn located_filter_has_id_then_type() {
    let d = located(
        Id::<u16>::from_param("12").unwrap(),
        Id::<FromStringFormField<AreaType>>::from_param("u").unwrap(),
    );
    assert_eq!(shown(&d), shown(&doc_of(vec![("id", 12i32.into()), ("type", "u".into())])));
}

#[test]
fn area_and_stop_queries_filter_by_type() {
    let q = AreaQuery { ty: Some(FromStringFormField::new(AreaType::U)) };
    assert_eq!(shown(&q.to_doc()), shown(&doc1("type", "u")));
    assert_eq!(shown(&AreaQuery { ty: None }.to_doc()), shown(&Document::new()));
    let q = StopQuery { ty: Some(FromStringFormField::new(AreaType::E)) };
    assert_eq!(shown(&q.to_doc()), shown(&doc1("type", "e")));
    assert_eq!(shown(&StopQuery { ty: None }.to_doc()), shown(&Document::new()));
}

#[test]
fn route_query_lists_its_conditions_in_order() {
    let q = RouteQuery {
        ty: Some(FromStringFormField::new(AreaType::U)),
        id: Some(vec![3, 1, 65535]),
        area: Some(23),
    };
    assert_eq!(
        shown(&q.to_doc()),
        shown(&doc_of(vec![
            ("area_ty", "u".into()),
            ("area", 23i32.into()),
            ("id", doc1("$in", vec![3i32, 1, 65535]).into()),
        ]))
    );
    let q = RouteQuery { ty: None, id: Some(vec![]), area: None };
    assert_eq!(shown(&q.to_doc()), shown(&doc1("id", doc1("$in", Vec::<Bson>::new()))));
    let q = RouteQuery { ty: None, id: None, area: Some(0) };
    assert_eq!(shown(&q.to_doc()), shown(&doc1("area", 0i32)));
    let q = RouteQuery { ty: None, id: None, area: None };
    assert_eq!(shown(&q.to_doc()), shown(&Document::new()));
}

#[test]
fn stop_trips_filter_asks_for_trips_that_call_at_the_stop() {
    let calls: Vec<Bson> = vec![
        doc1("times.2005", doc1("$exists", true)).into(),
        doc1("times.2005", doc1("$exists", true)).into(),
    ];
    assert_eq!(
        shown(&stop_trips_filter(AreaType::U, 2005)),
        shown(&doc_of(vec![("type", "u".into()), ("$or", calls.into())]))
    );
}

#[test]
fn routes_filter_lists_the_routes() {
    assert_eq!(
        shown(&routes_filter(&vec![5, 3, 400])),
        shown(&doc1("id", doc1("$in", vec![5i32, 3, 400])))
    );
}

#[test]
fn format_is_poly_or_coords() {
    assert_eq!(FormatSelect::from_param("poly").ok(), Some(FormatSelect::Polyline));
    assert_eq!(FormatSelect::from_param("coords").ok(), Some(FormatSelect::Coords));
    for bad in ["", "Poly", "polyline", "coord", "coords "] {
        match FormatSelect::from_param(bad) {
            Err(ParamError(FormatSelectParseError)) => {}
            Ok(_) => panic!("{:?} names no format", bad),
        }
    }
    assert_eq!(FormatSelect::default_format(), FormatSelect::Coords);
}

fn pairs(text: &str) -> Result<Vec<(u16, u16)>, StopPairsParseError> {
    match StopPairs::from_param(text) {
        Ok(p) => Ok(p.0),
        Err(ParamError(e)) => Err(e),
    }
}

#[test]
fn stop_pairs_are_read_in_order() {
    assert_eq!(pairs("1-2"), Ok(vec![(1, 2)]));
    assert_eq!(pairs("1-2,3-4,65535-0"), Ok(vec![(1, 2), (3, 4), (65535, 0)]));
    assert_eq!(pairs("+1-+2"), Ok(vec![(1, 2)]));
    assert_eq!(pairs("2-2,2-2"), Ok(vec![(2, 2), (2, 2)]));
}

#[test]
fn empty_pieces_of_stop_pairs_are_passed_over() {
    assert_eq!(pairs(""), Ok(vec![]));
    assert_eq!(pairs(","), Ok(vec![]));
    assert_eq!(pairs(",1-2,,3-4,"), Ok(vec![(1, 2), (3, 4)]));
}

#[test]
fn stop_pairs_need_two_parts() {
    assert_eq!(pairs("1"), Err(StopPairsParseError::InvalidPair));
    assert_eq!(pairs("1-2-3"), Err(StopPairsParseError::InvalidPair));
    assert_eq!(pairs("1-2,3"), Err(StopPairsParseError::InvalidPair));
    assert_eq!(pairs("abc"), Err(StopPairsParseError::InvalidPair));
}

#[test]
fn stop_pairs_need_numbers() {
    assert_eq!(pairs("a-2"), Err(StopPairsParseError::ParseInt));
    assert_eq!(pairs("1-b"), Err(StopPairsParseError::ParseInt));
    assert_eq!(pairs("1-"), Err(StopPairsParseError::ParseInt));
    assert_eq!(pairs("-2"), Err(StopPairsParseError::ParseInt));
    assert_eq!(pairs("-"), Err(StopPairsParseError::ParseInt));
    assert_eq!(pairs("1-65536"), Err(StopPairsParseError::ParseInt));
    assert_eq!(pairs("1- 2"), Err(StopPairsParseError::ParseInt));
}

#[test]
fn first_bad_piece_of_stop_pairs_decides() {
    assert_eq!(pairs("1-2,x-3,4"), Err(StopPairsParseError::ParseInt));
    assert_eq!(pairs("1-2,4,x-3"), Err(StopPairsParseError::InvalidPair));
}

#[test]
fn stop_pairs_filter_lists_the_segments() {
    let d = StopPairs(vec![(1, 2), (65535, 4)]).to_doc(FromStringFormField::new(AreaType::U));
    let either: Vec<Bson> = vec![
        doc_of(vec![("from", 1i32.into()), ("to", 2i32.into())]).into(),
        doc_of(vec![("from", 65535i32.into()), ("to", 4i32.into())]).into(),
    ];
    assert_eq!(shown(&d), shown(&doc_of(vec![("$or", either.into()), ("type", "u".into())])));
}

#[test]
fn stop_pairs_filter_without_pairs_matches_nothing() {
    let d = StopPairs(vec![]).to_doc(FromStringFormField::new(AreaType::E));
    assert_eq!(shown(&d), shown(&doc1("type", "nope")));
}

#[test]
fn trim_is_like_std_trim() {
    for text in [
        "",
        " ",
        "a",
        " a",
        "a ",
        "  a b  ",
        "\t\n a\r\n",
        "\u{a0}x\u{3000}",
        "\u{2000}\u{200a}y\u{2028}\u{2029}",
        "\u{200b}z\u{200b}",
        " \u{85}\u{1680}\u{202f}\u{205f} ",
        "è 日本 ",
    ] {
        assert_eq!(trim(text), text.trim(), "for {:?}", text);
    }
}

#[test]
fn white_space_is_what_std_takes_for_it() {
    for n in 0..=0x11_0000u32 {
        if let Some(c) = char::from_u32(n) {
            assert_eq!(is_whitespace(c), c.is_whitespace(), "for {:?}", c);
        }
    }
}
