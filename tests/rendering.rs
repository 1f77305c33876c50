use std::cell::RefCell;

use fluvio_output::decimal::i64_to_decimal;
use fluvio_output::doc::Doc;
use fluvio_output::decimal::u64_to_decimal;
use fluvio_output::handler::describe_text;
use fluvio_output::handler::key_values_text;
use fluvio_output::handler::list_text;
use fluvio_output::handler::table_text;
use fluvio_output::handler::KeyValOutputHandler;
use fluvio_output::handler::SerializeOutput;
use fluvio_output::handler::TableOutputHandler;
use fluvio_output::listing::Listing;
use fluvio_output::listing::ListingEntry;
use fluvio_output::output_type::OutputType;
use fluvio_output::output_type::SerializeType;
use fluvio_output::serde_render::serde_text;
use fluvio_output::serde_render::terminate_line;
use fluvio_output::spu_group::spu_group_output_text;
use fluvio_output::spu_group::spu_group_response_to_output;
use fluvio_output::spu_group::ListSpuGroups;
use fluvio_output::spu_group::SpuGroupRecord;
use fluvio_output::table::key_value_rows;
use fluvio_output::table::remove_escapes;
use fluvio_output::table::table_rows;
use fluvio_output::table::Alignment;
use fluvio_output::table::Cell;
use fluvio_output::table::Row;
use fluvio_output::terminal::Terminal;

fn entry(cells: &[&str], error: &str) -> ListingEntry {
    ListingEntry {
        row: Row::new(cells.iter().map(|c| Cell::new(c)).collect()),
        error: error.to_string(),
    }
}

fn two_groups() -> Listing {
    Listing {
        summary: vec![
            ("Name".to_string(), Some("g1".to_string())),
            ("Status".to_string(), None),
        ],
        header: Row::new(vec![Cell::new("NAME"), Cell::new("STATUS")]),
        entries: vec![entry(&["g1", "Ready"], ""), entry(&["g2", "Error"], "disk full")],
    }
}

fn two_groups_value() -> serde_json::Value {
    let items: Vec<serde_json::Value> = [("g1", "Ready"), ("g2", "Error")]
        .iter()
        .map(|(n, s)| {
            let mut m = serde_json::Map::new();
            m.insert("NAME".to_string(), serde_json::Value::from(*n));
            m.insert("STATUS".to_string(), serde_json::Value::from(*s));
            serde_json::Value::Object(m)
        })
        .collect();
    serde_json::Value::Array(items)
}

struct Recorder {
    text: RefCell<String>,
}

impl Terminal for Recorder {
    fn print(&self, msg: &str) {
        self.text.borrow_mut().push_str(msg);
    }

    fn println(&self, msg: &str) {
        self.text.borrow_mut().push_str(msg);
        self.text.borrow_mut().push('\n');
    }
}

fn recorder() -> Recorder {
    Recorder { text: RefCell::new(String::new()) }
}

fn group(name: &str, replicas: u16, min_id: i32, rack: Option<&str>) -> SpuGroupRecord {
    SpuGroupRecord {
        name: name.to_string(),
        replicas,
        min_id,
        rack: rack.map(|r| r.to_string()),
        size: "10Gi".to_string(),
        status: "Reserved".to_string(),
        doc: Doc::Object(vec![
            ("name".to_string(), Doc::Str(name.to_string())),
            (
                "spec".to_string(),
                Doc::Object(vec![
                    ("replicas".to_string(), Doc::Uint(replicas as u64)),
                    ("minId".to_string(), Doc::Int(min_id as i64)),
                ]),
            ),
            ("status".to_string(), Doc::Null),
        ]),
    }
}

fn texts(row: &Row) -> Vec<String> {
    row.cells.iter().map(|c| c.text.clone()).collect()
}

#[test]
fn output_type_default_is_table() {
    assert_eq!(OutputType::default(), OutputType::table);
    assert!(OutputType::default().is_table());
}

#[test]
fn is_table_only_for_table() {
    assert!(OutputType::table.is_table());
    assert!(!OutputType::yaml.is_table());
    assert!(!OutputType::json.is_table());
}

#[test]
fn serialize_type_of_each_output_type() {
    assert_eq!(OutputType::table.serialize_type(), None);
    assert_eq!(OutputType::yaml.serialize_type(), Some(SerializeType::yaml));
    assert_eq!(OutputType::json.serialize_type(), Some(SerializeType::json));
}

#[test]
fn decimal_of_naturals() {
    assert_eq!(u64_to_decimal(0), "0");
    assert_eq!(u64_to_decimal(7), "7");
    assert_eq!(u64_to_decimal(10), "10");
    assert_eq!(u64_to_decimal(65535), "65535");
    assert_eq!(u64_to_decimal(u64::MAX), "18446744073709551615");
}

#[test]
fn decimal_of_integers() {
    assert_eq!(i64_to_decimal(-5), "-5");
    assert_eq!(i64_to_decimal(-120), "-120");
    assert_eq!(i64_to_decimal(42), "42");
    assert_eq!(i64_to_decimal(i64::MAX), "9223372036854775807");
}

#[test]
fn content_and_errors_same_length() {
    let g = two_groups();
    assert_eq!(g.content().len(), g.errors().len());
    let list = ListSpuGroups(vec![group("a", 1, 0, None), group("a", 2, 5, Some("r1"))]);
    assert_eq!(list.content().len(), 2);
    assert_eq!(list.errors().len(), 2);
    assert!(list.errors().iter().all(|e| e.is_empty()));
}

#[test]
fn table_rows_attach_error_to_its_row() {
    let g = two_groups();
    let rows = table_rows(&g.header(), &g.content(), &g.errors(), false);
    assert_eq!(rows.len(), 3);
    assert_eq!(texts(&rows[0]), vec!["NAME", "STATUS"]);
    assert_eq!(texts(&rows[1]), vec!["g1", "Ready"]);
    assert_eq!(texts(&rows[2]), vec!["g2", "Error", "disk full"]);
}

#[test]
fn table_rows_indented() {
    let g = two_groups();
    let rows = table_rows(&g.header(), &g.content(), &g.errors(), true);
    assert_eq!(texts(&rows[0]), vec!["", "NAME", "STATUS"]);
    assert_eq!(texts(&rows[2]), vec!["", "g2", "Error", "disk full"]);
}

#[test]
fn table_text_has_header_and_two_rows() {
    let text = table_text(&two_groups(), false);
    let lines: Vec<&str> = text.lines().collect();
    assert_eq!(lines.len(), 3);
    assert!(lines[0].contains("NAME") && lines[0].contains("STATUS"));
    assert!(lines[1].contains("g1") && lines[1].contains("Ready"));
    assert!(!lines[1].contains("disk full"));
    assert!(lines[2].contains("g2") && lines[2].contains("disk full"));
}

#[test]
fn list_in_table_mode_is_the_table() {
    let g = two_groups();
    let text = list_text(&g, OutputType::table).unwrap();
    assert_eq!(text, table_text(&g, false));
}

#[test]
fn list_in_yaml_mode_is_a_two_entry_sequence() {
    let g = two_groups();
    let text = list_text(&g, OutputType::yaml).unwrap();
    let doc: serde_yaml::Value = serde_yaml::from_str(&text).unwrap();
    let seq = doc.as_sequence().unwrap();
    assert_eq!(seq.len(), 2);
    assert_eq!(seq[0]["NAME"].as_str(), Some("g1"));
    assert_eq!(seq[1]["STATUS"].as_str(), Some("Error"));
}

#[test]
fn listing_document_keys_cells_by_header() {
    let text = serde_text(&two_groups().to_doc(), SerializeType::json).unwrap();
    let back: serde_json::Value = serde_json::from_str(&text).unwrap();
    assert_eq!(back, two_groups_value());
}

#[test]
fn json_output_parses_back() {
    let g = two_groups();
    let text = list_text(&g, OutputType::json).unwrap();
    assert!(text.ends_with('\n'));
    let back: serde_json::Value = serde_json::from_str(&text).unwrap();
    assert_eq!(back, two_groups_value());
}

#[test]
fn yaml_output_parses_back() {
    let g = two_groups();
    let text = serde_text(&g.to_doc(), SerializeType::yaml).unwrap();
    assert!(text.ends_with('\n'));
    let back: serde_json::Value = serde_yaml::from_str(&text).unwrap();
    assert_eq!(back, two_groups_value());
}

#[test]
fn json_output_is_pretty() {
    let text = serde_text(&two_groups().to_doc(), SerializeType::json).unwrap();
    assert!(text.starts_with("[\n"));
    assert!(text.contains("    \"NAME\": \"g1\""));
}

#[test]
fn terminate_line_adds_one_break() {
    assert_eq!(terminate_line("abc".to_string()), "abc\n");
    assert_eq!(terminate_line("abc\n".to_string()), "abc\n");
    assert_eq!(terminate_line(String::new()), "\n");
}

#[test]
fn key_value_rows_three_or_one_column() {
    let pairs = two_groups().key_values();
    let rows = key_value_rows(&pairs);
    assert_eq!(rows.len(), 2);
    assert_eq!(texts(&rows[0]), vec!["Name", ":", "g1"]);
    assert_eq!(texts(&rows[1]), vec!["Status"]);
}

#[test]
fn key_values_text_has_two_lines() {
    let text = key_values_text(&two_groups());
    let lines: Vec<&str> = text.lines().collect();
    assert_eq!(lines.len(), 2);
    assert!(lines[0].contains("Name") && lines[0].contains(':') && lines[0].contains("g1"));
    assert_eq!(lines[1].trim(), "Status");
}

#[test]
fn render_key_values_prints_the_block() {
    let out = recorder();
    out.render_key_values(&two_groups());
    assert_eq!(*out.text.borrow(), key_values_text(&two_groups()));
}

#[test]
fn describe_in_table_mode_is_block_then_nested_table() {
    let objs = vec![two_groups()];
    let text = describe_text(&objs, OutputType::table).unwrap();
    let expected = format!("{}{}", key_values_text(&objs[0]), table_text(&objs[0], true));
    assert_eq!(text, expected);
}

#[test]
fn describe_in_json_mode_is_one_document() {
    let objs = vec![two_groups(), two_groups()];
    let text = describe_text(&objs, OutputType::json).unwrap();
    let back: serde_json::Value = serde_json::from_str(&text).unwrap();
    assert_eq!(back.as_array().unwrap().len(), 2);
    assert_eq!(back[1], two_groups_value());
}

#[test]
fn empty_group_list_prints_placeholder() {
    assert_eq!(spu_group_output_text(vec![], OutputType::table).unwrap(), "no groups\n");
    assert_eq!(spu_group_output_text(vec![], OutputType::json).unwrap(), "no groups\n");
    let out = recorder();
    spu_group_response_to_output(&out, vec![], OutputType::table).unwrap();
    assert_eq!(*out.text.borrow(), "no groups\n");
}

#[test]
fn group_rows_show_each_field() {
    let list = ListSpuGroups(vec![group("main", 3, -2, Some("r1")), group("main", 1, 0, None)]);
    let header = list.header();
    assert_eq!(texts(&header), vec!["NAME", "REPLICAS", "MIN ID", "RACK", "SIZE", "STATUS"]);
    let rows = list.content();
    assert_eq!(texts(&rows[0]), vec!["main", "3", "-2", "r1", "10Gi", "Reserved"]);
    assert_eq!(texts(&rows[1]), vec!["main", "1", "0", "", "10Gi", "Reserved"]);
    assert_eq!(rows[0].cells[0].align, Alignment::RIGHT);
    assert_eq!(rows[0].cells[1].align, Alignment::CENTER);
    assert_eq!(header.cells[0].align, Alignment::LEFT);
}

#[test]
fn group_list_in_table_mode() {
    let out = recorder();
    let groups = vec![group("g1", 2, 0, None)];
    spu_group_response_to_output(&out, groups, OutputType::table).unwrap();
    let text = out.text.borrow().clone();
    let lines: Vec<&str> = text.lines().collect();
    assert_eq!(lines.len(), 2);
    assert!(lines[0].contains("MIN ID"));
    assert!(lines[1].contains("g1") && lines[1].contains("Reserved"));
}

#[test]
fn group_list_in_json_mode() {
    let text = spu_group_output_text(vec![group("g1", 2, -1, Some("r9"))], OutputType::json).unwrap();
    let back: serde_json::Value = serde_json::from_str(&text).unwrap();
    assert_eq!(back.as_array().unwrap().len(), 1);
    assert_eq!(back[0]["name"].as_str(), Some("g1"));
    assert_eq!(back[0]["spec"]["replicas"].as_u64(), Some(2));
    assert_eq!(back[0]["spec"]["minId"].as_i64(), Some(-1));
    assert!(back[0]["status"].is_null());
}

#[test]
fn render_list_writes_to_terminal() {
    let out = recorder();
    out.render_list(&two_groups(), OutputType::yaml).unwrap();
    let doc: serde_yaml::Value = serde_yaml::from_str(&out.text.borrow()).unwrap();
    assert_eq!(doc.as_sequence().unwrap().len(), 2);
    let out = recorder();
    out.render_table(&two_groups(), false);
    assert_eq!(*out.text.borrow(), table_text(&two_groups(), false));
    let out = recorder();
    out.render_serde(&two_groups(), SerializeType::json).unwrap();
    assert!(out.text.borrow().ends_with("]\n"));
    let out = recorder();
    out.describe_objects(&[two_groups()], OutputType::table).unwrap();
    assert!(out.text.borrow().contains("disk full"));
}

#[test]
fn multi_line_cells_keep_their_lines() {
    let listing = Listing {
        summary: vec![],
        header: Row::new(vec![Cell::new("NAME"), Cell::new("STATUS")]),
        entries: vec![entry(&["g1\n", "Ready"], "disk full\r\nretry later")],
    };
    let text = table_text(&listing, false);
    assert!(text.contains("disk full"));
    assert!(text.contains("retry later"));
    assert!(!text.contains('\r'));
    let lines: Vec<&str> = text.lines().collect();
    assert_eq!(lines.len(), 3);
}

#[test]
fn yaml_group_list_is_a_sequence_of_groups() {
    let groups = vec![group("g1", 2, 0, None), group("g2", 3, 4, Some("r1"))];
    let text = spu_group_output_text(groups, OutputType::yaml).unwrap();
    let doc: serde_yaml::Value = serde_yaml::from_str(&text).unwrap();
    let seq = doc.as_sequence().unwrap();
    assert_eq!(seq.len(), 2);
    assert_eq!(seq[1]["name"].as_str(), Some("g2"));
    assert_eq!(seq[1]["spec"]["minId"].as_i64(), Some(4));
}

#[test]
fn document_of_every_node_kind() {
    let d = Doc::Object(vec![
        ("a".to_string(), Doc::Null),
        ("b".to_string(), Doc::Bool(true)),
        ("c".to_string(), Doc::Int(-3)),
        ("d".to_string(), Doc::List(vec![Doc::Uint(7), Doc::Str("x".to_string())])),
    ]);
    let text = serde_text(&d.duplicate(), SerializeType::json).unwrap();
    assert_eq!(text, "{\n  \"a\": null,\n  \"b\": true,\n  \"c\": -3,\n  \"d\": [\n    7,\n    \"x\"\n  ]\n}\n");
    let yaml = serde_text(&d, SerializeType::yaml).unwrap();
    assert_eq!(yaml, "a: null\nb: true\nc: -3\nd:\n- 7\n- x\n");
}

#[test]
fn escape_characters_are_removed_from_cells() {
    let listing = Listing {
        summary: vec![],
        header: Row::new(vec![Cell::new("NAME")]),
        entries: vec![entry(&["\u{1b}[\u{644}\u{627}\u{644}\u{627}"], "\u{1b}[31mdisk full")],
    };
    let text = table_text(&listing, false);
    assert!(!text.contains('\u{1b}'));
    assert!(text.contains("[31mdisk full"));
    assert!(text.contains("[\u{644}\u{627}\u{644}\u{627}"));
}

#[test]
fn remove_escapes_keeps_other_characters() {
    assert_eq!(remove_escapes("a\u{1b}b\u{1b}"), "ab");
    assert_eq!(remove_escapes(""), "");
    assert_eq!(remove_escapes("plain"), "plain");
}

#[test]
fn decimal_of_smallest_integer() {
    assert_eq!(i64_to_decimal(i64::MIN), "-9223372036854775808");
    assert_eq!(i64_to_decimal(-1), "-1");
}

#[test]
fn object_fields_keep_their_order() {
    let d = Doc::Object(vec![
        ("zeta".to_string(), Doc::Uint(1)),
        ("alpha".to_string(), Doc::Uint(2)),
    ]);
    let json = serde_text(&d, SerializeType::json).unwrap();
    assert_eq!(json, "{\n  \"zeta\": 1,\n  \"alpha\": 2\n}\n");
    let yaml = serde_text(&d, SerializeType::yaml).unwrap();
    assert_eq!(yaml, "zeta: 1\nalpha: 2\n");
}
