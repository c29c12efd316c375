use backtrace::Backtrace;
use sunscreen_compiler::lookup::{Error, StackFrameInfo, StackFrameLookup};

fn frame(name: &str, file: &str, line: u32, col: u32) -> StackFrameInfo {
    StackFrameInfo {
        callee_name: name.to_string(),
        callee_file: file.to_string(),
        callee_lineno: line,
        callee_col: col,
    }
}

#[test]
fn serialize_joins_name_file_and_line() {
    let f = frame("foo", "bar.rs", 42, 7);
    assert_eq!(f.serialize(), "foo-bar.rs-42");
}

#[test]
fn serialize_zero_and_large_line_numbers() {
    assert_eq!(frame("f", "g", 0, 0).serialize(), "f-g-0");
    assert_eq!(frame("f", "g", 4294967295, 0).serialize(), "f-g-4294967295");
}

#[test]
fn identical_traces_share_one_id() {
    let mut lookup = StackFrameLookup::new();
    let trace = vec![frame("a", "x.rs", 1, 2), frame("b", "y.rs", 3, 4)];
    let copy = vec![frame("a", "x.rs", 1, 2), frame("b", "y.rs", 3, 4)];
    let id1 = lookup.data_to_id(&trace);
    let id2 = lookup.data_to_id(&copy);
    assert_eq!(id1, id2);
    assert_eq!(lookup.data_id_lookup.len(), 1);
}

#[test]
fn distinct_traces_get_distinct_ids() {
    let mut lookup = StackFrameLookup::new();
    let trace1 = vec![frame("a", "x.rs", 1, 2)];
    // The same frames except for one column: still a distinct trace.
    let trace2 = vec![frame("a", "x.rs", 1, 3)];
    let id1 = lookup.data_to_id(&trace1);
    let id2 = lookup.data_to_id(&trace2);
    assert_ne!(id1, id2);
    assert_eq!(lookup.id_to_data(id1).unwrap(), trace1);
    assert_eq!(lookup.id_to_data(id2).unwrap(), trace2);
}

#[test]
fn unknown_id_is_reported() {
    let lookup = StackFrameLookup::new();
    assert_eq!(lookup.id_to_data(0).unwrap_err(), Error::IdNotFound);
    let mut lookup = StackFrameLookup::new();
    let id = lookup.data_to_id(&vec![frame("a", "x.rs", 1, 2)]);
    assert_eq!(lookup.id_to_data(id + 1).unwrap_err(), Error::IdNotFound);
}

#[test]
fn captured_backtrace_round_trips_through_the_store() {
    let lookup = StackFrameLookup::new();
    let bt = Backtrace::new();
    let trace = lookup.backtrace_to_stackframes(&bt);
    assert!(!trace.is_empty());
    let mut lookup = lookup;
    let id = lookup.data_to_id(&trace);
    let resolved = lookup.id_to_data(id).unwrap();
    assert_eq!(resolved, trace);
    // Inserting the same capture again reuses the id.
    assert_eq!(lookup.data_to_id(&trace), id);
}
