use linenoise::engine::{
    clear_screen, dimensions, history_add, history_free, history_line, history_load,
    history_save, history_set_max_len, input, print_key_codes, set_multiline, EngineCall,
};
use linenoise::text::owned_copy;

#[test]
fn input_lays_out_the_prompt() {
    assert_eq!(input("hello > "), EngineCall::ReadLine(b"hello > \0".to_vec()));
    assert_eq!(input(""), EngineCall::ReadLine(vec![0]));
}

#[test]
fn history_add_lays_out_the_line() {
    assert_eq!(history_add("foo"), EngineCall::HistoryAdd(b"foo\0".to_vec()));
}

#[test]
fn history_add_then_history_line_round_trip() {
    // The engine stores the bytes up to the terminator and hands them back.
    let stored = match history_add("foo") {
        EngineCall::HistoryAdd(bytes) => bytes[..bytes.len() - 1].to_vec(),
        other => panic!("not a history add: {:?}", other),
    };
    assert_eq!(history_line(0), EngineCall::HistoryLine(0));
    assert_eq!(owned_copy(Some(&stored[..])), Some(String::from("foo")));
}

#[test]
fn history_line_outside_the_history_is_no_value() {
    assert_eq!(history_line(7), EngineCall::HistoryLine(7));
    assert_eq!(owned_copy(None), None);
}

#[test]
fn history_set_max_len_passes_any_length() {
    assert_eq!(history_set_max_len(2), EngineCall::HistorySetMaxLen(2));
    assert_eq!(history_set_max_len(0), EngineCall::HistorySetMaxLen(0));
    assert_eq!(history_set_max_len(-1), EngineCall::HistorySetMaxLen(-1));
    assert_eq!(history_set_max_len(i32::MAX), EngineCall::HistorySetMaxLen(i32::MAX));
}

#[test]
fn history_save_and_load_lay_out_the_file_name() {
    assert_eq!(history_save("history.txt"), EngineCall::HistorySave(b"history.txt\0".to_vec()));
    assert_eq!(history_load("history.txt"), EngineCall::HistoryLoad(b"history.txt\0".to_vec()));
    assert_ne!(history_save("a"), history_load("a"));
}

#[test]
fn history_line_passes_the_index() {
    assert_eq!(history_line(0), EngineCall::HistoryLine(0));
    assert_eq!(history_line(-3), EngineCall::HistoryLine(-3));
}

#[test]
fn calls_without_text() {
    assert_eq!(history_free(), EngineCall::HistoryFree);
    assert_eq!(clear_screen(), EngineCall::ClearScreen);
    assert_eq!(print_key_codes(), EngineCall::PrintKeyCodes);
    assert_eq!(set_multiline(1), EngineCall::SetMultiLine(1));
    assert_eq!(set_multiline(0), EngineCall::SetMultiLine(0));
}

#[test]
fn dimensions_asks_for_columns_then_rows() {
    assert_eq!(dimensions(), (EngineCall::GetWidth, EngineCall::GetHeight));
}

#[test]
fn capped_history_scenario_is_asked_of_the_engine_in_order() {
    let calls = vec![
        history_set_max_len(2),
        history_add("a"),
        history_add("b"),
        history_add("c"),
        history_line(0),
    ];
    assert_eq!(
        calls,
        vec![
            EngineCall::HistorySetMaxLen(2),
            EngineCall::HistoryAdd(vec![b'a', 0]),
            EngineCall::HistoryAdd(vec![b'b', 0]),
            EngineCall::HistoryAdd(vec![b'c', 0]),
            EngineCall::HistoryLine(0),
        ]
    );
}
