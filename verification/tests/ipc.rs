use codex_tui::app_event::{AppEvent, VscodeSelectionInfo};
use codex_tui::ipc::{
    ipc_path_from_json, ipc_path_from_marker, IpcReader, IpcWriter, ReaderInput, ReaderOutput,
    ReaderStep, WriterInput, WriterStep,
};

#[test]
fn marker_advertises_the_path() {
    assert_eq!(
        ipc_path_from_marker(r#"{"ipc_path":"/home/u/.codex/ide/codex-ipc.sock","pid":1}"#),
        Some("/home/u/.codex/ide/codex-ipc.sock".to_string())
    );
    let v: serde_json::Value = serde_json::from_str(r#"{"ipc_path":"p"}"#).unwrap();
    assert_eq!(ipc_path_from_json(&v), Some("p".to_string()));
}

#[test]
fn marker_without_a_path_advertises_nothing() {
    for marker in ["", "{", "{}", "[]", r#"{"ipc_path":7}"#, r#"{"ipc_path":null}"#, "\"ipc_path\""]
    {
        assert_eq!(ipc_path_from_marker(marker), None);
    }
}

#[test]
fn reader_connects_reads_and_connects_again() {
    let mut reader = IpcReader::new();
    assert_eq!(reader.step(), ReaderStep::Connect);
    assert_eq!(
        reader.handle(ReaderInput::ConnectFailed),
        ReaderOutput { event: None, pause: 500 }
    );
    assert_eq!(reader.step(), ReaderStep::Connect);
    assert_eq!(
        reader.handle(ReaderInput::Connected),
        ReaderOutput {
            event: Some(AppEvent::LatestLog("__SET_IDE_CONNECTED__".to_string())),
            pause: 0
        }
    );
    assert_eq!(reader.step(), ReaderStep::ReadLine);
    assert_eq!(
        reader.handle(ReaderInput::Line("{\"lines\":3}\r\n".to_string())),
        ReaderOutput {
            event: Some(AppEvent::VscodeSelectionUpdate(Some(VscodeSelectionInfo {
                lines: 3,
                characters: 0,
                text: None,
                rel_path: None,
                language_id: None,
                start_line: None,
                end_line: None,
            }))),
            pause: 0
        }
    );
    assert_eq!(reader.step(), ReaderStep::ReadLine);
    assert_eq!(
        reader.handle(ReaderInput::EndOfStream),
        ReaderOutput { event: None, pause: 200 }
    );
    assert_eq!(reader.step(), ReaderStep::Connect);
}

#[test]
fn reader_skips_empty_lines() {
    let mut reader = IpcReader::new();
    reader.handle(ReaderInput::Connected);
    for line in ["\n", "\r\n", "\n\r", ""] {
        assert_eq!(
            reader.handle(ReaderInput::Line(line.to_string())),
            ReaderOutput { event: None, pause: 0 }
        );
        assert_eq!(reader.step(), ReaderStep::ReadLine);
    }
}

#[test]
fn reader_takes_blanks_for_no_json() {
    let mut reader = IpcReader::new();
    reader.handle(ReaderInput::Connected);
    assert_eq!(
        reader.handle(ReaderInput::Line(" \n".to_string())),
        ReaderOutput { event: Some(AppEvent::VscodeSelectionUpdate(None)), pause: 0 }
    );
}

#[test]
fn writer_writes_each_line_with_a_line_feed() {
    let mut writer = IpcWriter::new();
    assert_eq!(writer.step(), WriterStep::Receive);
    assert_eq!(writer.handle(WriterInput::Received("one".to_string())), 0);
    assert_eq!(writer.step(), WriterStep::Connect);
    assert_eq!(writer.handle(WriterInput::ConnectFailed), 300);
    assert_eq!(writer.step(), WriterStep::Connect);
    assert_eq!(writer.handle(WriterInput::Connected), 0);
    assert_eq!(writer.step(), WriterStep::Write("one\n".to_string()));
    assert_eq!(writer.handle(WriterInput::Written), 0);
    assert_eq!(writer.step(), WriterStep::Receive);
    assert_eq!(writer.handle(WriterInput::Received("two".to_string())), 0);
    assert_eq!(writer.step(), WriterStep::Write("two\n".to_string()));
}

#[test]
fn writer_writes_a_line_again_after_a_failure() {
    let mut writer = IpcWriter::new();
    writer.handle(WriterInput::Received("one".to_string()));
    writer.handle(WriterInput::Connected);
    assert_eq!(writer.handle(WriterInput::WriteFailed), 200);
    assert_eq!(writer.step(), WriterStep::Connect);
    writer.handle(WriterInput::Connected);
    assert_eq!(writer.step(), WriterStep::Write("one\n".to_string()));
    writer.handle(WriterInput::Written);
    assert_eq!(writer.step(), WriterStep::Receive);
}

#[test]
fn writer_stops_when_no_line_can_come() {
    let mut writer = IpcWriter::new();
    assert_eq!(writer.handle(WriterInput::Closed), 0);
    assert_eq!(writer.step(), WriterStep::Stop);
}

#[test]
fn writer_loses_no_line_on_a_bad_connection() {
    let mut writer = IpcWriter::new();
    let mut waiting = vec!["c", "b", "a"];
    let mut written: Vec<String> = Vec::new();
    let mut round = 0u32;
    loop {
        round += 1;
        let input = match writer.step() {
            WriterStep::Receive => match waiting.pop() {
                Some(line) => WriterInput::Received(line.to_string()),
                None => WriterInput::Closed,
            },
            WriterStep::Connect => {
                if round % 3 == 0 {
                    WriterInput::Connected
                } else {
                    WriterInput::ConnectFailed
                }
            }
            WriterStep::Write(text) => {
                if round % 2 == 0 {
                    written.push(text);
                    WriterInput::Written
                } else {
                    WriterInput::WriteFailed
                }
            }
            WriterStep::Stop => break,
        };
        writer.handle(input);
    }
    assert_eq!(written, vec!["a\n", "b\n", "c\n"]);
}
