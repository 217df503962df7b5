use std::path::PathBuf;

use codex_tui::chatwidget::ChatWidget;
use codex_tui::context::EventContext;
use codex_tui::effect::HistoryCell;
use codex_tui::layout::Rect;
use codex_tui::protocol::{Event, EventMsg};

fn widget(active: bool) -> ChatWidget {
    let (mut widget, _) = ChatWidget::new(None, Vec::new(), None, None, false);
    if active {
        let msg = EventMsg::ExecCommandBegin {
            call_id: "call".to_string(),
            command: vec!["ls".to_string()],
            cwd: PathBuf::from("/work"),
        };
        widget.handle_codex_event(Event { id: "id".to_string(), msg }, EventContext::empty());
    }
    widget
}

fn expected(area: Rect, max: u16, min: u16) -> [Rect; 2] {
    let rows = area.height.min(u16::MAX - area.y);
    let kept = if min > i16::MAX as u16 { 0 } else { min };
    let upper = max.min(rows.saturating_sub(kept));
    [
        Rect { height: upper, ..area },
        Rect { y: area.y + upper, height: rows - upper, ..area },
    ]
}

#[test]
fn areas_are_as_large_as_both_limits_allow() {
    let widget = widget(true);
    for height in 0..14 {
        for max in 0..14 {
            for min in 0..14 {
                let area = Rect { x: 2, y: 5, width: 40, height };
                assert_eq!(
                    widget.layout_areas(area, min, max),
                    expected(area, max, min),
                    "{height} {max} {min}"
                );
            }
        }
    }
}

#[test]
fn areas_at_the_limits() {
    let widget = widget(true);
    let numbers = [0, 1, 2, 24, 100, 32766, 32767, 32768, 40000, 65534, 65535];
    for y in [0, 1, 40000, 65534, 65535] {
        for height in numbers {
            for max in numbers {
                for min in numbers {
                    let area = Rect { x: 0, y, width: 80, height };
                    assert_eq!(
                        widget.layout_areas(area, min, max),
                        expected(area, max, min),
                        "{y} {height} {max} {min}"
                    );
                }
            }
        }
    }
}

#[test]
fn entry_in_progress_stands_above_the_pane() {
    let area = Rect { x: 0, y: 0, width: 80, height: 24 };
    assert_eq!(
        widget(true).layout_areas(area, 5, 3),
        [
            Rect { x: 0, y: 0, width: 80, height: 3 },
            Rect { x: 0, y: 3, width: 80, height: 21 },
        ]
    );
    assert_eq!(
        widget(false).layout_areas(area, 5, 3),
        [
            Rect { x: 0, y: 0, width: 80, height: 0 },
            Rect { x: 0, y: 0, width: 80, height: 24 },
        ]
    );
    assert_eq!(
        widget(true).layout_areas(area, 20, 10),
        [
            Rect { x: 0, y: 0, width: 80, height: 4 },
            Rect { x: 0, y: 4, width: 80, height: 20 },
        ]
    );
}

#[test]
fn desired_height_counts_the_entry_in_progress() {
    assert_eq!(widget(false).desired_height(5, 7), 5);
    assert_eq!(widget(true).desired_height(5, 7), 12);
    assert_eq!(widget(true).desired_height(65535, 0), 65535);
}

#[test]
fn cursor_is_where_the_pane_has_it() {
    let area = Rect { x: 1, y: 2, width: 80, height: 24 };
    let at_origin = |pane: Rect| Some((pane.x, pane.y));
    assert_eq!(widget(true).cursor_pos(area, 5, 3, at_origin), Some((1, 5)));
    assert_eq!(widget(false).cursor_pos(area, 5, 3, at_origin), Some((1, 2)));
    assert_eq!(widget(false).cursor_pos(area, 5, 3, |_| None), None);
}

#[test]
fn entry_in_progress_can_be_had() {
    assert_eq!(widget(false).active_history_cell(), None);
    assert_eq!(
        widget(true).active_history_cell(),
        Some(&HistoryCell::ActiveExecCommand(vec!["ls".to_string()]))
    );
}
