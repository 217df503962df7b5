use codex_tui::chatwidget::ChatWidget;
use codex_tui::context::EventContext;
use codex_tui::effect::{Effect, HistoryCell, PaneCall};
use codex_tui::protocol::{add_token_usage, Event, EventMsg, TokenUsage};

fn usage(input: u64, cached: Option<u64>, output: u64, reasoning: Option<u64>) -> TokenUsage {
    TokenUsage {
        input_tokens: input,
        cached_input_tokens: cached,
        output_tokens: output,
        reasoning_output_tokens: reasoning,
        total_tokens: input + output,
    }
}

fn count(widget: &mut ChatWidget, usage: TokenUsage) -> Vec<Effect> {
    widget.handle_codex_event(
        Event { id: "id".to_string(), msg: EventMsg::TokenCount(usage) },
        EventContext::empty(),
    )
}

#[test]
fn counts_are_added_one_by_one() {
    assert_eq!(
        add_token_usage(&usage(1, Some(2), 3, Some(4)), &usage(10, Some(20), 30, Some(40))),
        usage(11, Some(22), 33, Some(44))
    );
}

#[test]
fn unknown_counts_stay_unknown_only_on_both_sides() {
    assert_eq!(
        add_token_usage(&usage(0, None, 0, Some(4)), &usage(0, Some(20), 0, None)),
        usage(0, Some(20), 0, Some(4))
    );
    assert_eq!(
        add_token_usage(&usage(0, None, 0, None), &usage(0, None, 0, None)),
        TokenUsage::default()
    );
    let most = TokenUsage { input_tokens: u64::MAX, ..TokenUsage::default() };
    assert_eq!(add_token_usage(&TokenUsage::default(), &most), most);
}

#[test]
fn usage_adds_up_in_any_order() {
    let a = usage(1, None, 2, Some(3));
    let b = usage(4, Some(5), 6, None);
    let c = usage(7, Some(8), 9, Some(10));
    assert_eq!(add_token_usage(&a, &b), add_token_usage(&b, &a));
    assert_eq!(
        add_token_usage(&add_token_usage(&a, &b), &c),
        add_token_usage(&a, &add_token_usage(&b, &c))
    );
}

#[test]
fn pane_gets_the_total_and_the_last_count() {
    let (mut widget, _) = ChatWidget::new(None, Vec::new(), Some(128_000), None, false);
    count(&mut widget, usage(1, None, 2, None));
    assert_eq!(
        count(&mut widget, usage(10, Some(5), 20, None)),
        vec![Effect::Pane(PaneCall::SetTokenUsage {
            total: usage(11, Some(5), 22, None),
            last: usage(10, Some(5), 20, None),
            context_window: Some(128_000),
        })]
    );
    assert_eq!(*widget.token_usage(), usage(11, Some(5), 22, None));
    assert_eq!(
        widget.add_status_output(),
        vec![Effect::History(HistoryCell::StatusOutput(usage(11, Some(5), 22, None)))]
    );
}

#[test]
fn tokens_are_counted_from_the_last_clearing() {
    let (mut widget, _) = ChatWidget::new(None, Vec::new(), None, None, false);
    count(&mut widget, usage(1, Some(1), 1, Some(1)));
    assert_eq!(
        widget.clear_token_usage(),
        vec![Effect::Pane(PaneCall::SetTokenUsage {
            total: TokenUsage::default(),
            last: usage(1, Some(1), 1, Some(1)),
            context_window: None,
        })]
    );
    assert_eq!(*widget.token_usage(), TokenUsage::default());
    count(&mut widget, usage(2, None, 3, None));
    count(&mut widget, usage(4, None, 5, Some(6)));
    assert_eq!(*widget.token_usage(), usage(6, None, 8, Some(6)));
    widget.set_vscode_selection(None);
    widget.on_esc(true);
    assert_eq!(*widget.token_usage(), usage(6, None, 8, Some(6)));
    assert_eq!(
        widget.clear_token_usage(),
        vec![Effect::Pane(PaneCall::SetTokenUsage {
            total: TokenUsage::default(),
            last: usage(4, None, 5, Some(6)),
            context_window: None,
        })]
    );
}
