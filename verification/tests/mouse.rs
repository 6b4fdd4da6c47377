use flyline::app_state::{Coord, FuzzyHistorySource};
use flyline::mouse::{
    button_state_for, choose_pointer_shape, copy_source, default_mouse_bindings, default_pointer_shape_bindings,
    dispatch_mouse_event, first_matching_binding, is_pointer_target_tag, mouse_redraw, reevaluate_pointer_shape, MouseEnv, MouseHandler,
    resolve_semantic_tag, ActionContext, ButtonState, ButtonTracking, ClickCount, ClickRecord, ContentModeKind,
    ContextExpr, CopyTargetSource, KeyAction, MouseActionOutput, MouseBinding, MouseButton, MouseContextVar,
    MouseEffect, MouseEvent, MouseEventAction, MouseEventKind, MouseSnapshot, PointerShape,
    PointerUpdate, RedrawUrgency, Tag, TagPattern,
};

fn event(kind: MouseEventKind, column: u16, row: u16) -> MouseEvent {
    MouseEvent { kind, column, row, shift: false }
}

fn snapshot(mouse: Option<MouseEvent>, semantic: Option<Tag>) -> MouseSnapshot {
    MouseSnapshot {
        content_mode: ContentModeKind::Normal,
        last_mouse: mouse,
        semantic_tag: semantic,
        direct_tag: semantic,
        drag_start_tag: None,
        left_button_down: false,
        click_count: ClickCount::Single,
        mouse_scrolling: false,
        right_click_down_pos: None,
        right_click_popup_active: false,
        smart_mode: false,
        viewport_start: None,
    }
}

fn context(s: &MouseSnapshot) -> ActionContext {
    ActionContext {
        content_mode: s.content_mode,
        semantic_tag: s.semantic_tag,
        direct_tag: s.direct_tag,
        drag_start_tag: s.drag_start_tag,
        select_with_mouse: true,
        last_click_buffer_pos: None,
        right_click_popup_active: s.right_click_popup_active,
        scrollbar_top_row: None,
        mouse_content_row: Some(2),
        ai_result_has_command: true,
        clipboard_has_text: true,
        clipboard_write_ok: true,
    }
}

fn dont_update() -> MouseActionOutput {
    MouseActionOutput { possible_buffer_change: false, desired_pointer_shape: None, redraw_urgency: RedrawUrgency::Soon }
}

#[test]
fn output_constructors() {
    assert_eq!(
        MouseActionOutput::default(),
        MouseActionOutput { possible_buffer_change: false, desired_pointer_shape: None, redraw_urgency: RedrawUrgency::Now }
    );
    assert_eq!(
        MouseActionOutput::update_now(),
        MouseActionOutput { possible_buffer_change: true, desired_pointer_shape: None, redraw_urgency: RedrawUrgency::Now }
    );
    assert_eq!(
        MouseActionOutput::update_soon(),
        MouseActionOutput { possible_buffer_change: true, desired_pointer_shape: None, redraw_urgency: RedrawUrgency::Soon }
    );
    assert_eq!(MouseActionOutput::dont_update(), dont_update());
}

#[test]
fn merge_combines_outputs() {
    let mut a = MouseActionOutput::dont_update();
    a.merge(MouseActionOutput {
        possible_buffer_change: false,
        desired_pointer_shape: Some(PointerShape::Text),
        redraw_urgency: RedrawUrgency::Soon,
    });
    assert_eq!(a.desired_pointer_shape, Some(PointerShape::Text));
    a.merge(MouseActionOutput::update_now());
    assert_eq!(
        a,
        MouseActionOutput {
            possible_buffer_change: true,
            desired_pointer_shape: Some(PointerShape::Text),
            redraw_urgency: RedrawUrgency::Now
        }
    );
    a.merge(MouseActionOutput::dont_update());
    assert_eq!(a.redraw_urgency, RedrawUrgency::Now);
    assert!(a.possible_buffer_change);
}

#[test]
fn merge_is_associative_on_examples() {
    let outs = [
        MouseActionOutput::update_now(),
        MouseActionOutput::update_soon(),
        MouseActionOutput::dont_update(),
        MouseActionOutput {
            possible_buffer_change: false,
            desired_pointer_shape: Some(PointerShape::Grabbing),
            redraw_urgency: RedrawUrgency::Soon,
        },
    ];
    for a in outs {
        for b in outs {
            for c in outs {
                let mut left = a;
                left.merge(b);
                left.merge(c);
                let mut bc = b;
                bc.merge(c);
                let mut right = a;
                right.merge(bc);
                assert_eq!(left, right);
            }
        }
    }
}

#[test]
fn tag_patterns_match() {
    assert!(TagPattern::Any.matches(None));
    assert!(TagPattern::Any.matches(Some(Tag::FlycompInfo)));
    assert!(TagPattern::NoTag.matches(None));
    assert!(!TagPattern::NoTag.matches(Some(Tag::Command(3))));
    assert!(TagPattern::Command.matches(Some(Tag::Command(3))));
    assert!(TagPattern::Suggestion.matches(Some(Tag::TabSuggestion)));
    assert!(TagPattern::Suggestion.matches(Some(Tag::Suggestion(1))));
    assert!(TagPattern::RightClickMenu.matches(Some(Tag::RightClickCopy)));
    assert!(TagPattern::RightClickMenu.matches(Some(Tag::RightClickMenu)));
    assert!(!TagPattern::RightClickMenu.matches(Some(Tag::Clipboard(0))));
    assert!(!TagPattern::RightClickCopy.matches(Some(Tag::RightClickCut)));
}

#[test]
fn pointer_targets_depend_on_the_menu() {
    assert!(is_pointer_target_tag(Some(Tag::Suggestion(0)), false));
    assert!(!is_pointer_target_tag(Some(Tag::Suggestion(0)), true));
    assert!(is_pointer_target_tag(Some(Tag::RightClickCopy), true));
    assert!(!is_pointer_target_tag(Some(Tag::RightClickMenu), true));
    assert!(!is_pointer_target_tag(Some(Tag::Command(0)), false));
    assert!(!is_pointer_target_tag(None, false));
}

#[test]
fn context_expressions_evaluate_all_literals() {
    let s = snapshot(Some(event(MouseEventKind::Up(MouseButton::Left), 1, 1)), Some(Tag::Clipboard(2)));
    let e = ContextExpr::from_var(MouseContextVar::LeftButtonClickedUp)
        .and(MouseContextVar::OverCellSemantically(TagPattern::Clipboard).lit());
    assert!(e.evaluate_direct(&s));
    let e2 = e.and(MouseContextVar::RightClickPopupActive.lit());
    assert!(!e2.evaluate_direct(&s));
    let e3 = ContextExpr::from_lit(MouseContextVar::RightClickPopupActive.negate());
    assert!(e3.evaluate_direct(&s));
    assert!(MouseContextVar::Always.evaluate(&s));
    assert!(MouseContextVar::LeftButtonIsUp.evaluate(&s));
}

#[test]
fn default_binding_counts() {
    assert_eq!(default_mouse_bindings().len(), 56);
    assert_eq!(default_pointer_shape_bindings().len(), 5);
}

#[test]
fn left_click_outside_open_menu_dismisses_it() {
    let bindings = default_mouse_bindings();
    let mut s = snapshot(Some(event(MouseEventKind::Up(MouseButton::Left), 4, 4)), Some(Tag::Command(2)));
    s.right_click_popup_active = true;
    assert_eq!(first_matching_binding(&bindings, &s), Some(0));
    let ctx = context(&s);
    let d = dispatch_mouse_event(&bindings, &s, &ctx, s.last_mouse.unwrap());
    assert_eq!(d.matched, Some(0));
    assert_eq!(d.effects, vec![MouseEffect::CloseRightClickMenu, MouseEffect::ClearCopyTarget]);
    assert_eq!(d.output.redraw_urgency, RedrawUrgency::Now);
}

#[test]
fn scroll_outside_open_menu_dismisses_it() {
    let bindings = default_mouse_bindings();
    let mut s = snapshot(Some(event(MouseEventKind::ScrollDown, 4, 4)), None);
    s.right_click_popup_active = true;
    assert_eq!(first_matching_binding(&bindings, &s), Some(3));
}

#[test]
fn left_release_on_menu_entry_runs_it() {
    let bindings = default_mouse_bindings();
    let mut s = snapshot(Some(event(MouseEventKind::Up(MouseButton::Left), 4, 4)), Some(Tag::RightClickPaste));
    s.right_click_popup_active = true;
    let ctx = context(&s);
    let d = dispatch_mouse_event(&bindings, &s, &ctx, s.last_mouse.unwrap());
    assert_eq!(d.matched, Some(7));
    assert_eq!(
        d.effects,
        vec![
            MouseEffect::RunKeyAction(KeyAction::PasteSystemClipboard),
            MouseEffect::CloseRightClickMenu,
            MouseEffect::ClearCopyTarget
        ]
    );
    assert_eq!(d.output, MouseActionOutput::update_now());
}

#[test]
fn right_click_opens_menu_with_copy_target() {
    let bindings = default_mouse_bindings();
    let mut s = snapshot(Some(event(MouseEventKind::Down(MouseButton::Right), 6, 9)), Some(Tag::Suggestion(4)));
    s.content_mode = ContentModeKind::TabCompletion;
    let ctx = context(&s);
    let d = dispatch_mouse_event(&bindings, &s, &ctx, s.last_mouse.unwrap());
    assert_eq!(d.matched, Some(4));
    assert_eq!(
        d.effects,
        vec![
            MouseEffect::SelectSuggestion(4),
            MouseEffect::OpenRightClickMenu(Coord { row: 2, col: 6 }),
            MouseEffect::RecordRightClickDown(Coord { row: 9, col: 6 }),
            MouseEffect::SetCopyTarget(Some(CopyTargetSource::Suggestion(4))),
        ]
    );
    assert_eq!(d.output, dont_update());
}

#[test]
fn event_without_binding_does_nothing() {
    let bindings: Vec<MouseBinding> = Vec::new();
    let s = snapshot(Some(event(MouseEventKind::Moved, 0, 0)), None);
    let ctx = context(&s);
    let d = dispatch_mouse_event(&bindings, &s, &ctx, s.last_mouse.unwrap());
    assert_eq!(d.matched, None);
    assert!(d.effects.is_empty());
    assert_eq!(d.output, dont_update());
}

#[test]
fn smart_mode_scroll_releases_the_mouse() {
    let bindings = default_mouse_bindings();
    let mut s = snapshot(Some(event(MouseEventKind::ScrollUp, 0, 0)), None);
    s.smart_mode = true;
    let ctx = context(&s);
    let d = dispatch_mouse_event(&bindings, &s, &ctx, s.last_mouse.unwrap());
    assert_eq!(d.effects, vec![MouseEffect::DisableMouseCapture]);
}

#[test]
fn pointer_shape_over_command_is_text() {
    let bindings = default_pointer_shape_bindings();
    let s = snapshot(None, Some(Tag::Command(0)));
    assert_eq!(choose_pointer_shape(&bindings, &s), Some(PointerShape::Text));
}

#[test]
fn pointer_shape_over_target_is_hand() {
    let bindings = default_pointer_shape_bindings();
    let s = snapshot(None, Some(Tag::Clipboard(1)));
    assert_eq!(choose_pointer_shape(&bindings, &s), Some(PointerShape::Pointer));
    let plain = snapshot(None, None);
    assert_eq!(choose_pointer_shape(&bindings, &plain), Some(PointerShape::Default));
}

#[test]
fn pointer_shape_while_dragging() {
    let bindings = default_pointer_shape_bindings();
    let mut s = snapshot(None, None);
    s.left_button_down = true;
    s.drag_start_tag = Some(Tag::Suggestion(0));
    assert_eq!(choose_pointer_shape(&bindings, &s), Some(PointerShape::Grabbing));
    s.drag_start_tag = None;
    assert_eq!(choose_pointer_shape(&bindings, &s), None);
}

#[test]
fn pointer_update_after_redraw() {
    let bindings = default_pointer_shape_bindings();
    let s = snapshot(None, Some(Tag::Command(1)));
    assert_eq!(
        reevaluate_pointer_shape(true, true, &bindings, &s, true),
        Some(PointerUpdate { shape: PointerShape::Default, from_click: false })
    );
    assert_eq!(reevaluate_pointer_shape(false, false, &bindings, &s, true), None);
    assert_eq!(
        reevaluate_pointer_shape(false, true, &bindings, &s, true),
        Some(PointerUpdate { shape: PointerShape::Text, from_click: true })
    );
}

#[test]
fn copy_source_depends_on_mode() {
    assert_eq!(
        copy_source(Some(Tag::Suggestion(2)), ContentModeKind::TabCompletion),
        Some(CopyTargetSource::Suggestion(2))
    );
    assert_eq!(copy_source(Some(Tag::Suggestion(2)), ContentModeKind::Normal), None);
    assert_eq!(
        copy_source(
            Some(Tag::HistoryResult(5)),
            ContentModeKind::FuzzyHistorySearch(FuzzyHistorySource::PastCommands)
        ),
        Some(CopyTargetSource::HistoryEntry(FuzzyHistorySource::PastCommands, 5))
    );
    assert_eq!(copy_source(Some(Tag::PromptCopyBufferWidget), ContentModeKind::Normal), Some(CopyTargetSource::Buffer));
    assert_eq!(copy_source(None, ContentModeKind::Normal), None);
}

#[test]
fn action_plans() {
    let s = snapshot(Some(event(MouseEventKind::Down(MouseButton::Left), 3, 0)), Some(Tag::Command(5)));
    let ctx = context(&s);
    let p = MouseEventAction::ClickCommand.run(&ctx, s.last_mouse.unwrap());
    assert_eq!(p.output, MouseActionOutput::update_now());
    assert_eq!(
        p.effects,
        vec![
            MouseEffect::ClearSelection,
            MouseEffect::MoveCursorTo { byte_pos: 5, move_past_final: false },
            MouseEffect::StartSelectionIfNone
        ]
    );
    let p = MouseEventAction::SetPointer(PointerShape::Grabbing).run(&ctx, s.last_mouse.unwrap());
    assert_eq!(p.output.desired_pointer_shape, Some(PointerShape::Grabbing));
    assert!(p.effects.is_empty());
    let p = MouseEventAction::DisableMouseCapture.run(&ctx, s.last_mouse.unwrap());
    assert_eq!(p.effects, vec![MouseEffect::DisableMouseCapture]);
}

#[test]
fn scrollbar_drag_is_clamped() {
    let mut s = snapshot(Some(event(MouseEventKind::Drag(MouseButton::Left), 3, 50)), None);
    s.content_mode = ContentModeKind::TabCompletion;
    s.drag_start_tag = Some(Tag::TabCompletionScrollBar { max_cell_height: 7, y_start: 0 });
    let mut ctx = context(&s);
    ctx.scrollbar_top_row = Some(10);
    let p = MouseEventAction::ScrollSuggestionsBar.run(&ctx, s.last_mouse.unwrap());
    assert_eq!(
        p.effects,
        vec![MouseEffect::SelectSuggestionByScrollbar { cell_height: 7, max_cell_height: 7 }]
    );
    let p = MouseEventAction::ScrollSuggestionsBar.run(&ctx, event(MouseEventKind::Drag(MouseButton::Left), 3, 12));
    assert_eq!(
        p.effects,
        vec![MouseEffect::SelectSuggestionByScrollbar { cell_height: 2, max_cell_height: 7 }]
    );
    let p = MouseEventAction::ScrollSuggestionsBar.run(&ctx, event(MouseEventKind::Drag(MouseButton::Left), 3, 1));
    assert_eq!(
        p.effects,
        vec![MouseEffect::SelectSuggestionByScrollbar { cell_height: 0, max_cell_height: 7 }]
    );
}

#[test]
fn button_tracking() {
    let mut b = ButtonTracking { left_down: false, left_dragging: false, drag_start_tag: None, right_click_down_pos: Some(Coord { row: 1, col: 1 }) };
    assert_eq!(b.track(MouseEventKind::Down(MouseButton::Left), Some(Tag::Command(4))), ClickRecord::LeftClickAt(4));
    assert!(b.left_down);
    assert_eq!(b.drag_start_tag, Some(Tag::Command(4)));
    assert_eq!(b.track(MouseEventKind::Drag(MouseButton::Left), None), ClickRecord::Nothing);
    assert!(b.left_dragging);
    assert_eq!(b.track(MouseEventKind::Up(MouseButton::Left), None), ClickRecord::Nothing);
    assert!(!b.left_down && !b.left_dragging && b.drag_start_tag.is_none());
    assert_eq!(b.track(MouseEventKind::ScrollUp, None), ClickRecord::Scroll);
    assert_eq!(b.track(MouseEventKind::Up(MouseButton::Right), None), ClickRecord::Nothing);
    assert_eq!(b.right_click_down_pos, None);
    assert_eq!(b.track(MouseEventKind::Down(MouseButton::Left), None), ClickRecord::LeftClickElsewhere);
}

#[test]
fn semantic_tag_while_dragging_selection() {
    let drag = MouseEventKind::Drag(MouseButton::Left);
    let start = Some(Tag::Command(3));
    assert_eq!(resolve_semantic_tag(None, start, drag, Some(9), 4, 20), Some(Tag::Command(20)));
    assert_eq!(resolve_semantic_tag(None, start, drag, Some(-1), 4, 20), Some(Tag::Command(0)));
    assert_eq!(resolve_semantic_tag(None, start, drag, Some(0), 4, 20), Some(Tag::Command(0)));
    assert_eq!(resolve_semantic_tag(Some(Tag::Command(7)), start, drag, Some(1), 4, 20), Some(Tag::Command(7)));
    assert_eq!(resolve_semantic_tag(None, None, drag, Some(9), 4, 20), None);
    assert_eq!(resolve_semantic_tag(None, start, MouseEventKind::Moved, Some(9), 4, 20), None);
}

#[test]
fn redraw_only_when_urgent() {
    assert!(!mouse_redraw(false, RedrawUrgency::Now));
    assert!(mouse_redraw(true, RedrawUrgency::Now));
    assert!(!mouse_redraw(true, RedrawUrgency::Soon));
}

fn handler() -> MouseHandler {
    MouseHandler {
        tracking: ButtonTracking { left_down: false, left_dragging: false, drag_start_tag: None, right_click_down_pos: None },
        last_mouse: None,
        last_mouse_pos: None,
        over_semantic: None,
        over_direct: None,
    }
}

fn env(cell: Option<Tag>) -> MouseEnv {
    MouseEnv {
        content_mode: ContentModeKind::Normal,
        cell_direct: cell,
        cell_semantic: cell,
        content_row: Some(0),
        content_rows: 1,
        buffer_len: 5,
        click_count: ClickCount::Single,
        mouse_scrolling: false,
        right_click_popup_active: false,
        smart_mode: false,
        viewport_start: Some(0),
        select_with_mouse: true,
        last_click_buffer_pos: Some(2),
        scrollbar_top_row: None,
        ai_result_has_command: false,
        clipboard_has_text: false,
        clipboard_write_ok: true,
    }
}

#[test]
fn on_mouse_records_event_and_position() {
    let bindings = default_mouse_bindings();
    let mut h = handler();
    let m = event(MouseEventKind::Moved, 7, 3);
    let out = h.on_mouse(&bindings, &env(None), m);
    assert_eq!(h.last_mouse, Some(m));
    assert_eq!(h.last_mouse_pos, Some(Coord { row: 3, col: 7 }));
    assert_eq!(h.over_semantic, None);
    assert_eq!(out.record, ClickRecord::Nothing);
    assert!(!out.redraw);
}

#[test]
fn on_mouse_click_in_buffer_moves_cursor_and_redraws() {
    let bindings = default_mouse_bindings();
    let mut h = handler();
    let m = event(MouseEventKind::Down(MouseButton::Left), 2, 0);
    let out = h.on_mouse(&bindings, &env(Some(Tag::Command(2))), m);
    assert_eq!(out.record, ClickRecord::LeftClickAt(2));
    assert!(h.tracking.left_down);
    assert_eq!(h.tracking.drag_start_tag, Some(Tag::Command(2)));
    assert_eq!(h.over_direct, Some(Tag::Command(2)));
    assert!(out.matched_any);
    assert!(out.dispatch.effects.contains(&MouseEffect::MoveCursorTo { byte_pos: 2, move_past_final: false }));
    assert_eq!(out.redraw, out.dispatch.output.redraw_urgency == RedrawUrgency::Now);
    assert_eq!(out.buffer_may_change, out.dispatch.output.possible_buffer_change);
}

#[test]
fn on_mouse_drag_below_buffer_selects_to_end() {
    let bindings = default_mouse_bindings();
    let mut h = handler();
    h.tracking.left_down = true;
    h.tracking.drag_start_tag = Some(Tag::Command(1));
    let mut e = env(None);
    e.content_row = Some(4);
    let m = event(MouseEventKind::Drag(MouseButton::Left), 0, 9);
    let out = h.on_mouse(&bindings, &e, m);
    assert_eq!(h.over_semantic, Some(Tag::Command(5)));
    assert!(h.tracking.left_dragging);
    assert!(out.matched_any);
}

#[test]
fn button_looks() {
    assert_eq!(button_state_for(Some(Tag::TutorialNext), Tag::TutorialNext, false), ButtonState::Hovered);
    assert_eq!(button_state_for(Some(Tag::TutorialNext), Tag::TutorialNext, true), ButtonState::Depressed);
    assert_eq!(button_state_for(Some(Tag::TutorialPrev), Tag::TutorialNext, true), ButtonState::Normal);
    assert_eq!(button_state_for(None, Tag::TutorialNext, false), ButtonState::Normal);
}
