//! Declarative mouse handling: what a mouse event means in the editor's
//! current state, which binding answers it, and what that binding does.
use vstd::prelude::*;

use crate::app_state::{Coord, FlycompPromptSelection, FuzzyHistorySource};

verus! {

// ---------------------------------------------------------------------------
// Outputs of mouse actions
// ---------------------------------------------------------------------------

/// How soon the screen must be redrawn after a mouse action.
#[derive(Debug, Clone, Copy, PartialEq, Eq, Structural)]
pub enum RedrawUrgency {
    Now,
    Soon,
}

/// The shape the mouse pointer is asked to take.
#[derive(Debug, Clone, Copy, PartialEq, Eq, Structural)]
pub enum PointerShape {
    Default,
    Text,
    Pointer,
    Grabbing,
}

/// What a mouse action asks of the editor once it has run.
#[derive(Debug, Clone, Copy, PartialEq, Eq, Structural)]
pub struct MouseActionOutput {
    /// The command buffer may have changed.
    pub possible_buffer_change: bool,
    /// A pointer shape to switch to, if any.
    pub desired_pointer_shape: Option<PointerShape>,
    pub redraw_urgency: RedrawUrgency,
}

impl Default for MouseActionOutput {
    fn default() -> (r: Self)
        ensures
            r == (MouseActionOutput {
                possible_buffer_change: false,
                desired_pointer_shape: None,
                redraw_urgency: RedrawUrgency::Now,
            }),
    {
        MouseActionOutput {
            possible_buffer_change: false,
            desired_pointer_shape: None,
            redraw_urgency: RedrawUrgency::Now,
        }
    }
}

/// The combination of two outputs, `a` then `b`: the buffer may have changed
/// if either says so, `b`'s pointer shape wins when it asks for one, and the
/// redraw is immediate if either asks for that.
pub open spec fn spec_merge(a: MouseActionOutput, b: MouseActionOutput) -> MouseActionOutput {
    MouseActionOutput {
        possible_buffer_change: a.possible_buffer_change || b.possible_buffer_change,
        desired_pointer_shape: if b.desired_pointer_shape is Some {
            b.desired_pointer_shape
        } else {
            a.desired_pointer_shape
        },
        redraw_urgency: if b.redraw_urgency == RedrawUrgency::Now {
            RedrawUrgency::Now
        } else {
            a.redraw_urgency
        },
    }
}

impl MouseActionOutput {
    /// The buffer may have changed; redraw at once.
    pub open spec fn spec_update_now() -> MouseActionOutput {
        MouseActionOutput {
            possible_buffer_change: true,
            desired_pointer_shape: None,
            redraw_urgency: RedrawUrgency::Now,
        }
    }

    /// The buffer may have changed; a redraw can wait a little.
    pub open spec fn spec_update_soon() -> MouseActionOutput {
        MouseActionOutput {
            possible_buffer_change: true,
            desired_pointer_shape: None,
            redraw_urgency: RedrawUrgency::Soon,
        }
    }

    /// Nothing changed that needs an update.
    pub open spec fn spec_dont_update() -> MouseActionOutput {
        MouseActionOutput {
            possible_buffer_change: false,
            desired_pointer_shape: None,
            redraw_urgency: RedrawUrgency::Soon,
        }
    }

    pub fn update_now() -> (r: Self)
        ensures
            r == Self::spec_update_now(),
    {
        MouseActionOutput {
            possible_buffer_change: true,
            desired_pointer_shape: None,
            redraw_urgency: RedrawUrgency::Now,
        }
    }

    pub fn update_soon() -> (r: Self)
        ensures
            r == Self::spec_update_soon(),
    {
        MouseActionOutput {
            possible_buffer_change: true,
            desired_pointer_shape: None,
            redraw_urgency: RedrawUrgency::Soon,
        }
    }

    pub fn dont_update() -> (r: Self)
        ensures
            r == Self::spec_dont_update(),
    {
        MouseActionOutput {
            possible_buffer_change: false,
            desired_pointer_shape: None,
            redraw_urgency: RedrawUrgency::Soon,
        }
    }

    /// Folds the output of a later action into this one.
    pub fn merge(&mut self, other: Self)
        ensures
            *final(self) == spec_merge(*old(self), other),
    {
        self.possible_buffer_change = self.possible_buffer_change || other.possible_buffer_change;
        if other.desired_pointer_shape.is_some() {
            self.desired_pointer_shape = other.desired_pointer_shape;
        }
        if other.redraw_urgency == RedrawUrgency::Now {
            self.redraw_urgency = RedrawUrgency::Now;
        }
    }
}

// ---------------------------------------------------------------------------
// What lies under the mouse
// ---------------------------------------------------------------------------

/// The meaning of a screen cell, as recorded when the screen was drawn.
#[derive(Debug, Clone, Copy, PartialEq, Eq, Structural)]
pub enum Tag {
    /// A character of the command buffer, by byte position.
    Command(usize),
    /// A tab-completion suggestion, by index.
    Suggestion(usize),
    TabSuggestion,
    /// The scroll bar of the suggestions list.
    TabCompletionScrollBar { max_cell_height: usize, y_start: u16 },
    /// A fuzzy history search result, by index.
    HistoryResult(usize),
    FuzzySearch,
    /// A command proposed by the agent, by index.
    AiResult(usize),
    TutorialPrev,
    TutorialNext,
    /// A clipboard widget, by clipboard number.
    Clipboard(usize),
    PromptCopyBufferWidget,
    /// A segment of the working directory shown in the prompt, by index.
    PromptCwdWidget(usize),
    FlycompYes,
    FlycompNo,
    FlycompDontAsk,
    FlycompSandboxInfo,
    FlycompInfo,
    RightClickCopy,
    RightClickCut,
    RightClickPaste,
    RightClickUndo,
    RightClickRedo,
    RightClickRunTutorial,
    RightClickMenu,
}

/// A pattern over the tag of a cell (or its absence).
#[derive(Debug, Clone, Copy, PartialEq, Eq, Structural)]
pub enum TagPattern {
    Command,
    Suggestion,
    HistoryResult,
    AiResult,
    TutorialPrev,
    TutorialNext,
    Clipboard,
    PromptCopyBuffer,
    Ps1PromptCwd,
    FlycompYes,
    FlycompNo,
    FlycompDontAsk,
    RightClickCopy,
    RightClickCut,
    RightClickPaste,
    RightClickUndo,
    RightClickRedo,
    RightClickRunTutorial,
    /// Any entry of the right-click menu, or the menu itself.
    RightClickMenu,
    /// Every cell, tagged or not.
    Any,
    /// A cell without a tag.
    NoTag,
}

/// Whether `tag` is an entry of the right-click menu or the menu itself.
pub open spec fn is_right_click_menu_tag(tag: Tag) -> bool {
    match tag {
        Tag::RightClickCopy | Tag::RightClickCut | Tag::RightClickPaste | Tag::RightClickUndo
        | Tag::RightClickRedo | Tag::RightClickRunTutorial | Tag::RightClickMenu => true,
        _ => false,
    }
}

impl TagPattern {
    /// Whether the pattern matches a cell whose tag is `tag`.
    pub open spec fn spec_matches(self, tag: Option<Tag>) -> bool {
        match self {
            TagPattern::Any => true,
            TagPattern::NoTag => tag is None,
            TagPattern::Command => tag matches Some(Tag::Command(_)),
            TagPattern::Suggestion => tag matches Some(Tag::Suggestion(_)) || tag == Some(
                Tag::TabSuggestion,
            ),
            TagPattern::HistoryResult => tag matches Some(Tag::HistoryResult(_)),
            TagPattern::AiResult => tag matches Some(Tag::AiResult(_)),
            TagPattern::TutorialPrev => tag == Some(Tag::TutorialPrev),
            TagPattern::TutorialNext => tag == Some(Tag::TutorialNext),
            TagPattern::Clipboard => tag matches Some(Tag::Clipboard(_)),
            TagPattern::PromptCopyBuffer => tag == Some(Tag::PromptCopyBufferWidget),
            TagPattern::Ps1PromptCwd => tag matches Some(Tag::PromptCwdWidget(_)),
            TagPattern::FlycompYes => tag == Some(Tag::FlycompYes),
            TagPattern::FlycompNo => tag == Some(Tag::FlycompNo),
            TagPattern::FlycompDontAsk => tag == Some(Tag::FlycompDontAsk),
            TagPattern::RightClickCopy => tag == Some(Tag::RightClickCopy),
            TagPattern::RightClickCut => tag == Some(Tag::RightClickCut),
            TagPattern::RightClickPaste => tag == Some(Tag::RightClickPaste),
            TagPattern::RightClickUndo => tag == Some(Tag::RightClickUndo),
            TagPattern::RightClickRedo => tag == Some(Tag::RightClickRedo),
            TagPattern::RightClickRunTutorial => tag == Some(Tag::RightClickRunTutorial),
            TagPattern::RightClickMenu => tag matches Some(t) && is_right_click_menu_tag(t),
        }
    }

    /// Whether the pattern matches a cell whose tag is `tag`.
    pub fn matches(&self, tag: Option<Tag>) -> (r: bool)
        ensures
            r == self.spec_matches(tag),
    {
        match (self, tag) {
            (TagPattern::Any, _) => true,
            (TagPattern::NoTag, None) => true,
            (TagPattern::Command, Some(Tag::Command(_))) => true,
            (TagPattern::Suggestion, Some(Tag::Suggestion(_))) => true,
            (TagPattern::Suggestion, Some(Tag::TabSuggestion)) => true,
            (TagPattern::HistoryResult, Some(Tag::HistoryResult(_))) => true,
            (TagPattern::AiResult, Some(Tag::AiResult(_))) => true,
            (TagPattern::TutorialPrev, Some(Tag::TutorialPrev)) => true,
            (TagPattern::TutorialNext, Some(Tag::TutorialNext)) => true,
            (TagPattern::Clipboard, Some(Tag::Clipboard(_))) => true,
            (TagPattern::PromptCopyBuffer, Some(Tag::PromptCopyBufferWidget)) => true,
            (TagPattern::Ps1PromptCwd, Some(Tag::PromptCwdWidget(_))) => true,
            (TagPattern::FlycompYes, Some(Tag::FlycompYes)) => true,
            (TagPattern::FlycompNo, Some(Tag::FlycompNo)) => true,
            (TagPattern::FlycompDontAsk, Some(Tag::FlycompDontAsk)) => true,
            (TagPattern::RightClickCopy, Some(Tag::RightClickCopy)) => true,
            (TagPattern::RightClickCut, Some(Tag::RightClickCut)) => true,
            (TagPattern::RightClickPaste, Some(Tag::RightClickPaste)) => true,
            (TagPattern::RightClickUndo, Some(Tag::RightClickUndo)) => true,
            (TagPattern::RightClickRedo, Some(Tag::RightClickRedo)) => true,
            (TagPattern::RightClickRunTutorial, Some(Tag::RightClickRunTutorial)) => true,
            (TagPattern::RightClickMenu, Some(Tag::RightClickCopy)) => true,
            (TagPattern::RightClickMenu, Some(Tag::RightClickCut)) => true,
            (TagPattern::RightClickMenu, Some(Tag::RightClickPaste)) => true,
            (TagPattern::RightClickMenu, Some(Tag::RightClickUndo)) => true,
            (TagPattern::RightClickMenu, Some(Tag::RightClickRedo)) => true,
            (TagPattern::RightClickMenu, Some(Tag::RightClickRunTutorial)) => true,
            (TagPattern::RightClickMenu, Some(Tag::RightClickMenu)) => true,
            _ => false,
        }
    }
}

/// Whether a cell tagged `tag` is a click target (the pointer becomes a hand
/// over it). While the right-click menu is open only its entries are.
pub open spec fn spec_is_pointer_target_tag(tag: Option<Tag>, right_click_popup_active: bool) -> bool {
    match tag {
        None => false,
        Some(t) => if right_click_popup_active {
            match t {
                Tag::RightClickCopy | Tag::RightClickCut | Tag::RightClickPaste | Tag::RightClickUndo
                | Tag::RightClickRedo | Tag::RightClickRunTutorial => true,
                _ => false,
            }
        } else {
            match t {
                Tag::Suggestion(_) | Tag::HistoryResult(_) | Tag::AiResult(_) | Tag::TutorialPrev
                | Tag::TutorialNext | Tag::PromptCopyBufferWidget | Tag::Clipboard(_)
                | Tag::PromptCwdWidget(_) | Tag::TabCompletionScrollBar { .. } | Tag::FlycompSandboxInfo
                | Tag::FlycompInfo | Tag::RightClickCopy | Tag::RightClickCut | Tag::RightClickPaste
                | Tag::RightClickUndo | Tag::RightClickRedo | Tag::RightClickRunTutorial | Tag::FlycompYes
                | Tag::FlycompNo | Tag::FlycompDontAsk => true,
                _ => false,
            }
        },
    }
}

/// Whether a cell tagged `tag` is a click target.
pub fn is_pointer_target_tag(tag: Option<Tag>, right_click_popup_active: bool) -> (r: bool)
    ensures
        r == spec_is_pointer_target_tag(tag, right_click_popup_active),
{
    match tag {
        None => false,
        Some(t) => if right_click_popup_active {
            matches!(
                t,
                Tag::RightClickCopy | Tag::RightClickCut | Tag::RightClickPaste | Tag::RightClickUndo
                    | Tag::RightClickRedo | Tag::RightClickRunTutorial
            )
        } else {
            matches!(
                t,
                Tag::Suggestion(_) | Tag::HistoryResult(_) | Tag::AiResult(_) | Tag::TutorialPrev
                    | Tag::TutorialNext | Tag::PromptCopyBufferWidget | Tag::Clipboard(_)
                    | Tag::PromptCwdWidget(_) | Tag::TabCompletionScrollBar { .. }
                    | Tag::FlycompSandboxInfo | Tag::FlycompInfo | Tag::RightClickCopy
                    | Tag::RightClickCut | Tag::RightClickPaste | Tag::RightClickUndo
                    | Tag::RightClickRedo | Tag::RightClickRunTutorial | Tag::FlycompYes
                    | Tag::FlycompNo | Tag::FlycompDontAsk
            )
        },
    }
}

// ---------------------------------------------------------------------------
// Mouse events and the state they are judged in
// ---------------------------------------------------------------------------

#[derive(Debug, Clone, Copy, PartialEq, Eq, Structural)]
pub enum MouseButton {
    Left,
    Right,
    Middle,
}

/// What happened to the mouse.
#[derive(Debug, Clone, Copy, PartialEq, Eq, Structural)]
pub enum MouseEventKind {
    Down(MouseButton),
    Up(MouseButton),
    Drag(MouseButton),
    Moved,
    ScrollDown,
    ScrollUp,
    ScrollLeft,
    ScrollRight,
}

/// A mouse event at a terminal cell.
#[derive(Debug, Clone, Copy, PartialEq, Eq, Structural)]
pub struct MouseEvent {
    pub kind: MouseEventKind,
    pub column: u16,
    pub row: u16,
    /// Shift was held.
    pub shift: bool,
}

/// How many clicks in quick succession the current one completes.
#[derive(Debug, Clone, Copy, PartialEq, Eq, Structural)]
pub enum ClickCount {
    Single,
    Double,
    Triple,
    Quad,
}

/// The editor's content mode, with the parts that mouse handling reads.
#[derive(Debug, Clone, Copy, PartialEq, Eq, Structural)]
pub enum ContentModeKind {
    Normal,
    FuzzyHistorySearch(FuzzyHistorySource),
    TabCompletion,
    TabCompletionWaiting,
    AgentModeWaiting,
    AgentOutputSelection,
    AgentError,
    /// Navigating the working-directory segments of the prompt; the index of
    /// the highlighted segment.
    PromptDirSelect(usize),
    TabCompletionAskForFlycomp,
    TabCompletionRunningFlycomp,
    TabCompletionFlycompResult,
}

/// The editor state that mouse bindings are evaluated against.
#[derive(Debug, Clone, Copy, PartialEq, Eq, Structural)]
pub struct MouseSnapshot {
    pub content_mode: ContentModeKind,
    /// The mouse event being handled, if any.
    pub last_mouse: Option<MouseEvent>,
    /// The tag of the cell under the mouse, resolved to what it stands for.
    pub semantic_tag: Option<Tag>,
    /// The tag of the cell under the mouse itself.
    pub direct_tag: Option<Tag>,
    /// The tag under the mouse when the left button went down.
    pub drag_start_tag: Option<Tag>,
    pub left_button_down: bool,
    pub click_count: ClickCount,
    /// A scroll happened recently.
    pub mouse_scrolling: bool,
    /// Where the right button went down, if it is down.
    pub right_click_down_pos: Option<Coord>,
    pub right_click_popup_active: bool,
    /// The mouse mode is "smart".
    pub smart_mode: bool,
    /// The first terminal row of the inline viewport, once drawn.
    pub viewport_start: Option<u16>,
}

/// A condition on the editor state that mouse bindings are written in.
#[derive(Debug, Clone, Copy, PartialEq, Eq, Structural)]
pub enum MouseContextVar {
    Always,
    TabCompletion,
    FuzzyHistorySearch,
    AgentOutputSelection,
    PromptDirSelection,
    TabCompletionAskForFlycomp,
    LeftButtonClickedDown,
    LeftButtonClickedUp,
    LeftButtonIsDown,
    LeftButtonIsUp,
    RightButtonClickedDown,
    RightButtonClickedUp,
    DragLeft,
    ScrollUp,
    ScrollDown,
    ScrollLeft,
    ScrollRight,
    Moved,
    OverCellSemantically(TagPattern),
    NotOverCellSemantically(TagPattern),
    OverCellDirectly(TagPattern),
    SmartModeClickAboveViewport,
    SmartModeScroll,
    IsOverSuggestions,
    IsOverFuzzyHistory,
    ScrollBarDrag,
    RightClickPopupActive,
    RightReleaseDismiss,
    SingleClick,
    DoubleClick,
    TripleClick,
    QuadClick,
    DragStartCommand,
    DragStartPointerTarget,
    IsPointerTarget,
    IsMouseScrolling,
}

/// The last mouse event was of kind `k`.
pub open spec fn last_kind_is(s: MouseSnapshot, k: MouseEventKind) -> bool {
    s.last_mouse matches Some(m) && m.kind == k
}

/// Whether `kind` is a scroll in any direction.
pub open spec fn is_scroll(kind: MouseEventKind) -> bool {
    match kind {
        MouseEventKind::ScrollUp | MouseEventKind::ScrollDown | MouseEventKind::ScrollLeft
        | MouseEventKind::ScrollRight => true,
        _ => false,
    }
}

impl MouseContextVar {
    /// Whether the condition holds in `s`.
    pub open spec fn spec_evaluate(self, s: MouseSnapshot) -> bool {
        match self {
            MouseContextVar::Always => true,
            MouseContextVar::TabCompletion => s.content_mode == ContentModeKind::TabCompletion,
            MouseContextVar::FuzzyHistorySearch => s.content_mode is FuzzyHistorySearch,
            MouseContextVar::AgentOutputSelection => s.content_mode
                == ContentModeKind::AgentOutputSelection,
            MouseContextVar::PromptDirSelection => s.content_mode is PromptDirSelect,
            MouseContextVar::TabCompletionAskForFlycomp => s.content_mode
                == ContentModeKind::TabCompletionAskForFlycomp,
            MouseContextVar::LeftButtonClickedDown => last_kind_is(
                s,
                MouseEventKind::Down(MouseButton::Left),
            ),
            MouseContextVar::LeftButtonClickedUp => last_kind_is(
                s,
                MouseEventKind::Up(MouseButton::Left),
            ),
            MouseContextVar::LeftButtonIsDown => s.left_button_down,
            MouseContextVar::LeftButtonIsUp => !s.left_button_down,
            MouseContextVar::RightButtonClickedDown => last_kind_is(
                s,
                MouseEventKind::Down(MouseButton::Right),
            ),
            MouseContextVar::RightButtonClickedUp => last_kind_is(
                s,
                MouseEventKind::Up(MouseButton::Right),
            ),
            MouseContextVar::DragLeft => last_kind_is(s, MouseEventKind::Drag(MouseButton::Left)),
            MouseContextVar::ScrollUp => last_kind_is(s, MouseEventKind::ScrollUp),
            MouseContextVar::ScrollDown => last_kind_is(s, MouseEventKind::ScrollDown),
            MouseContextVar::ScrollLeft => last_kind_is(s, MouseEventKind::ScrollLeft),
            MouseContextVar::ScrollRight => last_kind_is(s, MouseEventKind::ScrollRight),
            MouseContextVar::Moved => last_kind_is(s, MouseEventKind::Moved),
            MouseContextVar::OverCellSemantically(p) => p.spec_matches(s.semantic_tag),
            MouseContextVar::NotOverCellSemantically(p) => !p.spec_matches(s.semantic_tag),
            MouseContextVar::OverCellDirectly(p) => p.spec_matches(s.direct_tag),
            MouseContextVar::SmartModeClickAboveViewport => s.smart_mode && (s.last_mouse matches Some(
                m,
            ) && m.kind is Down && (s.viewport_start matches Some(v) && m.row < v)),
            MouseContextVar::SmartModeScroll => s.smart_mode && (s.last_mouse matches Some(m)
                && is_scroll(m.kind)),
            MouseContextVar::IsOverSuggestions => s.semantic_tag matches Some(t) && (t is Suggestion
                || t is TabSuggestion || t is TabCompletionScrollBar),
            MouseContextVar::IsOverFuzzyHistory => s.semantic_tag matches Some(t) && (t is HistoryResult
                || t is FuzzySearch),
            MouseContextVar::ScrollBarDrag => (s.drag_start_tag matches Some(t)
                && t is TabCompletionScrollBar) && (s.left_button_down || last_kind_is(
                s,
                MouseEventKind::Drag(MouseButton::Left),
            )),
            MouseContextVar::RightClickPopupActive => s.right_click_popup_active,
            MouseContextVar::RightReleaseDismiss => s.last_mouse matches Some(m) && m.kind
                == MouseEventKind::Up(MouseButton::Right) && (s.right_click_down_pos matches Some(p)
                && (m.row != p.row || m.column != p.col)),
            MouseContextVar::SingleClick => s.click_count == ClickCount::Single,
            MouseContextVar::DoubleClick => s.click_count == ClickCount::Double,
            MouseContextVar::TripleClick => s.click_count == ClickCount::Triple,
            MouseContextVar::QuadClick => s.click_count == ClickCount::Quad,
            MouseContextVar::DragStartCommand => s.drag_start_tag matches Some(Tag::Command(_)),
            MouseContextVar::DragStartPointerTarget => spec_is_pointer_target_tag(
                s.drag_start_tag,
                s.right_click_popup_active,
            ),
            MouseContextVar::IsPointerTarget => spec_is_pointer_target_tag(
                s.direct_tag,
                s.right_click_popup_active,
            ),
            MouseContextVar::IsMouseScrolling => s.mouse_scrolling,
        }
    }

    /// Whether the condition holds in `s`.
    pub fn evaluate(&self, s: &MouseSnapshot) -> (r: bool)
        ensures
            r == self.spec_evaluate(*s),
    {
        let last_kind: Option<MouseEventKind> = match s.last_mouse {
            Some(m) => Some(m.kind),
            None => None,
        };
        match self {
            MouseContextVar::Always => true,
            MouseContextVar::TabCompletion => s.content_mode == ContentModeKind::TabCompletion,
            MouseContextVar::FuzzyHistorySearch => matches!(s.content_mode, ContentModeKind::FuzzyHistorySearch(_)),
            MouseContextVar::AgentOutputSelection => s.content_mode == ContentModeKind::AgentOutputSelection,
            MouseContextVar::PromptDirSelection => matches!(s.content_mode, ContentModeKind::PromptDirSelect(_)),
            MouseContextVar::TabCompletionAskForFlycomp => s.content_mode == ContentModeKind::TabCompletionAskForFlycomp,
            MouseContextVar::LeftButtonClickedDown => last_kind == Some(MouseEventKind::Down(MouseButton::Left)),
            MouseContextVar::LeftButtonClickedUp => last_kind == Some(MouseEventKind::Up(MouseButton::Left)),
            MouseContextVar::LeftButtonIsDown => s.left_button_down,
            MouseContextVar::LeftButtonIsUp => !s.left_button_down,
            MouseContextVar::RightButtonClickedDown => last_kind == Some(MouseEventKind::Down(MouseButton::Right)),
            MouseContextVar::RightButtonClickedUp => last_kind == Some(MouseEventKind::Up(MouseButton::Right)),
            MouseContextVar::DragLeft => last_kind == Some(MouseEventKind::Drag(MouseButton::Left)),
            MouseContextVar::ScrollUp => last_kind == Some(MouseEventKind::ScrollUp),
            MouseContextVar::ScrollDown => last_kind == Some(MouseEventKind::ScrollDown),
            MouseContextVar::ScrollLeft => last_kind == Some(MouseEventKind::ScrollLeft),
            MouseContextVar::ScrollRight => last_kind == Some(MouseEventKind::ScrollRight),
            MouseContextVar::Moved => last_kind == Some(MouseEventKind::Moved),
            MouseContextVar::OverCellSemantically(p) => p.matches(s.semantic_tag),
            MouseContextVar::NotOverCellSemantically(p) => !p.matches(s.semantic_tag),
            MouseContextVar::OverCellDirectly(p) => p.matches(s.direct_tag),
            MouseContextVar::SmartModeClickAboveViewport => {
                s.smart_mode && match s.last_mouse {
                    Some(m) => matches!(m.kind, MouseEventKind::Down(_)) && match s.viewport_start {
                        Some(v) => m.row < v,
                        None => false,
                    },
                    None => false,
                }
            },
            MouseContextVar::SmartModeScroll => {
                s.smart_mode && match last_kind {
                    Some(k) => matches!(
                        k,
                        MouseEventKind::ScrollUp | MouseEventKind::ScrollDown | MouseEventKind::ScrollLeft
                            | MouseEventKind::ScrollRight
                    ),
                    None => false,
                }
            },
            MouseContextVar::IsOverSuggestions => matches!(
                s.semantic_tag,
                Some(Tag::Suggestion(_)) | Some(Tag::TabSuggestion) | Some(Tag::TabCompletionScrollBar { .. })
            ),
            MouseContextVar::IsOverFuzzyHistory => matches!(
                s.semantic_tag,
                Some(Tag::HistoryResult(_)) | Some(Tag::FuzzySearch)
            ),
            MouseContextVar::ScrollBarDrag => {
                matches!(s.drag_start_tag, Some(Tag::TabCompletionScrollBar { .. })) && (
                s.left_button_down || last_kind == Some(MouseEventKind::Drag(MouseButton::Left)))
            },
            MouseContextVar::RightClickPopupActive => s.right_click_popup_active,
            MouseContextVar::RightReleaseDismiss => {
                match s.last_mouse {
                    Some(m) => m.kind == MouseEventKind::Up(MouseButton::Right) && match s.right_click_down_pos {
                        Some(p) => m.row != p.row || m.column != p.col,
                        None => false,
                    },
                    None => false,
                }
            },
            MouseContextVar::SingleClick => s.click_count == ClickCount::Single,
            MouseContextVar::DoubleClick => s.click_count == ClickCount::Double,
            MouseContextVar::TripleClick => s.click_count == ClickCount::Triple,
            MouseContextVar::QuadClick => s.click_count == ClickCount::Quad,
            MouseContextVar::DragStartCommand => matches!(s.drag_start_tag, Some(Tag::Command(_))),
            MouseContextVar::DragStartPointerTarget => is_pointer_target_tag(
                s.drag_start_tag,
                s.right_click_popup_active,
            ),
            MouseContextVar::IsPointerTarget => is_pointer_target_tag(
                s.direct_tag,
                s.right_click_popup_active,
            ),
            MouseContextVar::IsMouseScrolling => s.mouse_scrolling,
        }
    }

    /// The condition itself, as a literal.
    pub fn lit(self) -> (r: ContextLiteral)
        ensures
            r == (ContextLiteral { var: self, negated: false }),
    {
        ContextLiteral { var: self, negated: false }
    }

    /// The negation of the condition, as a literal.
    pub fn negate(self) -> (r: ContextLiteral)
        ensures
            r == (ContextLiteral { var: self, negated: true }),
    {
        ContextLiteral { var: self, negated: true }
    }
}

/// Each condition on the mouse event holds exactly for its kind of event:
/// a press or release of the named button, a left drag, a scroll in the
/// named direction, or a move; and none holds without an event.
pub proof fn law_event_conditions(s: MouseSnapshot, m: MouseEvent)
    ensures
        s.last_mouse == Some(m) ==> (MouseContextVar::LeftButtonClickedDown.spec_evaluate(s) <==> m.kind
            == MouseEventKind::Down(MouseButton::Left)) && (MouseContextVar::LeftButtonClickedUp.spec_evaluate(s)
            <==> m.kind == MouseEventKind::Up(MouseButton::Left)) && (
        MouseContextVar::RightButtonClickedDown.spec_evaluate(s) <==> m.kind == MouseEventKind::Down(
            MouseButton::Right,
        )) && (MouseContextVar::RightButtonClickedUp.spec_evaluate(s) <==> m.kind == MouseEventKind::Up(
            MouseButton::Right,
        )) && (MouseContextVar::DragLeft.spec_evaluate(s) <==> m.kind == MouseEventKind::Drag(MouseButton::Left)) && (
        MouseContextVar::ScrollUp.spec_evaluate(s) <==> m.kind == MouseEventKind::ScrollUp) && (
        MouseContextVar::ScrollDown.spec_evaluate(s) <==> m.kind == MouseEventKind::ScrollDown) && (
        MouseContextVar::ScrollLeft.spec_evaluate(s) <==> m.kind == MouseEventKind::ScrollLeft) && (
        MouseContextVar::ScrollRight.spec_evaluate(s) <==> m.kind == MouseEventKind::ScrollRight) && (
        MouseContextVar::Moved.spec_evaluate(s) <==> m.kind == MouseEventKind::Moved),
        s.last_mouse is None ==> !MouseContextVar::LeftButtonClickedDown.spec_evaluate(s)
            && !MouseContextVar::LeftButtonClickedUp.spec_evaluate(s) && !MouseContextVar::RightButtonClickedDown.spec_evaluate(s)
            && !MouseContextVar::ScrollUp.spec_evaluate(s) && !MouseContextVar::ScrollDown.spec_evaluate(s)
            && !MouseContextVar::Moved.spec_evaluate(s) && !MouseContextVar::SmartModeScroll.spec_evaluate(s)
            && !MouseContextVar::SmartModeClickAboveViewport.spec_evaluate(s),
{
}

/// The conditions on the editor's state: the content modes, the left
/// button, the popup, the click count, recent scrolling, the cells under
/// the mouse, and the smart-mode conditions.
pub proof fn law_state_conditions(s: MouseSnapshot, p: TagPattern)
    ensures
        MouseContextVar::Always.spec_evaluate(s),
        MouseContextVar::TabCompletion.spec_evaluate(s) <==> s.content_mode == ContentModeKind::TabCompletion,
        MouseContextVar::FuzzyHistorySearch.spec_evaluate(s) <==> s.content_mode is FuzzyHistorySearch,
        MouseContextVar::AgentOutputSelection.spec_evaluate(s) <==> s.content_mode == ContentModeKind::AgentOutputSelection,
        MouseContextVar::PromptDirSelection.spec_evaluate(s) <==> s.content_mode is PromptDirSelect,
        MouseContextVar::TabCompletionAskForFlycomp.spec_evaluate(s) <==> s.content_mode
            == ContentModeKind::TabCompletionAskForFlycomp,
        MouseContextVar::LeftButtonIsDown.spec_evaluate(s) <==> s.left_button_down,
        MouseContextVar::LeftButtonIsUp.spec_evaluate(s) <==> !s.left_button_down,
        MouseContextVar::RightClickPopupActive.spec_evaluate(s) <==> s.right_click_popup_active,
        MouseContextVar::SingleClick.spec_evaluate(s) <==> s.click_count == ClickCount::Single,
        MouseContextVar::DoubleClick.spec_evaluate(s) <==> s.click_count == ClickCount::Double,
        MouseContextVar::TripleClick.spec_evaluate(s) <==> s.click_count == ClickCount::Triple,
        MouseContextVar::QuadClick.spec_evaluate(s) <==> s.click_count == ClickCount::Quad,
        MouseContextVar::IsMouseScrolling.spec_evaluate(s) <==> s.mouse_scrolling,
        MouseContextVar::OverCellSemantically(p).spec_evaluate(s) <==> p.spec_matches(s.semantic_tag),
        MouseContextVar::NotOverCellSemantically(p).spec_evaluate(s) <==> !p.spec_matches(s.semantic_tag),
        MouseContextVar::OverCellDirectly(p).spec_evaluate(s) <==> p.spec_matches(s.direct_tag),
        MouseContextVar::DragStartCommand.spec_evaluate(s) <==> (s.drag_start_tag matches Some(Tag::Command(_))),
        MouseContextVar::IsPointerTarget.spec_evaluate(s) <==> spec_is_pointer_target_tag(
            s.direct_tag,
            s.right_click_popup_active,
        ),
        MouseContextVar::DragStartPointerTarget.spec_evaluate(s) <==> spec_is_pointer_target_tag(
            s.drag_start_tag,
            s.right_click_popup_active,
        ),
        !s.smart_mode ==> !MouseContextVar::SmartModeScroll.spec_evaluate(s)
            && !MouseContextVar::SmartModeClickAboveViewport.spec_evaluate(s),
        s.smart_mode && (s.last_mouse matches Some(m) && (m.kind == MouseEventKind::ScrollUp || m.kind
            == MouseEventKind::ScrollDown)) ==> MouseContextVar::SmartModeScroll.spec_evaluate(s),
        forall|t: Tag|
            #![trigger TagPattern::Any.spec_matches(Some(t))]
            TagPattern::Any.spec_matches(Some(t)) && !TagPattern::NoTag.spec_matches(Some(t)),
        TagPattern::NoTag.spec_matches(None) && TagPattern::Any.spec_matches(None),
{
}

/// The tags the right-click menu pattern covers are exactly its entries and
/// the menu itself, and each entry's own pattern matches only that entry.
pub proof fn law_menu_patterns(t: Tag)
    ensures
        TagPattern::RightClickMenu.spec_matches(Some(t)) <==> (t == Tag::RightClickCopy || t == Tag::RightClickCut
            || t == Tag::RightClickPaste || t == Tag::RightClickUndo || t == Tag::RightClickRedo || t
            == Tag::RightClickRunTutorial || t == Tag::RightClickMenu),
        TagPattern::RightClickCopy.spec_matches(Some(t)) <==> t == Tag::RightClickCopy,
        TagPattern::RightClickCut.spec_matches(Some(t)) <==> t == Tag::RightClickCut,
        TagPattern::RightClickPaste.spec_matches(Some(t)) <==> t == Tag::RightClickPaste,
        TagPattern::RightClickUndo.spec_matches(Some(t)) <==> t == Tag::RightClickUndo,
        TagPattern::RightClickRedo.spec_matches(Some(t)) <==> t == Tag::RightClickRedo,
        TagPattern::Command.spec_matches(Some(t)) <==> t is Command,
        TagPattern::Suggestion.spec_matches(Some(t)) <==> (t is Suggestion || t == Tag::TabSuggestion),
{
}

// ---------------------------------------------------------------------------
// Binding contexts
// ---------------------------------------------------------------------------

/// A condition or its negation.
#[derive(Debug, Clone, Copy, PartialEq, Eq, Structural)]
pub struct ContextLiteral {
    pub var: MouseContextVar,
    pub negated: bool,
}

impl ContextLiteral {
    pub open spec fn spec_evaluate(self, s: MouseSnapshot) -> bool {
        self.var.spec_evaluate(s) != self.negated
    }

    pub fn evaluate(&self, s: &MouseSnapshot) -> (r: bool)
        ensures
            r == self.spec_evaluate(*s),
    {
        self.var.evaluate(s) != self.negated
    }
}

/// Every literal of `lits` holds in `s`.
pub open spec fn all_hold(lits: Seq<ContextLiteral>, s: MouseSnapshot) -> bool {
    forall|i: int| 0 <= i < lits.len() ==> #[trigger] lits[i].spec_evaluate(s)
}

/// The context of a binding: the conjunction of its literals.
#[derive(Debug, Clone)]
pub struct ContextExpr {
    pub literals: Vec<ContextLiteral>,
}

impl ContextExpr {
    /// The context that holds exactly when `var` does.
    pub fn from_var(var: MouseContextVar) -> (r: ContextExpr)
        ensures
            r.literals@ == seq![ContextLiteral { var: var, negated: false }],
    {
        let mut literals = Vec::new();
        literals.push(var.lit());
        ContextExpr { literals }
    }

    /// The context that holds exactly when `lit` does.
    pub fn from_lit(lit: ContextLiteral) -> (r: ContextExpr)
        ensures
            r.literals@ == seq![lit],
    {
        let mut literals = Vec::new();
        literals.push(lit);
        ContextExpr { literals }
    }

    /// This context, further restricted to where `lit` holds.
    pub fn and(self, lit: ContextLiteral) -> (r: ContextExpr)
        ensures
            r.literals@ == self.literals@.push(lit),
    {
        let mut literals = self.literals;
        literals.push(lit);
        ContextExpr { literals }
    }

    /// Whether every literal of the context holds in `s`.
    pub fn evaluate_direct(&self, s: &MouseSnapshot) -> (r: bool)
        ensures
            r == all_hold(self.literals@, *s),
    {
        let mut i: usize = 0;
        while i < self.literals.len()
            invariant
                i <= self.literals@.len(),
                forall|j: int| 0 <= j < i ==> #[trigger] self.literals@[j].spec_evaluate(*s),
            decreases self.literals.len() - i,
        {
            if !self.literals[i].evaluate(s) {
                return false;
            }
            i += 1;
        }
        true
    }
}

// ---------------------------------------------------------------------------
// Actions and bindings
// ---------------------------------------------------------------------------

/// Something a mouse binding can do.
#[derive(Debug, Clone, Copy, PartialEq, Eq, Structural)]
pub enum MouseEventAction {
    Copy,
    Cut,
    Paste,
    Undo,
    Redo,
    RunTutorial,
    ScrollSuggestionsUp,
    ScrollSuggestionsDown,
    ScrollSuggestionsLeft,
    ScrollSuggestionsRight,
    ScrollHistoryUp,
    ScrollHistoryDown,
    AcceptSuggestion,
    AcceptHistoryResult,
    AcceptAiResult,
    ClickCommand,
    ReleaseCommand,
    SelectWord,
    SelectLine,
    SelectAll,
    DragCommand,
    DragWord,
    DragLine,
    DragAll,
    ClickTutorialPrev,
    ClickTutorialNext,
    PromptDirAccept,
    PromptDirSelect,
    ClickClipboard,
    ClickPromptCopyBuffer,
    FlycompSelectYes,
    FlycompSelectNo,
    FlycompSelectDontAsk,
    HoverSuggestion,
    HoverHistoryResult,
    HoverAiResult,
    HoverCommand,
    HoverClearTooltip,
    PromptDirSelectDismiss,
    DisableMouseCapture,
    ScrollSuggestionsBar,
    RightClickMenuOpen,
    RightClickMenuDismiss,
    SetPointer(PointerShape),
}

/// A context and the actions to run, in order, when it holds.
#[derive(Debug, Clone)]
pub struct MouseBinding {
    pub context: ContextExpr,
    pub actions: Vec<MouseEventAction>,
}

/// A binding as plain values: its literals and its actions.
pub type BindingView = (Seq<ContextLiteral>, Seq<MouseEventAction>);

impl MouseBinding {
    pub open spec fn view_of(self) -> BindingView {
        (self.context.literals@, self.actions@)
    }

    pub fn new(context: ContextExpr, actions: &[MouseEventAction]) -> (r: Self)
        ensures
            r.context.literals@ == context.literals@,
            r.actions@ == actions@,
    {
        let mut v: Vec<MouseEventAction> = Vec::new();
        let mut i: usize = 0;
        while i < actions.len()
            invariant
                i <= actions@.len(),
                v@ == actions@.subrange(0, i as int),
            decreases actions.len() - i,
        {
            v.push(actions[i]);
            assert(actions@.subrange(0, i + 1) =~= actions@.subrange(0, i as int).push(actions@[i as int]));
            i += 1;
        }
        assert(actions@.subrange(0, actions@.len() as int) =~= actions@);
        MouseBinding { context, actions: v }
    }
}

/// The bindings of `bs` as plain values.
pub open spec fn bindings_view(bs: Seq<MouseBinding>) -> Seq<BindingView> {
    bs.map_values(|b: MouseBinding| b.view_of())
}

/// Viewing a concatenation of bindings is concatenating their views.
pub proof fn lemma_bindings_view_concat(a: Seq<MouseBinding>, b: Seq<MouseBinding>)
    ensures
        bindings_view(a + b) == bindings_view(a) + bindings_view(b),
{
    assert(bindings_view(a + b) =~= bindings_view(a) + bindings_view(b));
}

pub open spec fn spec_mouse_bindings_part_0() -> Seq<BindingView> {
    seq![
        (seq![ContextLiteral { var: MouseContextVar::RightClickPopupActive, negated: false }, ContextLiteral { var: MouseContextVar::LeftButtonClickedUp, negated: false }, ContextLiteral { var: MouseContextVar::OverCellSemantically(TagPattern::RightClickMenu), negated: true }], seq![MouseEventAction::RightClickMenuDismiss]),
        (seq![ContextLiteral { var: MouseContextVar::RightClickPopupActive, negated: false }, ContextLiteral { var: MouseContextVar::RightReleaseDismiss, negated: false }], seq![MouseEventAction::RightClickMenuDismiss]),
        (seq![ContextLiteral { var: MouseContextVar::RightClickPopupActive, negated: false }, ContextLiteral { var: MouseContextVar::ScrollUp, negated: false }, ContextLiteral { var: MouseContextVar::OverCellSemantically(TagPattern::RightClickMenu), negated: true }], seq![MouseEventAction::RightClickMenuDismiss]),
        (seq![ContextLiteral { var: MouseContextVar::RightClickPopupActive, negated: false }, ContextLiteral { var: MouseContextVar::ScrollDown, negated: false }, ContextLiteral { var: MouseContextVar::OverCellSemantically(TagPattern::RightClickMenu), negated: true }], seq![MouseEventAction::RightClickMenuDismiss]),
        (seq![ContextLiteral { var: MouseContextVar::RightButtonClickedDown, negated: false }, ContextLiteral { var: MouseContextVar::OverCellSemantically(TagPattern::RightClickMenu), negated: true }], seq![MouseEventAction::HoverSuggestion, MouseEventAction::HoverHistoryResult, MouseEventAction::HoverAiResult, MouseEventAction::HoverCommand, MouseEventAction::RightClickMenuOpen]),
        (seq![ContextLiteral { var: MouseContextVar::LeftButtonClickedUp, negated: false }, ContextLiteral { var: MouseContextVar::OverCellSemantically(TagPattern::RightClickCopy), negated: false }], seq![MouseEventAction::Copy]),
        (seq![ContextLiteral { var: MouseContextVar::LeftButtonClickedUp, negated: false }, ContextLiteral { var: MouseContextVar::OverCellSemantically(TagPattern::RightClickCut), negated: false }], seq![MouseEventAction::Cut]),
        (seq![ContextLiteral { var: MouseContextVar::LeftButtonClickedUp, negated: false }, ContextLiteral { var: MouseContextVar::OverCellSemantically(TagPattern::RightClickPaste), negated: false }], seq![MouseEventAction::Paste]),
    ]
}

fn mouse_bindings_part_0() -> (r: Vec<MouseBinding>)
    ensures
        bindings_view(r@) == spec_mouse_bindings_part_0(),
{
    let mut v: Vec<MouseBinding> = Vec::new();
    v.push(MouseBinding::new(ContextExpr::from_lit(MouseContextVar::RightClickPopupActive.lit()).and(MouseContextVar::LeftButtonClickedUp.lit()).and(MouseContextVar::OverCellSemantically(TagPattern::RightClickMenu).negate()), &[MouseEventAction::RightClickMenuDismiss]));
    v.push(MouseBinding::new(ContextExpr::from_lit(MouseContextVar::RightClickPopupActive.lit()).and(MouseContextVar::RightReleaseDismiss.lit()), &[MouseEventAction::RightClickMenuDismiss]));
    v.push(MouseBinding::new(ContextExpr::from_lit(MouseContextVar::RightClickPopupActive.lit()).and(MouseContextVar::ScrollUp.lit()).and(MouseContextVar::OverCellSemantically(TagPattern::RightClickMenu).negate()), &[MouseEventAction::RightClickMenuDismiss]));
    v.push(MouseBinding::new(ContextExpr::from_lit(MouseContextVar::RightClickPopupActive.lit()).and(MouseContextVar::ScrollDown.lit()).and(MouseContextVar::OverCellSemantically(TagPattern::RightClickMenu).negate()), &[MouseEventAction::RightClickMenuDismiss]));
    v.push(MouseBinding::new(ContextExpr::from_lit(MouseContextVar::RightButtonClickedDown.lit()).and(MouseContextVar::OverCellSemantically(TagPattern::RightClickMenu).negate()), &[MouseEventAction::HoverSuggestion, MouseEventAction::HoverHistoryResult, MouseEventAction::HoverAiResult, MouseEventAction::HoverCommand, MouseEventAction::RightClickMenuOpen]));
    v.push(MouseBinding::new(ContextExpr::from_lit(MouseContextVar::LeftButtonClickedUp.lit()).and(MouseContextVar::OverCellSemantically(TagPattern::RightClickCopy).lit()), &[MouseEventAction::Copy]));
    v.push(MouseBinding::new(ContextExpr::from_lit(MouseContextVar::LeftButtonClickedUp.lit()).and(MouseContextVar::OverCellSemantically(TagPattern::RightClickCut).lit()), &[MouseEventAction::Cut]));
    v.push(MouseBinding::new(ContextExpr::from_lit(MouseContextVar::LeftButtonClickedUp.lit()).and(MouseContextVar::OverCellSemantically(TagPattern::RightClickPaste).lit()), &[MouseEventAction::Paste]));
    assert(bindings_view(v@).len() == 8);
    assert(bindings_view(v@)[0] == spec_mouse_bindings_part_0()[0]);
    assert(bindings_view(v@)[1] == spec_mouse_bindings_part_0()[1]);
    assert(bindings_view(v@)[2] == spec_mouse_bindings_part_0()[2]);
    assert(bindings_view(v@)[3] == spec_mouse_bindings_part_0()[3]);
    assert(bindings_view(v@)[4] == spec_mouse_bindings_part_0()[4]);
    assert(bindings_view(v@)[5] == spec_mouse_bindings_part_0()[5]);
    assert(bindings_view(v@)[6] == spec_mouse_bindings_part_0()[6]);
    assert(bindings_view(v@)[7] == spec_mouse_bindings_part_0()[7]);
    assert(bindings_view(v@) =~= spec_mouse_bindings_part_0());
    v
}

pub open spec fn spec_mouse_bindings_part_1() -> Seq<BindingView> {
    seq![
        (seq![ContextLiteral { var: MouseContextVar::LeftButtonClickedUp, negated: false }, ContextLiteral { var: MouseContextVar::OverCellSemantically(TagPattern::RightClickUndo), negated: false }], seq![MouseEventAction::Undo]),
        (seq![ContextLiteral { var: MouseContextVar::LeftButtonClickedUp, negated: false }, ContextLiteral { var: MouseContextVar::OverCellSemantically(TagPattern::RightClickRedo), negated: false }], seq![MouseEventAction::Redo]),
        (seq![ContextLiteral { var: MouseContextVar::LeftButtonClickedUp, negated: false }, ContextLiteral { var: MouseContextVar::OverCellSemantically(TagPattern::RightClickRunTutorial), negated: false }], seq![MouseEventAction::RunTutorial]),
        (seq![ContextLiteral { var: MouseContextVar::TabCompletion, negated: false }, ContextLiteral { var: MouseContextVar::ScrollUp, negated: false }, ContextLiteral { var: MouseContextVar::IsOverSuggestions, negated: false }], seq![MouseEventAction::ScrollSuggestionsUp]),
        (seq![ContextLiteral { var: MouseContextVar::TabCompletion, negated: false }, ContextLiteral { var: MouseContextVar::ScrollDown, negated: false }, ContextLiteral { var: MouseContextVar::IsOverSuggestions, negated: false }], seq![MouseEventAction::ScrollSuggestionsDown]),
        (seq![ContextLiteral { var: MouseContextVar::TabCompletion, negated: false }, ContextLiteral { var: MouseContextVar::ScrollLeft, negated: false }, ContextLiteral { var: MouseContextVar::IsOverSuggestions, negated: false }], seq![MouseEventAction::ScrollSuggestionsLeft]),
        (seq![ContextLiteral { var: MouseContextVar::TabCompletion, negated: false }, ContextLiteral { var: MouseContextVar::ScrollRight, negated: false }, ContextLiteral { var: MouseContextVar::IsOverSuggestions, negated: false }], seq![MouseEventAction::ScrollSuggestionsRight]),
        (seq![ContextLiteral { var: MouseContextVar::TabCompletion, negated: false }, ContextLiteral { var: MouseContextVar::ScrollBarDrag, negated: false }], seq![MouseEventAction::ScrollSuggestionsBar]),
    ]
}

fn mouse_bindings_part_1() -> (r: Vec<MouseBinding>)
    ensures
        bindings_view(r@) == spec_mouse_bindings_part_1(),
{
    let mut v: Vec<MouseBinding> = Vec::new();
    v.push(MouseBinding::new(ContextExpr::from_lit(MouseContextVar::LeftButtonClickedUp.lit()).and(MouseContextVar::OverCellSemantically(TagPattern::RightClickUndo).lit()), &[MouseEventAction::Undo]));
    v.push(MouseBinding::new(ContextExpr::from_lit(MouseContextVar::LeftButtonClickedUp.lit()).and(MouseContextVar::OverCellSemantically(TagPattern::RightClickRedo).lit()), &[MouseEventAction::Redo]));
    v.push(MouseBinding::new(ContextExpr::from_lit(MouseContextVar::LeftButtonClickedUp.lit()).and(MouseContextVar::OverCellSemantically(TagPattern::RightClickRunTutorial).lit()), &[MouseEventAction::RunTutorial]));
    v.push(MouseBinding::new(ContextExpr::from_lit(MouseContextVar::TabCompletion.lit()).and(MouseContextVar::ScrollUp.lit()).and(MouseContextVar::IsOverSuggestions.lit()), &[MouseEventAction::ScrollSuggestionsUp]));
    v.push(MouseBinding::new(ContextExpr::from_lit(MouseContextVar::TabCompletion.lit()).and(MouseContextVar::ScrollDown.lit()).and(MouseContextVar::IsOverSuggestions.lit()), &[MouseEventAction::ScrollSuggestionsDown]));
    v.push(MouseBinding::new(ContextExpr::from_lit(MouseContextVar::TabCompletion.lit()).and(MouseContextVar::ScrollLeft.lit()).and(MouseContextVar::IsOverSuggestions.lit()), &[MouseEventAction::ScrollSuggestionsLeft]));
    v.push(MouseBinding::new(ContextExpr::from_lit(MouseContextVar::TabCompletion.lit()).and(MouseContextVar::ScrollRight.lit()).and(MouseContextVar::IsOverSuggestions.lit()), &[MouseEventAction::ScrollSuggestionsRight]));
    v.push(MouseBinding::new(ContextExpr::from_lit(MouseContextVar::TabCompletion.lit()).and(MouseContextVar::ScrollBarDrag.lit()), &[MouseEventAction::ScrollSuggestionsBar]));
    assert(bindings_view(v@).len() == 8);
    assert(bindings_view(v@)[0] == spec_mouse_bindings_part_1()[0]);
    assert(bindings_view(v@)[1] == spec_mouse_bindings_part_1()[1]);
    assert(bindings_view(v@)[2] == spec_mouse_bindings_part_1()[2]);
    assert(bindings_view(v@)[3] == spec_mouse_bindings_part_1()[3]);
    assert(bindings_view(v@)[4] == spec_mouse_bindings_part_1()[4]);
    assert(bindings_view(v@)[5] == spec_mouse_bindings_part_1()[5]);
    assert(bindings_view(v@)[6] == spec_mouse_bindings_part_1()[6]);
    assert(bindings_view(v@)[7] == spec_mouse_bindings_part_1()[7]);
    assert(bindings_view(v@) =~= spec_mouse_bindings_part_1());
    v
}

pub open spec fn spec_mouse_bindings_part_2() -> Seq<BindingView> {
    seq![
        (seq![ContextLiteral { var: MouseContextVar::FuzzyHistorySearch, negated: false }, ContextLiteral { var: MouseContextVar::ScrollUp, negated: false }, ContextLiteral { var: MouseContextVar::IsOverFuzzyHistory, negated: false }], seq![MouseEventAction::ScrollHistoryUp]),
        (seq![ContextLiteral { var: MouseContextVar::FuzzyHistorySearch, negated: false }, ContextLiteral { var: MouseContextVar::ScrollDown, negated: false }, ContextLiteral { var: MouseContextVar::IsOverFuzzyHistory, negated: false }], seq![MouseEventAction::ScrollHistoryDown]),
        (seq![ContextLiteral { var: MouseContextVar::PromptDirSelection, negated: false }, ContextLiteral { var: MouseContextVar::Moved, negated: false }, ContextLiteral { var: MouseContextVar::RightClickPopupActive, negated: true }, ContextLiteral { var: MouseContextVar::OverCellSemantically(TagPattern::Ps1PromptCwd), negated: false }], seq![MouseEventAction::HoverClearTooltip]),
        (seq![ContextLiteral { var: MouseContextVar::PromptDirSelection, negated: false }, ContextLiteral { var: MouseContextVar::Moved, negated: false }, ContextLiteral { var: MouseContextVar::RightClickPopupActive, negated: true }, ContextLiteral { var: MouseContextVar::OverCellSemantically(TagPattern::PromptCopyBuffer), negated: false }], seq![MouseEventAction::HoverClearTooltip]),
        (seq![ContextLiteral { var: MouseContextVar::PromptDirSelection, negated: false }, ContextLiteral { var: MouseContextVar::Moved, negated: false }, ContextLiteral { var: MouseContextVar::RightClickPopupActive, negated: true }, ContextLiteral { var: MouseContextVar::OverCellSemantically(TagPattern::Ps1PromptCwd), negated: true }, ContextLiteral { var: MouseContextVar::OverCellSemantically(TagPattern::PromptCopyBuffer), negated: true }], seq![MouseEventAction::PromptDirSelectDismiss]),
        (seq![ContextLiteral { var: MouseContextVar::TabCompletionAskForFlycomp, negated: false }, ContextLiteral { var: MouseContextVar::OverCellSemantically(TagPattern::FlycompYes), negated: false }], seq![MouseEventAction::FlycompSelectYes]),
        (seq![ContextLiteral { var: MouseContextVar::TabCompletionAskForFlycomp, negated: false }, ContextLiteral { var: MouseContextVar::OverCellSemantically(TagPattern::FlycompNo), negated: false }], seq![MouseEventAction::FlycompSelectNo]),
        (seq![ContextLiteral { var: MouseContextVar::TabCompletionAskForFlycomp, negated: false }, ContextLiteral { var: MouseContextVar::OverCellSemantically(TagPattern::FlycompDontAsk), negated: false }], seq![MouseEventAction::FlycompSelectDontAsk]),
    ]
}

fn mouse_bindings_part_2() -> (r: Vec<MouseBinding>)
    ensures
        bindings_view(r@) == spec_mouse_bindings_part_2(),
{
    let mut v: Vec<MouseBinding> = Vec::new();
    v.push(MouseBinding::new(ContextExpr::from_lit(MouseContextVar::FuzzyHistorySearch.lit()).and(MouseContextVar::ScrollUp.lit()).and(MouseContextVar::IsOverFuzzyHistory.lit()), &[MouseEventAction::ScrollHistoryUp]));
    v.push(MouseBinding::new(ContextExpr::from_lit(MouseContextVar::FuzzyHistorySearch.lit()).and(MouseContextVar::ScrollDown.lit()).and(MouseContextVar::IsOverFuzzyHistory.lit()), &[MouseEventAction::ScrollHistoryDown]));
    v.push(MouseBinding::new(ContextExpr::from_lit(MouseContextVar::PromptDirSelection.lit()).and(MouseContextVar::Moved.lit()).and(MouseContextVar::RightClickPopupActive.negate()).and(MouseContextVar::OverCellSemantically(TagPattern::Ps1PromptCwd).lit()), &[MouseEventAction::HoverClearTooltip]));
    v.push(MouseBinding::new(ContextExpr::from_lit(MouseContextVar::PromptDirSelection.lit()).and(MouseContextVar::Moved.lit()).and(MouseContextVar::RightClickPopupActive.negate()).and(MouseContextVar::OverCellSemantically(TagPattern::PromptCopyBuffer).lit()), &[MouseEventAction::HoverClearTooltip]));
    v.push(MouseBinding::new(ContextExpr::from_lit(MouseContextVar::PromptDirSelection.lit()).and(MouseContextVar::Moved.lit()).and(MouseContextVar::RightClickPopupActive.negate()).and(MouseContextVar::OverCellSemantically(TagPattern::Ps1PromptCwd).negate()).and(MouseContextVar::OverCellSemantically(TagPattern::PromptCopyBuffer).negate()), &[MouseEventAction::PromptDirSelectDismiss]));
    v.push(MouseBinding::new(ContextExpr::from_lit(MouseContextVar::TabCompletionAskForFlycomp.lit()).and(MouseContextVar::OverCellSemantically(TagPattern::FlycompYes).lit()), &[MouseEventAction::FlycompSelectYes]));
    v.push(MouseBinding::new(ContextExpr::from_lit(MouseContextVar::TabCompletionAskForFlycomp.lit()).and(MouseContextVar::OverCellSemantically(TagPattern::FlycompNo).lit()), &[MouseEventAction::FlycompSelectNo]));
    v.push(MouseBinding::new(ContextExpr::from_lit(MouseContextVar::TabCompletionAskForFlycomp.lit()).and(MouseContextVar::OverCellSemantically(TagPattern::FlycompDontAsk).lit()), &[MouseEventAction::FlycompSelectDontAsk]));
    assert(bindings_view(v@).len() == 8);
    assert(bindings_view(v@)[0] == spec_mouse_bindings_part_2()[0]);
    assert(bindings_view(v@)[1] == spec_mouse_bindings_part_2()[1]);
    assert(bindings_view(v@)[2] == spec_mouse_bindings_part_2()[2]);
    assert(bindings_view(v@)[3] == spec_mouse_bindings_part_2()[3]);
    assert(bindings_view(v@)[4] == spec_mouse_bindings_part_2()[4]);
    assert(bindings_view(v@)[5] == spec_mouse_bindings_part_2()[5]);
    assert(bindings_view(v@)[6] == spec_mouse_bindings_part_2()[6]);
    assert(bindings_view(v@)[7] == spec_mouse_bindings_part_2()[7]);
    assert(bindings_view(v@) =~= spec_mouse_bindings_part_2());
    v
}

pub open spec fn spec_mouse_bindings_part_3() -> Seq<BindingView> {
    seq![
        (seq![ContextLiteral { var: MouseContextVar::TabCompletion, negated: false }, ContextLiteral { var: MouseContextVar::Moved, negated: false }, ContextLiteral { var: MouseContextVar::RightClickPopupActive, negated: true }, ContextLiteral { var: MouseContextVar::IsMouseScrolling, negated: true }, ContextLiteral { var: MouseContextVar::OverCellSemantically(TagPattern::Suggestion), negated: false }], seq![MouseEventAction::HoverSuggestion]),
        (seq![ContextLiteral { var: MouseContextVar::TabCompletion, negated: false }, ContextLiteral { var: MouseContextVar::DragLeft, negated: false }, ContextLiteral { var: MouseContextVar::RightClickPopupActive, negated: true }, ContextLiteral { var: MouseContextVar::IsMouseScrolling, negated: true }, ContextLiteral { var: MouseContextVar::OverCellSemantically(TagPattern::Suggestion), negated: false }], seq![MouseEventAction::HoverSuggestion]),
        (seq![ContextLiteral { var: MouseContextVar::TabCompletion, negated: false }, ContextLiteral { var: MouseContextVar::LeftButtonClickedDown, negated: false }, ContextLiteral { var: MouseContextVar::RightClickPopupActive, negated: true }, ContextLiteral { var: MouseContextVar::IsMouseScrolling, negated: true }, ContextLiteral { var: MouseContextVar::OverCellSemantically(TagPattern::Suggestion), negated: false }], seq![MouseEventAction::HoverSuggestion]),
        (seq![ContextLiteral { var: MouseContextVar::FuzzyHistorySearch, negated: false }, ContextLiteral { var: MouseContextVar::Moved, negated: false }, ContextLiteral { var: MouseContextVar::RightClickPopupActive, negated: true }, ContextLiteral { var: MouseContextVar::IsMouseScrolling, negated: true }, ContextLiteral { var: MouseContextVar::OverCellSemantically(TagPattern::HistoryResult), negated: false }], seq![MouseEventAction::HoverHistoryResult]),
        (seq![ContextLiteral { var: MouseContextVar::FuzzyHistorySearch, negated: false }, ContextLiteral { var: MouseContextVar::DragLeft, negated: false }, ContextLiteral { var: MouseContextVar::RightClickPopupActive, negated: true }, ContextLiteral { var: MouseContextVar::IsMouseScrolling, negated: true }, ContextLiteral { var: MouseContextVar::OverCellSemantically(TagPattern::HistoryResult), negated: false }], seq![MouseEventAction::HoverHistoryResult]),
        (seq![ContextLiteral { var: MouseContextVar::FuzzyHistorySearch, negated: false }, ContextLiteral { var: MouseContextVar::LeftButtonClickedDown, negated: false }, ContextLiteral { var: MouseContextVar::RightClickPopupActive, negated: true }, ContextLiteral { var: MouseContextVar::IsMouseScrolling, negated: true }, ContextLiteral { var: MouseContextVar::OverCellSemantically(TagPattern::HistoryResult), negated: false }], seq![MouseEventAction::HoverHistoryResult]),
        (seq![ContextLiteral { var: MouseContextVar::AgentOutputSelection, negated: false }, ContextLiteral { var: MouseContextVar::Moved, negated: false }, ContextLiteral { var: MouseContextVar::RightClickPopupActive, negated: true }, ContextLiteral { var: MouseContextVar::IsMouseScrolling, negated: true }, ContextLiteral { var: MouseContextVar::OverCellSemantically(TagPattern::AiResult), negated: false }], seq![MouseEventAction::HoverAiResult]),
        (seq![ContextLiteral { var: MouseContextVar::AgentOutputSelection, negated: false }, ContextLiteral { var: MouseContextVar::DragLeft, negated: false }, ContextLiteral { var: MouseContextVar::RightClickPopupActive, negated: true }, ContextLiteral { var: MouseContextVar::IsMouseScrolling, negated: true }, ContextLiteral { var: MouseContextVar::OverCellSemantically(TagPattern::AiResult), negated: false }], seq![MouseEventAction::HoverAiResult]),
    ]
}

fn mouse_bindings_part_3() -> (r: Vec<MouseBinding>)
    ensures
        bindings_view(r@) == spec_mouse_bindings_part_3(),
{
    let mut v: Vec<MouseBinding> = Vec::new();
    v.push(MouseBinding::new(ContextExpr::from_lit(MouseContextVar::TabCompletion.lit()).and(MouseContextVar::Moved.lit()).and(MouseContextVar::RightClickPopupActive.negate()).and(MouseContextVar::IsMouseScrolling.negate()).and(MouseContextVar::OverCellSemantically(TagPattern::Suggestion).lit()), &[MouseEventAction::HoverSuggestion]));
    v.push(MouseBinding::new(ContextExpr::from_lit(MouseContextVar::TabCompletion.lit()).and(MouseContextVar::DragLeft.lit()).and(MouseContextVar::RightClickPopupActive.negate()).and(MouseContextVar::IsMouseScrolling.negate()).and(MouseContextVar::OverCellSemantically(TagPattern::Suggestion).lit()), &[MouseEventAction::HoverSuggestion]));
    v.push(MouseBinding::new(ContextExpr::from_lit(MouseContextVar::TabCompletion.lit()).and(MouseContextVar::LeftButtonClickedDown.lit()).and(MouseContextVar::RightClickPopupActive.negate()).and(MouseContextVar::IsMouseScrolling.negate()).and(MouseContextVar::OverCellSemantically(TagPattern::Suggestion).lit()), &[MouseEventAction::HoverSuggestion]));
    v.push(MouseBinding::new(ContextExpr::from_lit(MouseContextVar::FuzzyHistorySearch.lit()).and(MouseContextVar::Moved.lit()).and(MouseContextVar::RightClickPopupActive.negate()).and(MouseContextVar::IsMouseScrolling.negate()).and(MouseContextVar::OverCellSemantically(TagPattern::HistoryResult).lit()), &[MouseEventAction::HoverHistoryResult]));
    v.push(MouseBinding::new(ContextExpr::from_lit(MouseContextVar::FuzzyHistorySearch.lit()).and(MouseContextVar::DragLeft.lit()).and(MouseContextVar::RightClickPopupActive.negate()).and(MouseContextVar::IsMouseScrolling.negate()).and(MouseContextVar::OverCellSemantically(TagPattern::HistoryResult).lit()), &[MouseEventAction::HoverHistoryResult]));
    v.push(MouseBinding::new(ContextExpr::from_lit(MouseContextVar::FuzzyHistorySearch.lit()).and(MouseContextVar::LeftButtonClickedDown.lit()).and(MouseContextVar::RightClickPopupActive.negate()).and(MouseContextVar::IsMouseScrolling.negate()).and(MouseContextVar::OverCellSemantically(TagPattern::HistoryResult).lit()), &[MouseEventAction::HoverHistoryResult]));
    v.push(MouseBinding::new(ContextExpr::from_lit(MouseContextVar::AgentOutputSelection.lit()).and(MouseContextVar::Moved.lit()).and(MouseContextVar::RightClickPopupActive.negate()).and(MouseContextVar::IsMouseScrolling.negate()).and(MouseContextVar::OverCellSemantically(TagPattern::AiResult).lit()), &[MouseEventAction::HoverAiResult]));
    v.push(MouseBinding::new(ContextExpr::from_lit(MouseContextVar::AgentOutputSelection.lit()).and(MouseContextVar::DragLeft.lit()).and(MouseContextVar::RightClickPopupActive.negate()).and(MouseContextVar::IsMouseScrolling.negate()).and(MouseContextVar::OverCellSemantically(TagPattern::AiResult).lit()), &[MouseEventAction::HoverAiResult]));
    assert(bindings_view(v@).len() == 8);
    assert(bindings_view(v@)[0] == spec_mouse_bindings_part_3()[0]);
    assert(bindings_view(v@)[1] == spec_mouse_bindings_part_3()[1]);
    assert(bindings_view(v@)[2] == spec_mouse_bindings_part_3()[2]);
    assert(bindings_view(v@)[3] == spec_mouse_bindings_part_3()[3]);
    assert(bindings_view(v@)[4] == spec_mouse_bindings_part_3()[4]);
    assert(bindings_view(v@)[5] == spec_mouse_bindings_part_3()[5]);
    assert(bindings_view(v@)[6] == spec_mouse_bindings_part_3()[6]);
    assert(bindings_view(v@)[7] == spec_mouse_bindings_part_3()[7]);
    assert(bindings_view(v@) =~= spec_mouse_bindings_part_3());
    v
}

pub open spec fn spec_mouse_bindings_part_4() -> Seq<BindingView> {
    seq![
        (seq![ContextLiteral { var: MouseContextVar::AgentOutputSelection, negated: false }, ContextLiteral { var: MouseContextVar::LeftButtonClickedDown, negated: false }, ContextLiteral { var: MouseContextVar::RightClickPopupActive, negated: true }, ContextLiteral { var: MouseContextVar::IsMouseScrolling, negated: true }, ContextLiteral { var: MouseContextVar::OverCellSemantically(TagPattern::AiResult), negated: false }], seq![MouseEventAction::HoverAiResult]),
        (seq![ContextLiteral { var: MouseContextVar::Moved, negated: false }, ContextLiteral { var: MouseContextVar::RightClickPopupActive, negated: true }, ContextLiteral { var: MouseContextVar::OverCellSemantically(TagPattern::Command), negated: false }], seq![MouseEventAction::HoverCommand]),
        (seq![ContextLiteral { var: MouseContextVar::Moved, negated: false }, ContextLiteral { var: MouseContextVar::RightClickPopupActive, negated: true }, ContextLiteral { var: MouseContextVar::OverCellSemantically(TagPattern::Command), negated: true }], seq![MouseEventAction::HoverClearTooltip]),
        (seq![ContextLiteral { var: MouseContextVar::TabCompletion, negated: false }, ContextLiteral { var: MouseContextVar::LeftButtonClickedUp, negated: false }, ContextLiteral { var: MouseContextVar::OverCellSemantically(TagPattern::Suggestion), negated: false }], seq![MouseEventAction::AcceptSuggestion]),
        (seq![ContextLiteral { var: MouseContextVar::FuzzyHistorySearch, negated: false }, ContextLiteral { var: MouseContextVar::LeftButtonClickedUp, negated: false }, ContextLiteral { var: MouseContextVar::OverCellSemantically(TagPattern::HistoryResult), negated: false }], seq![MouseEventAction::AcceptHistoryResult]),
        (seq![ContextLiteral { var: MouseContextVar::AgentOutputSelection, negated: false }, ContextLiteral { var: MouseContextVar::LeftButtonClickedUp, negated: false }, ContextLiteral { var: MouseContextVar::OverCellSemantically(TagPattern::AiResult), negated: false }], seq![MouseEventAction::AcceptAiResult]),
        (seq![ContextLiteral { var: MouseContextVar::LeftButtonClickedDown, negated: false }, ContextLiteral { var: MouseContextVar::SingleClick, negated: false }, ContextLiteral { var: MouseContextVar::OverCellSemantically(TagPattern::Command), negated: false }], seq![MouseEventAction::RightClickMenuDismiss, MouseEventAction::ClickCommand]),
        (seq![ContextLiteral { var: MouseContextVar::LeftButtonClickedDown, negated: false }, ContextLiteral { var: MouseContextVar::DoubleClick, negated: false }, ContextLiteral { var: MouseContextVar::OverCellSemantically(TagPattern::Command), negated: false }], seq![MouseEventAction::RightClickMenuDismiss, MouseEventAction::SelectWord]),
    ]
}

fn mouse_bindings_part_4() -> (r: Vec<MouseBinding>)
    ensures
        bindings_view(r@) == spec_mouse_bindings_part_4(),
{
    let mut v: Vec<MouseBinding> = Vec::new();
    v.push(MouseBinding::new(ContextExpr::from_lit(MouseContextVar::AgentOutputSelection.lit()).and(MouseContextVar::LeftButtonClickedDown.lit()).and(MouseContextVar::RightClickPopupActive.negate()).and(MouseContextVar::IsMouseScrolling.negate()).and(MouseContextVar::OverCellSemantically(TagPattern::AiResult).lit()), &[MouseEventAction::HoverAiResult]));
    v.push(MouseBinding::new(ContextExpr::from_lit(MouseContextVar::Moved.lit()).and(MouseContextVar::RightClickPopupActive.negate()).and(MouseContextVar::OverCellSemantically(TagPattern::Command).lit()), &[MouseEventAction::HoverCommand]));
    v.push(MouseBinding::new(ContextExpr::from_lit(MouseContextVar::Moved.lit()).and(MouseContextVar::RightClickPopupActive.negate()).and(MouseContextVar::OverCellSemantically(TagPattern::Command).negate()), &[MouseEventAction::HoverClearTooltip]));
    v.push(MouseBinding::new(ContextExpr::from_lit(MouseContextVar::TabCompletion.lit()).and(MouseContextVar::LeftButtonClickedUp.lit()).and(MouseContextVar::OverCellSemantically(TagPattern::Suggestion).lit()), &[MouseEventAction::AcceptSuggestion]));
    v.push(MouseBinding::new(ContextExpr::from_lit(MouseContextVar::FuzzyHistorySearch.lit()).and(MouseContextVar::LeftButtonClickedUp.lit()).and(MouseContextVar::OverCellSemantically(TagPattern::HistoryResult).lit()), &[MouseEventAction::AcceptHistoryResult]));
    v.push(MouseBinding::new(ContextExpr::from_lit(MouseContextVar::AgentOutputSelection.lit()).and(MouseContextVar::LeftButtonClickedUp.lit()).and(MouseContextVar::OverCellSemantically(TagPattern::AiResult).lit()), &[MouseEventAction::AcceptAiResult]));
    v.push(MouseBinding::new(ContextExpr::from_lit(MouseContextVar::LeftButtonClickedDown.lit()).and(MouseContextVar::SingleClick.lit()).and(MouseContextVar::OverCellSemantically(TagPattern::Command).lit()), &[MouseEventAction::RightClickMenuDismiss, MouseEventAction::ClickCommand]));
    v.push(MouseBinding::new(ContextExpr::from_lit(MouseContextVar::LeftButtonClickedDown.lit()).and(MouseContextVar::DoubleClick.lit()).and(MouseContextVar::OverCellSemantically(TagPattern::Command).lit()), &[MouseEventAction::RightClickMenuDismiss, MouseEventAction::SelectWord]));
    assert(bindings_view(v@).len() == 8);
    assert(bindings_view(v@)[0] == spec_mouse_bindings_part_4()[0]);
    assert(bindings_view(v@)[1] == spec_mouse_bindings_part_4()[1]);
    assert(bindings_view(v@)[2] == spec_mouse_bindings_part_4()[2]);
    assert(bindings_view(v@)[3] == spec_mouse_bindings_part_4()[3]);
    assert(bindings_view(v@)[4] == spec_mouse_bindings_part_4()[4]);
    assert(bindings_view(v@)[5] == spec_mouse_bindings_part_4()[5]);
    assert(bindings_view(v@)[6] == spec_mouse_bindings_part_4()[6]);
    assert(bindings_view(v@)[7] == spec_mouse_bindings_part_4()[7]);
    assert(bindings_view(v@) =~= spec_mouse_bindings_part_4());
    v
}

pub open spec fn spec_mouse_bindings_part_5() -> Seq<BindingView> {
    seq![
        (seq![ContextLiteral { var: MouseContextVar::LeftButtonClickedDown, negated: false }, ContextLiteral { var: MouseContextVar::TripleClick, negated: false }, ContextLiteral { var: MouseContextVar::OverCellSemantically(TagPattern::Command), negated: false }], seq![MouseEventAction::RightClickMenuDismiss, MouseEventAction::SelectLine]),
        (seq![ContextLiteral { var: MouseContextVar::LeftButtonClickedDown, negated: false }, ContextLiteral { var: MouseContextVar::QuadClick, negated: false }, ContextLiteral { var: MouseContextVar::OverCellSemantically(TagPattern::Command), negated: false }], seq![MouseEventAction::RightClickMenuDismiss, MouseEventAction::SelectAll]),
        (seq![ContextLiteral { var: MouseContextVar::LeftButtonClickedUp, negated: false }, ContextLiteral { var: MouseContextVar::OverCellSemantically(TagPattern::Command), negated: false }], seq![MouseEventAction::ReleaseCommand]),
        (seq![ContextLiteral { var: MouseContextVar::DragLeft, negated: false }, ContextLiteral { var: MouseContextVar::SingleClick, negated: false }, ContextLiteral { var: MouseContextVar::OverCellSemantically(TagPattern::Command), negated: false }], seq![MouseEventAction::RightClickMenuDismiss, MouseEventAction::DragCommand]),
        (seq![ContextLiteral { var: MouseContextVar::DragLeft, negated: false }, ContextLiteral { var: MouseContextVar::DoubleClick, negated: false }, ContextLiteral { var: MouseContextVar::OverCellSemantically(TagPattern::Command), negated: false }], seq![MouseEventAction::DragWord]),
        (seq![ContextLiteral { var: MouseContextVar::DragLeft, negated: false }, ContextLiteral { var: MouseContextVar::TripleClick, negated: false }, ContextLiteral { var: MouseContextVar::OverCellSemantically(TagPattern::Command), negated: false }], seq![MouseEventAction::DragLine]),
        (seq![ContextLiteral { var: MouseContextVar::DragLeft, negated: false }, ContextLiteral { var: MouseContextVar::QuadClick, negated: false }, ContextLiteral { var: MouseContextVar::OverCellSemantically(TagPattern::Command), negated: false }], seq![MouseEventAction::DragAll]),
        (seq![ContextLiteral { var: MouseContextVar::LeftButtonClickedUp, negated: false }, ContextLiteral { var: MouseContextVar::OverCellSemantically(TagPattern::TutorialPrev), negated: false }], seq![MouseEventAction::ClickTutorialPrev]),
    ]
}

fn mouse_bindings_part_5() -> (r: Vec<MouseBinding>)
    ensures
        bindings_view(r@) == spec_mouse_bindings_part_5(),
{
    let mut v: Vec<MouseBinding> = Vec::new();
    v.push(MouseBinding::new(ContextExpr::from_lit(MouseContextVar::LeftButtonClickedDown.lit()).and(MouseContextVar::TripleClick.lit()).and(MouseContextVar::OverCellSemantically(TagPattern::Command).lit()), &[MouseEventAction::RightClickMenuDismiss, MouseEventAction::SelectLine]));
    v.push(MouseBinding::new(ContextExpr::from_lit(MouseContextVar::LeftButtonClickedDown.lit()).and(MouseContextVar::QuadClick.lit()).and(MouseContextVar::OverCellSemantically(TagPattern::Command).lit()), &[MouseEventAction::RightClickMenuDismiss, MouseEventAction::SelectAll]));
    v.push(MouseBinding::new(ContextExpr::from_lit(MouseContextVar::LeftButtonClickedUp.lit()).and(MouseContextVar::OverCellSemantically(TagPattern::Command).lit()), &[MouseEventAction::ReleaseCommand]));
    v.push(MouseBinding::new(ContextExpr::from_lit(MouseContextVar::DragLeft.lit()).and(MouseContextVar::SingleClick.lit()).and(MouseContextVar::OverCellSemantically(TagPattern::Command).lit()), &[MouseEventAction::RightClickMenuDismiss, MouseEventAction::DragCommand]));
    v.push(MouseBinding::new(ContextExpr::from_lit(MouseContextVar::DragLeft.lit()).and(MouseContextVar::DoubleClick.lit()).and(MouseContextVar::OverCellSemantically(TagPattern::Command).lit()), &[MouseEventAction::DragWord]));
    v.push(MouseBinding::new(ContextExpr::from_lit(MouseContextVar::DragLeft.lit()).and(MouseContextVar::TripleClick.lit()).and(MouseContextVar::OverCellSemantically(TagPattern::Command).lit()), &[MouseEventAction::DragLine]));
    v.push(MouseBinding::new(ContextExpr::from_lit(MouseContextVar::DragLeft.lit()).and(MouseContextVar::QuadClick.lit()).and(MouseContextVar::OverCellSemantically(TagPattern::Command).lit()), &[MouseEventAction::DragAll]));
    v.push(MouseBinding::new(ContextExpr::from_lit(MouseContextVar::LeftButtonClickedUp.lit()).and(MouseContextVar::OverCellSemantically(TagPattern::TutorialPrev).lit()), &[MouseEventAction::ClickTutorialPrev]));
    assert(bindings_view(v@).len() == 8);
    assert(bindings_view(v@)[0] == spec_mouse_bindings_part_5()[0]);
    assert(bindings_view(v@)[1] == spec_mouse_bindings_part_5()[1]);
    assert(bindings_view(v@)[2] == spec_mouse_bindings_part_5()[2]);
    assert(bindings_view(v@)[3] == spec_mouse_bindings_part_5()[3]);
    assert(bindings_view(v@)[4] == spec_mouse_bindings_part_5()[4]);
    assert(bindings_view(v@)[5] == spec_mouse_bindings_part_5()[5]);
    assert(bindings_view(v@)[6] == spec_mouse_bindings_part_5()[6]);
    assert(bindings_view(v@)[7] == spec_mouse_bindings_part_5()[7]);
    assert(bindings_view(v@) =~= spec_mouse_bindings_part_5());
    v
}

pub open spec fn spec_mouse_bindings_part_6() -> Seq<BindingView> {
    seq![
        (seq![ContextLiteral { var: MouseContextVar::LeftButtonClickedUp, negated: false }, ContextLiteral { var: MouseContextVar::OverCellSemantically(TagPattern::TutorialNext), negated: false }], seq![MouseEventAction::ClickTutorialNext]),
        (seq![ContextLiteral { var: MouseContextVar::PromptDirSelection, negated: false }, ContextLiteral { var: MouseContextVar::LeftButtonClickedUp, negated: false }, ContextLiteral { var: MouseContextVar::OverCellSemantically(TagPattern::Ps1PromptCwd), negated: false }], seq![MouseEventAction::PromptDirAccept]),
        (seq![ContextLiteral { var: MouseContextVar::LeftButtonClickedDown, negated: false }, ContextLiteral { var: MouseContextVar::OverCellSemantically(TagPattern::Ps1PromptCwd), negated: false }], seq![MouseEventAction::PromptDirSelect]),
        (seq![ContextLiteral { var: MouseContextVar::DragLeft, negated: false }, ContextLiteral { var: MouseContextVar::OverCellSemantically(TagPattern::Ps1PromptCwd), negated: false }], seq![MouseEventAction::PromptDirSelect]),
        (seq![ContextLiteral { var: MouseContextVar::LeftButtonClickedUp, negated: false }, ContextLiteral { var: MouseContextVar::OverCellSemantically(TagPattern::Clipboard), negated: false }], seq![MouseEventAction::ClickClipboard]),
        (seq![ContextLiteral { var: MouseContextVar::LeftButtonClickedUp, negated: false }, ContextLiteral { var: MouseContextVar::OverCellSemantically(TagPattern::PromptCopyBuffer), negated: false }], seq![MouseEventAction::ClickPromptCopyBuffer]),
        (seq![ContextLiteral { var: MouseContextVar::SmartModeScroll, negated: false }], seq![MouseEventAction::DisableMouseCapture]),
        (seq![ContextLiteral { var: MouseContextVar::SmartModeClickAboveViewport, negated: false }], seq![MouseEventAction::DisableMouseCapture]),
    ]
}

fn mouse_bindings_part_6() -> (r: Vec<MouseBinding>)
    ensures
        bindings_view(r@) == spec_mouse_bindings_part_6(),
{
    let mut v: Vec<MouseBinding> = Vec::new();
    v.push(MouseBinding::new(ContextExpr::from_lit(MouseContextVar::LeftButtonClickedUp.lit()).and(MouseContextVar::OverCellSemantically(TagPattern::TutorialNext).lit()), &[MouseEventAction::ClickTutorialNext]));
    v.push(MouseBinding::new(ContextExpr::from_lit(MouseContextVar::PromptDirSelection.lit()).and(MouseContextVar::LeftButtonClickedUp.lit()).and(MouseContextVar::OverCellSemantically(TagPattern::Ps1PromptCwd).lit()), &[MouseEventAction::PromptDirAccept]));
    v.push(MouseBinding::new(ContextExpr::from_lit(MouseContextVar::LeftButtonClickedDown.lit()).and(MouseContextVar::OverCellSemantically(TagPattern::Ps1PromptCwd).lit()), &[MouseEventAction::PromptDirSelect]));
    v.push(MouseBinding::new(ContextExpr::from_lit(MouseContextVar::DragLeft.lit()).and(MouseContextVar::OverCellSemantically(TagPattern::Ps1PromptCwd).lit()), &[MouseEventAction::PromptDirSelect]));
    v.push(MouseBinding::new(ContextExpr::from_lit(MouseContextVar::LeftButtonClickedUp.lit()).and(MouseContextVar::OverCellSemantically(TagPattern::Clipboard).lit()), &[MouseEventAction::ClickClipboard]));
    v.push(MouseBinding::new(ContextExpr::from_lit(MouseContextVar::LeftButtonClickedUp.lit()).and(MouseContextVar::OverCellSemantically(TagPattern::PromptCopyBuffer).lit()), &[MouseEventAction::ClickPromptCopyBuffer]));
    v.push(MouseBinding::new(ContextExpr::from_lit(MouseContextVar::SmartModeScroll.lit()), &[MouseEventAction::DisableMouseCapture]));
    v.push(MouseBinding::new(ContextExpr::from_lit(MouseContextVar::SmartModeClickAboveViewport.lit()), &[MouseEventAction::DisableMouseCapture]));
    assert(bindings_view(v@).len() == 8);
    assert(bindings_view(v@)[0] == spec_mouse_bindings_part_6()[0]);
    assert(bindings_view(v@)[1] == spec_mouse_bindings_part_6()[1]);
    assert(bindings_view(v@)[2] == spec_mouse_bindings_part_6()[2]);
    assert(bindings_view(v@)[3] == spec_mouse_bindings_part_6()[3]);
    assert(bindings_view(v@)[4] == spec_mouse_bindings_part_6()[4]);
    assert(bindings_view(v@)[5] == spec_mouse_bindings_part_6()[5]);
    assert(bindings_view(v@)[6] == spec_mouse_bindings_part_6()[6]);
    assert(bindings_view(v@)[7] == spec_mouse_bindings_part_6()[7]);
    assert(bindings_view(v@) =~= spec_mouse_bindings_part_6());
    v
}

/// The mouse bindings, highest priority first.
pub open spec fn spec_default_mouse_bindings() -> Seq<BindingView> {
    spec_mouse_bindings_part_0() + spec_mouse_bindings_part_1() + spec_mouse_bindings_part_2() + spec_mouse_bindings_part_3() + spec_mouse_bindings_part_4() + spec_mouse_bindings_part_5() + spec_mouse_bindings_part_6()
}

pub open spec fn spec_pointer_shape_bindings_part_0() -> Seq<BindingView> {
    seq![
        (seq![ContextLiteral { var: MouseContextVar::OverCellDirectly(TagPattern::Command), negated: false }], seq![MouseEventAction::SetPointer(PointerShape::Text)]),
        (seq![ContextLiteral { var: MouseContextVar::DragStartCommand, negated: false }], seq![MouseEventAction::SetPointer(PointerShape::Text)]),
        (seq![ContextLiteral { var: MouseContextVar::LeftButtonIsDown, negated: false }, ContextLiteral { var: MouseContextVar::DragStartPointerTarget, negated: false }], seq![MouseEventAction::SetPointer(PointerShape::Grabbing)]),
        (seq![ContextLiteral { var: MouseContextVar::LeftButtonIsDown, negated: true }, ContextLiteral { var: MouseContextVar::IsPointerTarget, negated: false }], seq![MouseEventAction::SetPointer(PointerShape::Pointer)]),
        (seq![ContextLiteral { var: MouseContextVar::LeftButtonIsDown, negated: true }, ContextLiteral { var: MouseContextVar::OverCellDirectly(TagPattern::Command), negated: true }, ContextLiteral { var: MouseContextVar::IsPointerTarget, negated: true }], seq![MouseEventAction::SetPointer(PointerShape::Default)]),
    ]
}

fn pointer_shape_bindings_part_0() -> (r: Vec<MouseBinding>)
    ensures
        bindings_view(r@) == spec_pointer_shape_bindings_part_0(),
{
    let mut v: Vec<MouseBinding> = Vec::new();
    v.push(MouseBinding::new(ContextExpr::from_lit(MouseContextVar::OverCellDirectly(TagPattern::Command).lit()), &[MouseEventAction::SetPointer(PointerShape::Text)]));
    v.push(MouseBinding::new(ContextExpr::from_lit(MouseContextVar::DragStartCommand.lit()), &[MouseEventAction::SetPointer(PointerShape::Text)]));
    v.push(MouseBinding::new(ContextExpr::from_lit(MouseContextVar::LeftButtonIsDown.lit()).and(MouseContextVar::DragStartPointerTarget.lit()), &[MouseEventAction::SetPointer(PointerShape::Grabbing)]));
    v.push(MouseBinding::new(ContextExpr::from_lit(MouseContextVar::LeftButtonIsDown.negate()).and(MouseContextVar::IsPointerTarget.lit()), &[MouseEventAction::SetPointer(PointerShape::Pointer)]));
    v.push(MouseBinding::new(ContextExpr::from_lit(MouseContextVar::LeftButtonIsDown.negate()).and(MouseContextVar::OverCellDirectly(TagPattern::Command).negate()).and(MouseContextVar::IsPointerTarget.negate()), &[MouseEventAction::SetPointer(PointerShape::Default)]));
    assert(bindings_view(v@).len() == 5);
    assert(bindings_view(v@)[0] == spec_pointer_shape_bindings_part_0()[0]);
    assert(bindings_view(v@)[1] == spec_pointer_shape_bindings_part_0()[1]);
    assert(bindings_view(v@)[2] == spec_pointer_shape_bindings_part_0()[2]);
    assert(bindings_view(v@)[3] == spec_pointer_shape_bindings_part_0()[3]);
    assert(bindings_view(v@)[4] == spec_pointer_shape_bindings_part_0()[4]);
    assert(bindings_view(v@) =~= spec_pointer_shape_bindings_part_0());
    v
}

/// The bindings that choose the pointer shape, highest priority first.
pub open spec fn spec_default_pointer_shape_bindings() -> Seq<BindingView> {
    spec_pointer_shape_bindings_part_0()
}

/// The default mouse bindings, highest priority first.
pub fn default_mouse_bindings() -> (r: Vec<MouseBinding>)
    ensures
        bindings_view(r@) == spec_default_mouse_bindings(),
{
    let mut v = mouse_bindings_part_0();
    let mut p1 = mouse_bindings_part_1();
    proof {
        lemma_bindings_view_concat(v@, p1@);
    }
    v.append(&mut p1);
    let mut p2 = mouse_bindings_part_2();
    proof {
        lemma_bindings_view_concat(v@, p2@);
    }
    v.append(&mut p2);
    let mut p3 = mouse_bindings_part_3();
    proof {
        lemma_bindings_view_concat(v@, p3@);
    }
    v.append(&mut p3);
    let mut p4 = mouse_bindings_part_4();
    proof {
        lemma_bindings_view_concat(v@, p4@);
    }
    v.append(&mut p4);
    let mut p5 = mouse_bindings_part_5();
    proof {
        lemma_bindings_view_concat(v@, p5@);
    }
    v.append(&mut p5);
    let mut p6 = mouse_bindings_part_6();
    proof {
        lemma_bindings_view_concat(v@, p6@);
    }
    v.append(&mut p6);
    v
}

/// The default pointer-shape bindings, highest priority first.
pub fn default_pointer_shape_bindings() -> (r: Vec<MouseBinding>)
    ensures
        bindings_view(r@) == spec_default_pointer_shape_bindings(),
{
    let mut v = pointer_shape_bindings_part_0();
    v
}

/// The index of the first binding of `bs`, from `i` on, whose context holds.
pub open spec fn first_match_from(bs: Seq<BindingView>, s: MouseSnapshot, i: int) -> Option<int>
    decreases bs.len() - i,
{
    if i < 0 || i >= bs.len() {
        None
    } else if all_hold(bs[i].0, s) {
        Some(i)
    } else {
        first_match_from(bs, s, i + 1)
    }
}

/// The index of the first binding of `bs` whose context holds in `s`.
pub open spec fn first_match(bs: Seq<BindingView>, s: MouseSnapshot) -> Option<int> {
    first_match_from(bs, s, 0)
}

/// Finds the binding that answers a mouse event: the first whose context
/// holds.
pub fn first_matching_binding(bindings: &Vec<MouseBinding>, s: &MouseSnapshot) -> (r: Option<usize>)
    ensures
        r matches Some(i) ==> i < bindings@.len() && first_match(bindings_view(bindings@), *s) == Some(i as int),
        r is None ==> first_match(bindings_view(bindings@), *s) is None,
{
    let ghost bv = bindings_view(bindings@);
    let mut i: usize = 0;
    while i < bindings.len()
        invariant
            i <= bindings@.len(),
            bv == bindings_view(bindings@),
            first_match(bv, *s) == first_match_from(bv, *s, i as int),
        decreases bindings.len() - i,
    {
        if bindings[i].context.evaluate_direct(s) {
            return Some(i);
        }
        i += 1;
    }
    None
}

/// The first `SetPointer` action of `acts`, if any.
pub open spec fn first_pointer_action(acts: Seq<MouseEventAction>) -> Option<PointerShape>
    decreases acts.len(),
{
    if acts.len() == 0 {
        None
    } else if acts[0] is SetPointer {
        Some(acts[0]->SetPointer_0)
    } else {
        first_pointer_action(acts.drop_first())
    }
}

/// The pointer shape that the bindings of `bs`, from `i` on, choose in `s`:
/// that of the first binding whose context holds and which sets one.
pub open spec fn pointer_choice_from(bs: Seq<BindingView>, s: MouseSnapshot, i: int) -> Option<PointerShape>
    decreases bs.len() - i,
{
    if i < 0 || i >= bs.len() {
        None
    } else if all_hold(bs[i].0, s) && first_pointer_action(bs[i].1) is Some {
        first_pointer_action(bs[i].1)
    } else {
        pointer_choice_from(bs, s, i + 1)
    }
}

fn first_pointer_action_of(acts: &Vec<MouseEventAction>) -> (r: Option<PointerShape>)
    ensures
        r == first_pointer_action(acts@),
{
    let mut i: usize = 0;
    assert(acts@.skip(0) =~= acts@);
    while i < acts.len()
        invariant
            i <= acts@.len(),
            first_pointer_action(acts@) == first_pointer_action(acts@.skip(i as int)),
        decreases acts.len() - i,
    {
        assert(acts@.skip(i as int).drop_first() =~= acts@.skip(i + 1));
        if let MouseEventAction::SetPointer(shape) = acts[i] {
            return Some(shape);
        }
        i += 1;
    }
    assert(acts@.skip(i as int) =~= Seq::<MouseEventAction>::empty());
    None
}

/// The pointer shape that `bindings` choose in `s`, if any.
pub fn choose_pointer_shape(bindings: &Vec<MouseBinding>, s: &MouseSnapshot) -> (r: Option<PointerShape>)
    ensures
        r == pointer_choice_from(bindings_view(bindings@), *s, 0),
{
    let ghost bv = bindings_view(bindings@);
    let mut i: usize = 0;
    while i < bindings.len()
        invariant
            i <= bindings@.len(),
            bv == bindings_view(bindings@),
            pointer_choice_from(bv, *s, 0) == pointer_choice_from(bv, *s, i as int),
        decreases bindings.len() - i,
    {
        if bindings[i].context.evaluate_direct(s) {
            let shape = first_pointer_action_of(&bindings[i].actions);
            if shape.is_some() {
                return shape;
            }
        }
        i += 1;
    }
    None
}

/// Combining outputs is associative: folding the outputs of three actions
/// gives the same result however they are grouped.
pub proof fn law_merge_associative(a: MouseActionOutput, b: MouseActionOutput, c: MouseActionOutput)
    ensures
        spec_merge(spec_merge(a, b), c) == spec_merge(a, spec_merge(b, c)),
{
}

/// An action that asks for nothing leaves a combined output as it is, on
/// either side.
pub proof fn law_merge_dont_update_is_identity(a: MouseActionOutput)
    ensures
        spec_merge(a, MouseActionOutput::spec_dont_update()) == a,
        spec_merge(MouseActionOutput::spec_dont_update(), a) == a,
{
}

/// An output that asks for an immediate redraw keeps that request whatever
/// is combined with it.
pub proof fn law_merge_keeps_immediate_redraw(a: MouseActionOutput, b: MouseActionOutput)
    requires
        a.redraw_urgency == RedrawUrgency::Now || b.redraw_urgency == RedrawUrgency::Now,
    ensures
        spec_merge(a, b).redraw_urgency == RedrawUrgency::Now,
{
}

/// The default pointer-shape bindings choose the text cursor over the
/// command buffer (or while a drag that began there goes on); otherwise,
/// while the left button is up, a hand over a click target and the default
/// arrow elsewhere; while it is down, a grabbing hand when the drag began on a
/// click target and nothing otherwise.
pub proof fn law_pointer_shape_choice(s: MouseSnapshot)
    ensures
        pointer_choice_from(spec_default_pointer_shape_bindings(), s, 0) == (
        if (s.direct_tag matches Some(Tag::Command(_))) || (s.drag_start_tag matches Some(Tag::Command(_))) {
            Some(PointerShape::Text)
        } else if !s.left_button_down {
            if spec_is_pointer_target_tag(s.direct_tag, s.right_click_popup_active) {
                Some(PointerShape::Pointer)
            } else {
                Some(PointerShape::Default)
            }
        } else if spec_is_pointer_target_tag(s.drag_start_tag, s.right_click_popup_active) {
            Some(PointerShape::Grabbing)
        } else {
            None
        }),
{
    let bs = spec_default_pointer_shape_bindings();
    reveal_with_fuel(pointer_choice_from, 6);
    reveal_with_fuel(first_pointer_action, 2);
    assert(bs[0].0[0] == ContextLiteral { var: MouseContextVar::OverCellDirectly(TagPattern::Command), negated: false });
    assert(bs[1].0[0] == ContextLiteral { var: MouseContextVar::DragStartCommand, negated: false });
    assert(bs[2].0[0] == ContextLiteral { var: MouseContextVar::LeftButtonIsDown, negated: false });
    assert(bs[2].0[1] == ContextLiteral { var: MouseContextVar::DragStartPointerTarget, negated: false });
    assert(bs[3].0[0] == ContextLiteral { var: MouseContextVar::LeftButtonIsDown, negated: true });
    assert(bs[3].0[1] == ContextLiteral { var: MouseContextVar::IsPointerTarget, negated: false });
    assert(bs[4].0[0] == ContextLiteral { var: MouseContextVar::LeftButtonIsDown, negated: true });
    assert(bs[4].0[1] == ContextLiteral { var: MouseContextVar::OverCellDirectly(TagPattern::Command), negated: true });
    assert(bs[4].0[2] == ContextLiteral { var: MouseContextVar::IsPointerTarget, negated: true });
    assert(all_hold(bs[0].0, s) == bs[0].0[0].spec_evaluate(s));
    assert(all_hold(bs[1].0, s) == bs[1].0[0].spec_evaluate(s));
    assert(all_hold(bs[2].0, s) == (bs[2].0[0].spec_evaluate(s) && bs[2].0[1].spec_evaluate(s)));
    assert(all_hold(bs[3].0, s) == (bs[3].0[0].spec_evaluate(s) && bs[3].0[1].spec_evaluate(s)));
    assert(all_hold(bs[4].0, s) == (bs[4].0[0].spec_evaluate(s) && bs[4].0[1].spec_evaluate(s)
        && bs[4].0[2].spec_evaluate(s)));
    assert(first_pointer_action(bs[0].1) == Some(PointerShape::Text));
    assert(first_pointer_action(bs[1].1) == Some(PointerShape::Text));
    assert(first_pointer_action(bs[2].1) == Some(PointerShape::Grabbing));
    assert(first_pointer_action(bs[3].1) == Some(PointerShape::Pointer));
    assert(first_pointer_action(bs[4].1) == Some(PointerShape::Default));
}

/// A left click released, or a scroll up or down, away from the open
/// right-click menu closes it: the first default binding answers the event
/// and only dismisses the menu.
pub proof fn law_click_outside_menu_dismisses(s: MouseSnapshot)
    requires
        s.right_click_popup_active,
        last_kind_is(s, MouseEventKind::Up(MouseButton::Left)) || last_kind_is(s, MouseEventKind::ScrollUp)
            || last_kind_is(s, MouseEventKind::ScrollDown),
        !TagPattern::RightClickMenu.spec_matches(s.semantic_tag),
    ensures
        first_match(spec_default_mouse_bindings(), s) matches Some(i) && i <= 3
            && spec_default_mouse_bindings()[i].1 == seq![MouseEventAction::RightClickMenuDismiss],
{
    let bs = spec_default_mouse_bindings();
    let p0 = spec_mouse_bindings_part_0();
    reveal_with_fuel(first_match_from, 5);
    assert(bs[0] == p0[0]);
    assert(bs[1] == p0[1]);
    assert(bs[2] == p0[2]);
    assert(bs[3] == p0[3]);
    let l0 = bs[0].0;
    let l2 = bs[2].0;
    let l3 = bs[3].0;
    if last_kind_is(s, MouseEventKind::Up(MouseButton::Left)) {
        assert(l0[0].spec_evaluate(s) && l0[1].spec_evaluate(s) && l0[2].spec_evaluate(s));
        assert(all_hold(l0, s));
    } else if last_kind_is(s, MouseEventKind::ScrollUp) {
        assert(!l0[1].spec_evaluate(s));
        assert(!all_hold(l0, s));
        assert(!bs[1].0[1].spec_evaluate(s));
        assert(!all_hold(bs[1].0, s));
        assert(l2[0].spec_evaluate(s) && l2[1].spec_evaluate(s) && l2[2].spec_evaluate(s));
        assert(all_hold(l2, s));
    } else {
        assert(!l0[1].spec_evaluate(s));
        assert(!all_hold(l0, s));
        assert(!bs[1].0[1].spec_evaluate(s));
        assert(!all_hold(bs[1].0, s));
        assert(!l2[1].spec_evaluate(s));
        assert(!all_hold(l2, s));
        assert(l3[0].spec_evaluate(s) && l3[1].spec_evaluate(s) && l3[2].spec_evaluate(s));
        assert(all_hold(l3, s));
    }
}

/// The action of an entry of the right-click menu.
pub open spec fn menu_entry_action(t: Tag) -> Option<MouseEventAction> {
    match t {
        Tag::RightClickCopy => Some(MouseEventAction::Copy),
        Tag::RightClickCut => Some(MouseEventAction::Cut),
        Tag::RightClickPaste => Some(MouseEventAction::Paste),
        Tag::RightClickUndo => Some(MouseEventAction::Undo),
        Tag::RightClickRedo => Some(MouseEventAction::Redo),
        Tag::RightClickRunTutorial => Some(MouseEventAction::RunTutorial),
        _ => None,
    }
}

/// Releasing the left button over an entry of the right-click menu runs that
/// entry's action, and nothing else.
pub proof fn law_menu_entry_runs_its_action(s: MouseSnapshot, t: Tag)
    requires
        last_kind_is(s, MouseEventKind::Up(MouseButton::Left)),
        s.semantic_tag == Some(t),
        menu_entry_action(t) is Some,
    ensures
        first_match(spec_default_mouse_bindings(), s) matches Some(i)
            && spec_default_mouse_bindings()[i].1 == seq![menu_entry_action(t)->0],
{
    let bs = spec_default_mouse_bindings();
    let p0 = spec_mouse_bindings_part_0();
    let p1 = spec_mouse_bindings_part_1();
    reveal_with_fuel(first_match_from, 12);
    assert(p0.len() == 8);
    assert forall|i: int| 0 <= i < 8 implies bs[i] == p0[i] by {}
    assert forall|i: int| 0 <= i < 3 implies bs[8 + i] == p1[i] by {}
    // The dismissal bindings and the menu opening need the menu closed, a
    // right-button event, a scroll, or the mouse off the menu.
    assert(!bs[0].0[2].spec_evaluate(s));
    assert(!all_hold(bs[0].0, s));
    assert(!bs[1].0[1].spec_evaluate(s));
    assert(!all_hold(bs[1].0, s));
    assert(!bs[2].0[1].spec_evaluate(s));
    assert(!all_hold(bs[2].0, s));
    assert(!bs[3].0[1].spec_evaluate(s));
    assert(!all_hold(bs[3].0, s));
    assert(!bs[4].0[0].spec_evaluate(s));
    assert(!all_hold(bs[4].0, s));
    let k: int = match t {
        Tag::RightClickCopy => 5,
        Tag::RightClickCut => 6,
        Tag::RightClickPaste => 7,
        Tag::RightClickUndo => 8,
        Tag::RightClickRedo => 9,
        _ => 10,
    };
    assert forall|i: int| 5 <= i < k implies !#[trigger] all_hold(bs[i].0, s) by {
        assert(!bs[i].0[1].spec_evaluate(s));
    }
    assert(bs[k].0[0].spec_evaluate(s) && bs[k].0[1].spec_evaluate(s));
    assert(all_hold(bs[k].0, s));
    assert(first_match_from(bs, s, 5) == Some(k)) by {
        if k > 5 {
            assert(!all_hold(bs[5].0, s));
        }
        if k > 6 {
            assert(!all_hold(bs[6].0, s));
        }
        if k > 7 {
            assert(!all_hold(bs[7].0, s));
        }
        if k > 8 {
            assert(!all_hold(bs[8].0, s));
        }
        if k > 9 {
            assert(!all_hold(bs[9].0, s));
        }
    }
}

proof fn lemma_first_match_skip(bs: Seq<BindingView>, s: MouseSnapshot, i: int, k: int)
    requires
        0 <= i <= k <= bs.len(),
        forall|j: int| i <= j < k ==> !#[trigger] all_hold(bs[j].0, s),
    ensures
        first_match_from(bs, s, i) == first_match_from(bs, s, k),
    decreases k - i,
{
    if i < k {
        lemma_first_match_skip(bs, s, i + 1, k);
    }
}

/// What the default bindings do with a press of the left button on the
/// command buffer: after closing any right-click menu, a single click
/// places the cursor, a double click selects the word, a triple click the
/// line and a fourth click the whole buffer.
pub proof fn law_clicks_on_the_buffer(s: MouseSnapshot, p: usize)
    requires
        last_kind_is(s, MouseEventKind::Down(MouseButton::Left)),
        s.semantic_tag == Some(Tag::Command(p)),
        !(s.drag_start_tag matches Some(Tag::TabCompletionScrollBar { .. })),
    ensures
        first_match(spec_default_mouse_bindings(), s) matches Some(i) && spec_default_mouse_bindings()[i].1 == seq![
            MouseEventAction::RightClickMenuDismiss,
            match s.click_count {
                ClickCount::Single => MouseEventAction::ClickCommand,
                ClickCount::Double => MouseEventAction::SelectWord,
                ClickCount::Triple => MouseEventAction::SelectLine,
                ClickCount::Quad => MouseEventAction::SelectAll,
            },
        ],
{
    let bs = spec_default_mouse_bindings();
    let p0 = spec_mouse_bindings_part_0();
    let p1 = spec_mouse_bindings_part_1();
    let p2 = spec_mouse_bindings_part_2();
    let p3 = spec_mouse_bindings_part_3();
    let p4 = spec_mouse_bindings_part_4();
    let p5 = spec_mouse_bindings_part_5();
    assert(bs[0] == p0[0]);
    assert(!bs[0].0[1].spec_evaluate(s));
    assert(!all_hold(bs[0].0, s));
    assert(bs[1] == p0[1]);
    assert(!bs[1].0[1].spec_evaluate(s));
    assert(!all_hold(bs[1].0, s));
    assert(bs[2] == p0[2]);
    assert(!bs[2].0[1].spec_evaluate(s));
    assert(!all_hold(bs[2].0, s));
    assert(bs[3] == p0[3]);
    assert(!bs[3].0[1].spec_evaluate(s));
    assert(!all_hold(bs[3].0, s));
    assert(bs[4] == p0[4]);
    assert(!bs[4].0[0].spec_evaluate(s));
    assert(!all_hold(bs[4].0, s));
    assert(bs[5] == p0[5]);
    assert(!bs[5].0[0].spec_evaluate(s));
    assert(!all_hold(bs[5].0, s));
    assert(bs[6] == p0[6]);
    assert(!bs[6].0[0].spec_evaluate(s));
    assert(!all_hold(bs[6].0, s));
    assert(bs[7] == p0[7]);
    assert(!bs[7].0[0].spec_evaluate(s));
    assert(!all_hold(bs[7].0, s));
    assert(bs[8] == p1[0]);
    assert(!bs[8].0[0].spec_evaluate(s));
    assert(!all_hold(bs[8].0, s));
    assert(bs[9] == p1[1]);
    assert(!bs[9].0[0].spec_evaluate(s));
    assert(!all_hold(bs[9].0, s));
    assert(bs[10] == p1[2]);
    assert(!bs[10].0[0].spec_evaluate(s));
    assert(!all_hold(bs[10].0, s));
    assert(bs[11] == p1[3]);
    assert(!bs[11].0[1].spec_evaluate(s));
    assert(!all_hold(bs[11].0, s));
    assert(bs[12] == p1[4]);
    assert(!bs[12].0[1].spec_evaluate(s));
    assert(!all_hold(bs[12].0, s));
    assert(bs[13] == p1[5]);
    assert(!bs[13].0[1].spec_evaluate(s));
    assert(!all_hold(bs[13].0, s));
    assert(bs[14] == p1[6]);
    assert(!bs[14].0[1].spec_evaluate(s));
    assert(!all_hold(bs[14].0, s));
    assert(bs[15] == p1[7]);
    assert(!bs[15].0[1].spec_evaluate(s));
    assert(!all_hold(bs[15].0, s));
    assert(bs[16] == p2[0]);
    assert(!bs[16].0[1].spec_evaluate(s));
    assert(!all_hold(bs[16].0, s));
    assert(bs[17] == p2[1]);
    assert(!bs[17].0[1].spec_evaluate(s));
    assert(!all_hold(bs[17].0, s));
    assert(bs[18] == p2[2]);
    assert(!bs[18].0[1].spec_evaluate(s));
    assert(!all_hold(bs[18].0, s));
    assert(bs[19] == p2[3]);
    assert(!bs[19].0[1].spec_evaluate(s));
    assert(!all_hold(bs[19].0, s));
    assert(bs[20] == p2[4]);
    assert(!bs[20].0[1].spec_evaluate(s));
    assert(!all_hold(bs[20].0, s));
    assert(bs[21] == p2[5]);
    assert(!bs[21].0[1].spec_evaluate(s));
    assert(!all_hold(bs[21].0, s));
    assert(bs[22] == p2[6]);
    assert(!bs[22].0[1].spec_evaluate(s));
    assert(!all_hold(bs[22].0, s));
    assert(bs[23] == p2[7]);
    assert(!bs[23].0[1].spec_evaluate(s));
    assert(!all_hold(bs[23].0, s));
    assert(bs[24] == p3[0]);
    assert(!bs[24].0[1].spec_evaluate(s));
    assert(!all_hold(bs[24].0, s));
    assert(bs[25] == p3[1]);
    assert(!bs[25].0[1].spec_evaluate(s));
    assert(!all_hold(bs[25].0, s));
    assert(bs[26] == p3[2]);
    assert(!bs[26].0[4].spec_evaluate(s));
    assert(!all_hold(bs[26].0, s));
    assert(bs[27] == p3[3]);
    assert(!bs[27].0[1].spec_evaluate(s));
    assert(!all_hold(bs[27].0, s));
    assert(bs[28] == p3[4]);
    assert(!bs[28].0[1].spec_evaluate(s));
    assert(!all_hold(bs[28].0, s));
    assert(bs[29] == p3[5]);
    assert(!bs[29].0[4].spec_evaluate(s));
    assert(!all_hold(bs[29].0, s));
    assert(bs[30] == p3[6]);
    assert(!bs[30].0[1].spec_evaluate(s));
    assert(!all_hold(bs[30].0, s));
    assert(bs[31] == p3[7]);
    assert(!bs[31].0[1].spec_evaluate(s));
    assert(!all_hold(bs[31].0, s));
    assert(bs[32] == p4[0]);
    assert(!bs[32].0[4].spec_evaluate(s));
    assert(!all_hold(bs[32].0, s));
    assert(bs[33] == p4[1]);
    assert(!bs[33].0[0].spec_evaluate(s));
    assert(!all_hold(bs[33].0, s));
    assert(bs[34] == p4[2]);
    assert(!bs[34].0[0].spec_evaluate(s));
    assert(!all_hold(bs[34].0, s));
    assert(bs[35] == p4[3]);
    assert(!bs[35].0[1].spec_evaluate(s));
    assert(!all_hold(bs[35].0, s));
    assert(bs[36] == p4[4]);
    assert(!bs[36].0[1].spec_evaluate(s));
    assert(!all_hold(bs[36].0, s));
    assert(bs[37] == p4[5]);
    assert(!bs[37].0[1].spec_evaluate(s));
    assert(!all_hold(bs[37].0, s));
    assert(bs[38] == p4[6]);
    assert(bs[39] == p4[7]);
    assert(bs[40] == p5[0]);
    assert(bs[41] == p5[1]);
    assert forall|j: int| 0 <= j < 38 implies !#[trigger] all_hold(bs[j].0, s) by {}
    lemma_first_match_skip(bs, s, 0, 38);
    let k: int = match s.click_count {
        ClickCount::Single => 38,
        ClickCount::Double => 39,
        ClickCount::Triple => 40,
        ClickCount::Quad => 41,
    };
    assert forall|j: int| 38 <= j < k implies !#[trigger] all_hold(bs[j].0, s) by {
        assert(!bs[j].0[1].spec_evaluate(s));
    }
    lemma_first_match_skip(bs, s, 38, k);
    assert(bs[k].0[0].spec_evaluate(s) && bs[k].0[1].spec_evaluate(s) && bs[k].0[2].spec_evaluate(s));
    assert(all_hold(bs[k].0, s));
}

// ---------------------------------------------------------------------------
// What an action does
// ---------------------------------------------------------------------------

/// A key-binding action that a mouse action runs.
#[derive(Debug, Clone, Copy, PartialEq, Eq, Structural)]
pub enum KeyAction {
    CopyTarget,
    CutSelection,
    PasteSystemClipboard,
    Undo,
    Redo,
    PromptDirAcceptEntry,
}

/// Where the text that the right-click menu copies comes from.
#[derive(Debug, Clone, Copy, PartialEq, Eq, Structural)]
pub enum CopyTargetSource {
    /// The tab-completion suggestion at this index.
    Suggestion(usize),
    /// The fuzzy history search result at this index.
    HistoryEntry(FuzzyHistorySource, usize),
    /// The working-directory path up to this prompt segment.
    Cwd(usize),
    /// The agent suggestion at this index.
    AiResult(usize),
    /// The text of this clipboard widget.
    Clipboard(usize),
    /// The whole command buffer.
    Buffer,
}

/// A change that a mouse action makes to the editor, in the order given.
#[derive(Debug, Clone, Copy, PartialEq, Eq, Structural)]
pub enum MouseEffect {
    RunKeyAction(KeyAction),
    /// Close the right-click menu.
    CloseRightClickMenu,
    /// Forget what the right-click menu would copy.
    ClearCopyTarget,
    /// Turn the tutorial on at its first step and clear the terminal.
    StartTutorial,
    /// Leave the editor without a command.
    ExitWithoutCommand,
    SuggestionsUp,
    SuggestionsDown,
    SuggestionsLeft,
    SuggestionsRight,
    /// Select the suggestion at this position of the scroll bar.
    SelectSuggestionByScrollbar { cell_height: usize, max_cell_height: usize },
    /// Move through the fuzzy history search (forward is towards newer entries).
    StepHistorySearch { source: FuzzyHistorySource, forward: bool },
    SelectSuggestion(usize),
    SelectHistoryResult { source: FuzzyHistorySource, index: usize },
    SelectAiResult(usize),
    /// Show the tooltip of the buffer part at this byte position, if it has one.
    ShowTooltipAt(usize),
    ClearTooltip,
    /// Put the selected suggestion into the buffer.
    AcceptSelectedSuggestion,
    /// Put the selected history entry into the buffer and leave the search.
    AcceptFuzzyHistorySearch,
    /// Put the selected agent command into the buffer.
    ReplaceBufferWithSelectedAiCommand,
    SetContentModeNormal,
    StartSelectionIfNone,
    ClearSelection,
    MoveCursorTo { byte_pos: usize, move_past_final: bool },
    SelectEntireBuffer,
    SelectWord,
    SelectLine,
    /// Select the words from the one at `anchor` to the one at `target`.
    ExtendWordSelection { anchor: usize, target: usize, move_past_final: bool },
    /// Select the lines from the one at `anchor` to the one at `target`.
    ExtendLineSelection { anchor: usize, target: usize, move_past_final: bool },
    TutorialPrev,
    TutorialNext,
    EnterPromptDirSelect(usize),
    /// Copy the text of this clipboard widget to the terminal clipboard and
    /// into the buffer.
    CopyClipboardWidget(usize),
    /// Copy the buffer to the terminal clipboard.
    CopyBufferToClipboard,
    SetFlycompSelection(FlycompPromptSelection),
    /// Leave the prompt and synthesize completions for its command word.
    RunFlycomp,
    /// Leave the prompt and never ask again for its command word.
    BlacklistFlycompCommand,
    /// Stop capturing the mouse and forget the cells under it.
    DisableMouseCapture,
    /// Open the right-click menu at this content position.
    OpenRightClickMenu(Coord),
    /// Remember where the right button went down (terminal position).
    RecordRightClickDown(Coord),
    /// Choose what the menu copies: this source, else the selection, else the
    /// whole buffer.
    SetCopyTarget(Option<CopyTargetSource>),
}

/// What an action needs to know of the editor besides the mouse event.
#[derive(Debug, Clone, Copy, PartialEq, Eq, Structural)]
pub struct ActionContext {
    pub content_mode: ContentModeKind,
    /// The tag under the mouse, resolved to what it stands for.
    pub semantic_tag: Option<Tag>,
    /// The tag of the cell under the mouse itself.
    pub direct_tag: Option<Tag>,
    /// The tag under the mouse when the left button went down.
    pub drag_start_tag: Option<Tag>,
    /// The setting that lets the mouse select text.
    pub select_with_mouse: bool,
    /// The byte position of the last left click in the buffer.
    pub last_click_buffer_pos: Option<usize>,
    pub right_click_popup_active: bool,
    /// The terminal row where the dragged scroll bar starts, once drawn.
    pub scrollbar_top_row: Option<u16>,
    /// The content row under the mouse, once drawn.
    pub mouse_content_row: Option<isize>,
    /// The clicked agent suggestion has a command.
    pub ai_result_has_command: bool,
    /// The clicked clipboard widget holds text.
    pub clipboard_has_text: bool,
    /// Writing to the terminal clipboard succeeded.
    pub clipboard_write_ok: bool,
}

/// The output and the effects of an action.
pub struct MousePlan {
    pub output: MouseActionOutput,
    pub effects: Vec<MouseEffect>,
}

/// An action's output and effects as plain values.
pub type PlanView = (MouseActionOutput, Seq<MouseEffect>);

/// Whether `ctx` puts the action's arithmetic within range: dragging the
/// scroll bar computes its last row as a `u16`.
pub open spec fn plan_in_range(action: MouseEventAction, ctx: ActionContext) -> bool {
    action == MouseEventAction::ScrollSuggestionsBar ==> match (ctx.drag_start_tag, ctx.scrollbar_top_row) {
        (Some(Tag::TabCompletionScrollBar { max_cell_height, y_start: _ }), Some(min_row)) => min_row
            + (max_cell_height as u16) <= u16::MAX,
        _ => true,
    }
}

/// The row of the suggestions list that a scroll-bar drag at `row` selects.
pub open spec fn scrollbar_cell_height(row: u16, min_row: u16, max_cell_height: usize) -> usize {
    let max_row = (min_row + (max_cell_height as u16)) as u16;
    if row < min_row {
        0
    } else if row > max_row {
        max_cell_height
    } else {
        (row - min_row) as usize
    }
}

/// The copy source for the right-click menu opened over `tag`.
pub open spec fn spec_copy_source(tag: Option<Tag>, mode: ContentModeKind) -> Option<CopyTargetSource> {
    match tag {
        Some(Tag::Suggestion(i)) => if mode == ContentModeKind::TabCompletion {
            Some(CopyTargetSource::Suggestion(i))
        } else {
            None
        },
        Some(Tag::HistoryResult(i)) => match mode {
            ContentModeKind::FuzzyHistorySearch(src) => Some(CopyTargetSource::HistoryEntry(src, i)),
            _ => None,
        },
        Some(Tag::PromptCwdWidget(i)) => Some(CopyTargetSource::Cwd(i)),
        Some(Tag::AiResult(i)) => if mode == ContentModeKind::AgentOutputSelection {
            Some(CopyTargetSource::AiResult(i))
        } else {
            None
        },
        Some(Tag::Clipboard(t)) => Some(CopyTargetSource::Clipboard(t)),
        Some(Tag::PromptCopyBufferWidget) => Some(CopyTargetSource::Buffer),
        _ => None,
    }
}

/// The content row at which the right-click menu opens: the mouse's content
/// row clamped at zero, or its terminal row when nothing is drawn yet.
pub open spec fn menu_row(ctx: ActionContext, mouse: MouseEvent) -> u16 {
    match ctx.mouse_content_row {
        Some(r) => (if r < 0 {
            0isize
        } else {
            r
        }) as u16,
        None => mouse.row,
    }
}

/// What the action does when run on `mouse` in `ctx`.
pub open spec fn spec_plan(action: MouseEventAction, ctx: ActionContext, mouse: MouseEvent) -> PlanView {
    let now = MouseActionOutput::spec_update_now();
    let soon = MouseActionOutput::spec_update_soon();
    let none = MouseActionOutput::spec_dont_update();
    let mpf = !(ctx.direct_tag matches Some(Tag::Command(_)));
    let drag_from_command = ctx.drag_start_tag matches Some(Tag::Command(_));
    let up_left = mouse.kind == MouseEventKind::Up(MouseButton::Left);
    match action {
        MouseEventAction::Copy => (now, seq![MouseEffect::RunKeyAction(KeyAction::CopyTarget), MouseEffect::CloseRightClickMenu]),
        MouseEventAction::Cut => (now, seq![MouseEffect::RunKeyAction(KeyAction::CutSelection), MouseEffect::CloseRightClickMenu]),
        MouseEventAction::Paste => (now, seq![MouseEffect::RunKeyAction(KeyAction::PasteSystemClipboard), MouseEffect::CloseRightClickMenu, MouseEffect::ClearCopyTarget]),
        MouseEventAction::Undo => (now, seq![MouseEffect::RunKeyAction(KeyAction::Undo), MouseEffect::CloseRightClickMenu, MouseEffect::ClearCopyTarget]),
        MouseEventAction::Redo => (now, seq![MouseEffect::RunKeyAction(KeyAction::Redo), MouseEffect::CloseRightClickMenu, MouseEffect::ClearCopyTarget]),
        MouseEventAction::RunTutorial => (now, seq![MouseEffect::StartTutorial, MouseEffect::CloseRightClickMenu, MouseEffect::ClearCopyTarget, MouseEffect::ExitWithoutCommand]),
        MouseEventAction::ScrollSuggestionsUp => (none, if ctx.content_mode == ContentModeKind::TabCompletion { seq![MouseEffect::SuggestionsUp] } else { seq![] }),
        MouseEventAction::ScrollSuggestionsDown => (none, if ctx.content_mode == ContentModeKind::TabCompletion { seq![MouseEffect::SuggestionsDown] } else { seq![] }),
        MouseEventAction::ScrollSuggestionsLeft => (none, if ctx.content_mode == ContentModeKind::TabCompletion { seq![MouseEffect::SuggestionsLeft] } else { seq![] }),
        MouseEventAction::ScrollSuggestionsRight => (none, if ctx.content_mode == ContentModeKind::TabCompletion { seq![MouseEffect::SuggestionsRight] } else { seq![] }),
        MouseEventAction::ScrollSuggestionsBar => (none, match (ctx.drag_start_tag, ctx.scrollbar_top_row) {
            (Some(Tag::TabCompletionScrollBar { max_cell_height, y_start: _ }), Some(min_row)) => if ctx.content_mode == ContentModeKind::TabCompletion {
                seq![MouseEffect::SelectSuggestionByScrollbar { cell_height: scrollbar_cell_height(mouse.row, min_row, max_cell_height), max_cell_height }]
            } else {
                seq![]
            },
            _ => seq![],
        }),
        MouseEventAction::ScrollHistoryUp => (none, match ctx.content_mode {
            ContentModeKind::FuzzyHistorySearch(src) => seq![MouseEffect::StepHistorySearch { source: src, forward: true }],
            _ => seq![],
        }),
        MouseEventAction::ScrollHistoryDown => (none, match ctx.content_mode {
            ContentModeKind::FuzzyHistorySearch(src) => seq![MouseEffect::StepHistorySearch { source: src, forward: false }],
            _ => seq![],
        }),
        MouseEventAction::HoverSuggestion => (none, match ctx.semantic_tag {
            Some(Tag::Suggestion(i)) => if ctx.content_mode == ContentModeKind::TabCompletion { seq![MouseEffect::SelectSuggestion(i)] } else { seq![] },
            _ => seq![],
        }),
        MouseEventAction::HoverHistoryResult => (none, match (ctx.semantic_tag, ctx.content_mode) {
            (Some(Tag::HistoryResult(i)), ContentModeKind::FuzzyHistorySearch(src)) => seq![MouseEffect::SelectHistoryResult { source: src, index: i }],
            _ => seq![],
        }),
        MouseEventAction::HoverAiResult => (none, match ctx.semantic_tag {
            Some(Tag::AiResult(i)) => if ctx.content_mode == ContentModeKind::AgentOutputSelection { seq![MouseEffect::SelectAiResult(i)] } else { seq![] },
            _ => seq![],
        }),
        MouseEventAction::HoverCommand => (none, match ctx.semantic_tag {
            Some(Tag::Command(p)) => seq![MouseEffect::ShowTooltipAt(p)],
            _ => seq![],
        }),
        MouseEventAction::HoverClearTooltip => (none, seq![MouseEffect::ClearTooltip]),
        MouseEventAction::AcceptSuggestion => match ctx.semantic_tag {
            Some(Tag::Suggestion(i)) => if ctx.content_mode == ContentModeKind::TabCompletion {
                (now, seq![MouseEffect::SelectSuggestion(i), MouseEffect::AcceptSelectedSuggestion, MouseEffect::SetContentModeNormal])
            } else {
                (none, seq![])
            },
            _ => (none, seq![]),
        },
        MouseEventAction::AcceptHistoryResult => match (ctx.semantic_tag, ctx.content_mode) {
            (Some(Tag::HistoryResult(i)), ContentModeKind::FuzzyHistorySearch(src)) => (now, seq![MouseEffect::SelectHistoryResult { source: src, index: i }, MouseEffect::AcceptFuzzyHistorySearch]),
            _ => (none, seq![]),
        },
        MouseEventAction::AcceptAiResult => match ctx.semantic_tag {
            Some(Tag::AiResult(i)) => if ctx.content_mode == ContentModeKind::AgentOutputSelection {
                if ctx.ai_result_has_command {
                    (now, seq![MouseEffect::SelectAiResult(i), MouseEffect::ReplaceBufferWithSelectedAiCommand, MouseEffect::SetContentModeNormal])
                } else {
                    (none, seq![MouseEffect::SelectAiResult(i)])
                }
            } else {
                (none, seq![])
            },
            _ => (none, seq![]),
        },
        MouseEventAction::ClickCommand => match ctx.semantic_tag {
            Some(Tag::Command(p)) => if ctx.select_with_mouse {
                if mouse.shift {
                    (now, seq![MouseEffect::StartSelectionIfNone, MouseEffect::MoveCursorTo { byte_pos: p, move_past_final: mpf }])
                } else {
                    (now, seq![MouseEffect::ClearSelection, MouseEffect::MoveCursorTo { byte_pos: p, move_past_final: mpf }, MouseEffect::StartSelectionIfNone])
                }
            } else {
                (none, seq![])
            },
            _ => (none, seq![]),
        },
        MouseEventAction::ReleaseCommand => (now, seq![]),
        MouseEventAction::SelectAll => if ctx.select_with_mouse { (now, seq![MouseEffect::SelectEntireBuffer]) } else { (none, seq![]) },
        MouseEventAction::SelectWord => match ctx.semantic_tag {
            Some(Tag::Command(p)) => if ctx.select_with_mouse {
                (now, seq![MouseEffect::MoveCursorTo { byte_pos: p, move_past_final: mpf }, MouseEffect::SelectWord])
            } else {
                (none, seq![])
            },
            _ => (none, seq![]),
        },
        MouseEventAction::SelectLine => match ctx.semantic_tag {
            Some(Tag::Command(p)) => if ctx.select_with_mouse {
                (now, seq![MouseEffect::MoveCursorTo { byte_pos: p, move_past_final: mpf }, MouseEffect::SelectLine])
            } else {
                (none, seq![])
            },
            _ => (none, seq![]),
        },
        MouseEventAction::DragCommand => match ctx.semantic_tag {
            Some(Tag::Command(p)) => if ctx.select_with_mouse && drag_from_command {
                (soon, seq![MouseEffect::StartSelectionIfNone, MouseEffect::MoveCursorTo { byte_pos: p, move_past_final: mpf }])
            } else {
                (none, seq![])
            },
            _ => (none, seq![]),
        },
        MouseEventAction::DragWord => match ctx.semantic_tag {
            Some(Tag::Command(p)) => if ctx.select_with_mouse && drag_from_command {
                (soon, match ctx.last_click_buffer_pos {
                    Some(a) => seq![MouseEffect::ExtendWordSelection { anchor: a, target: p, move_past_final: mpf }],
                    None => seq![],
                })
            } else {
                (none, seq![])
            },
            _ => (none, seq![]),
        },
        MouseEventAction::DragLine => match ctx.semantic_tag {
            Some(Tag::Command(p)) => if ctx.select_with_mouse && drag_from_command {
                (soon, match ctx.last_click_buffer_pos {
                    Some(a) => seq![MouseEffect::ExtendLineSelection { anchor: a, target: p, move_past_final: mpf }],
                    None => seq![],
                })
            } else {
                (none, seq![])
            },
            _ => (none, seq![]),
        },
        MouseEventAction::DragAll => if ctx.select_with_mouse { (soon, seq![MouseEffect::SelectEntireBuffer]) } else { (none, seq![]) },
        MouseEventAction::ClickTutorialPrev => (none, seq![MouseEffect::TutorialPrev]),
        MouseEventAction::ClickTutorialNext => (none, seq![MouseEffect::TutorialNext]),
        MouseEventAction::PromptDirAccept => (now, seq![MouseEffect::RunKeyAction(KeyAction::PromptDirAcceptEntry)]),
        MouseEventAction::PromptDirSelect => (none, match ctx.semantic_tag {
            Some(Tag::PromptCwdWidget(i)) => seq![MouseEffect::EnterPromptDirSelect(i)],
            _ => seq![],
        }),
        MouseEventAction::PromptDirSelectDismiss => (none, if ctx.content_mode is PromptDirSelect { seq![MouseEffect::SetContentModeNormal] } else { seq![] }),
        MouseEventAction::ClickClipboard => match ctx.semantic_tag {
            Some(Tag::Clipboard(t)) => if ctx.clipboard_has_text { (now, seq![MouseEffect::CopyClipboardWidget(t)]) } else { (none, seq![]) },
            _ => (none, seq![]),
        },
        MouseEventAction::ClickPromptCopyBuffer => (if ctx.clipboard_write_ok { now } else { none }, seq![MouseEffect::CopyBufferToClipboard]),
        MouseEventAction::FlycompSelectYes => if ctx.content_mode == ContentModeKind::TabCompletionAskForFlycomp {
            if up_left {
                (now, seq![MouseEffect::SetFlycompSelection(FlycompPromptSelection::Yes), MouseEffect::RunFlycomp])
            } else {
                (none, seq![MouseEffect::SetFlycompSelection(FlycompPromptSelection::Yes)])
            }
        } else {
            (none, seq![])
        },
        MouseEventAction::FlycompSelectNo => if ctx.content_mode == ContentModeKind::TabCompletionAskForFlycomp {
            if up_left {
                (now, seq![MouseEffect::SetFlycompSelection(FlycompPromptSelection::No), MouseEffect::SetContentModeNormal])
            } else {
                (none, seq![MouseEffect::SetFlycompSelection(FlycompPromptSelection::No)])
            }
        } else {
            (none, seq![])
        },
        MouseEventAction::FlycompSelectDontAsk => if ctx.content_mode == ContentModeKind::TabCompletionAskForFlycomp {
            if up_left {
                (now, seq![MouseEffect::SetFlycompSelection(FlycompPromptSelection::DontAsk), MouseEffect::BlacklistFlycompCommand])
            } else {
                (none, seq![MouseEffect::SetFlycompSelection(FlycompPromptSelection::DontAsk)])
            }
        } else {
            (none, seq![])
        },
        MouseEventAction::DisableMouseCapture => (none, seq![MouseEffect::DisableMouseCapture]),
        MouseEventAction::RightClickMenuOpen => (none, seq![
            MouseEffect::OpenRightClickMenu(Coord { row: menu_row(ctx, mouse), col: mouse.column }),
            MouseEffect::RecordRightClickDown(Coord { row: mouse.row, col: mouse.column }),
            MouseEffect::SetCopyTarget(spec_copy_source(ctx.semantic_tag, ctx.content_mode)),
        ]),
        MouseEventAction::RightClickMenuDismiss => if ctx.right_click_popup_active {
            (now, seq![MouseEffect::CloseRightClickMenu, MouseEffect::ClearCopyTarget])
        } else {
            (none, seq![])
        },
        MouseEventAction::SetPointer(shape) => (MouseActionOutput {
            possible_buffer_change: false,
            desired_pointer_shape: Some(shape),
            redraw_urgency: RedrawUrgency::Soon,
        }, seq![]),
    }
}

/// Whether `effects` holds `e`.
pub open spec fn has_effect(effects: Seq<MouseEffect>, e: MouseEffect) -> bool {
    exists|i: int| 0 <= i < effects.len() && effects[i] == e
}

/// Selecting by words, by lines and the whole buffer are the work of their
/// own actions: only `SelectWord` selects the word under the mouse, only
/// `SelectLine` its line, and only `SelectAll` and `DragAll` the whole
/// buffer.
pub proof fn law_selection_effects_belong_to_their_actions(a: MouseEventAction, ctx: ActionContext, mouse: MouseEvent)
    ensures
        has_effect(spec_plan(a, ctx, mouse).1, MouseEffect::SelectWord) ==> a == MouseEventAction::SelectWord,
        has_effect(spec_plan(a, ctx, mouse).1, MouseEffect::SelectLine) ==> a == MouseEventAction::SelectLine,
        has_effect(spec_plan(a, ctx, mouse).1, MouseEffect::SelectEntireBuffer) ==> a == MouseEventAction::SelectAll
            || a == MouseEventAction::DragAll,
{
}

/// A double click in the buffer (with mouse selection on) moves the cursor
/// to the clicked byte and then selects the word there; a triple click
/// does the same with the line. Both may change the buffer and redraw at
/// once. Off the buffer, or with mouse selection off, they do nothing.
pub proof fn law_word_and_line_selection(ctx: ActionContext, mouse: MouseEvent, p: usize)
    ensures
        ctx.semantic_tag == Some(Tag::Command(p)) && ctx.select_with_mouse ==> ({
            let w = spec_plan(MouseEventAction::SelectWord, ctx, mouse);
            let l = spec_plan(MouseEventAction::SelectLine, ctx, mouse);
            &&& w.1.len() == 2 && l.1.len() == 2
            &&& w.1[0] is MoveCursorTo && w.1[0]->byte_pos == p
            &&& l.1[0] is MoveCursorTo && l.1[0]->byte_pos == p
            &&& w.1[1] == MouseEffect::SelectWord
            &&& l.1[1] == MouseEffect::SelectLine
            &&& w.0.possible_buffer_change && w.0.redraw_urgency == RedrawUrgency::Now
            &&& l.0.possible_buffer_change && l.0.redraw_urgency == RedrawUrgency::Now
        }),
        !(ctx.semantic_tag matches Some(Tag::Command(_)) && ctx.select_with_mouse) ==> spec_plan(
            MouseEventAction::SelectWord,
            ctx,
            mouse,
        ).1.len() == 0 && spec_plan(MouseEventAction::SelectLine, ctx, mouse).1.len() == 0,
{
}

/// The entries of the right-click menu run their key action and close the
/// menu; pasting, undoing and redoing also forget what the menu would copy;
/// running the tutorial starts it and leaves the editor without a command.
/// Each may change the buffer and redraws at once.
pub proof fn law_menu_entries(ctx: ActionContext, mouse: MouseEvent)
    ensures
        spec_plan(MouseEventAction::Copy, ctx, mouse) == (MouseActionOutput::spec_update_now(), seq![
            MouseEffect::RunKeyAction(KeyAction::CopyTarget),
            MouseEffect::CloseRightClickMenu,
        ]),
        spec_plan(MouseEventAction::Cut, ctx, mouse) == (MouseActionOutput::spec_update_now(), seq![
            MouseEffect::RunKeyAction(KeyAction::CutSelection),
            MouseEffect::CloseRightClickMenu,
        ]),
        spec_plan(MouseEventAction::Paste, ctx, mouse) == (MouseActionOutput::spec_update_now(), seq![
            MouseEffect::RunKeyAction(KeyAction::PasteSystemClipboard),
            MouseEffect::CloseRightClickMenu,
            MouseEffect::ClearCopyTarget,
        ]),
        spec_plan(MouseEventAction::Undo, ctx, mouse) == (MouseActionOutput::spec_update_now(), seq![
            MouseEffect::RunKeyAction(KeyAction::Undo),
            MouseEffect::CloseRightClickMenu,
            MouseEffect::ClearCopyTarget,
        ]),
        spec_plan(MouseEventAction::Redo, ctx, mouse) == (MouseActionOutput::spec_update_now(), seq![
            MouseEffect::RunKeyAction(KeyAction::Redo),
            MouseEffect::CloseRightClickMenu,
            MouseEffect::ClearCopyTarget,
        ]),
        spec_plan(MouseEventAction::RunTutorial, ctx, mouse) == (MouseActionOutput::spec_update_now(), seq![
            MouseEffect::StartTutorial,
            MouseEffect::CloseRightClickMenu,
            MouseEffect::ClearCopyTarget,
            MouseEffect::ExitWithoutCommand,
        ]),
        MouseActionOutput::spec_update_now() == (MouseActionOutput {
            possible_buffer_change: true,
            desired_pointer_shape: None,
            redraw_urgency: RedrawUrgency::Now,
        }),
{
}

/// Scrolling, hovering, pointer shapes, tutorial buttons, directory
/// selection, releasing the mouse and opening the menu never change the
/// buffer and never ask for an immediate redraw.
pub proof fn law_passive_actions(a: MouseEventAction, ctx: ActionContext, mouse: MouseEvent)
    requires
        a is ScrollSuggestionsUp || a is ScrollSuggestionsDown || a is ScrollSuggestionsLeft
            || a is ScrollSuggestionsRight || a is ScrollSuggestionsBar || a is ScrollHistoryUp
            || a is ScrollHistoryDown || a is HoverSuggestion || a is HoverHistoryResult || a is HoverAiResult
            || a is HoverCommand || a is HoverClearTooltip || a is ClickTutorialPrev || a is ClickTutorialNext
            || a is PromptDirSelect || a is PromptDirSelectDismiss || a is DisableMouseCapture
            || a is RightClickMenuOpen || a is SetPointer,
    ensures
        !spec_plan(a, ctx, mouse).0.possible_buffer_change,
        spec_plan(a, ctx, mouse).0.redraw_urgency == RedrawUrgency::Soon,
        !(a is SetPointer) ==> spec_plan(a, ctx, mouse).0.desired_pointer_shape is None,
{
}

/// Scrolling moves through the suggestions in the direction scrolled, and
/// through the fuzzy history search (up towards newer entries), only while
/// that list is open; elsewhere it does nothing.
pub proof fn law_scrolling(ctx: ActionContext, mouse: MouseEvent)
    ensures
        ctx.content_mode == ContentModeKind::TabCompletion ==> spec_plan(MouseEventAction::ScrollSuggestionsUp, ctx, mouse).1
            == seq![MouseEffect::SuggestionsUp] && spec_plan(MouseEventAction::ScrollSuggestionsDown, ctx, mouse).1
            == seq![MouseEffect::SuggestionsDown] && spec_plan(MouseEventAction::ScrollSuggestionsLeft, ctx, mouse).1
            == seq![MouseEffect::SuggestionsLeft] && spec_plan(MouseEventAction::ScrollSuggestionsRight, ctx, mouse).1
            == seq![MouseEffect::SuggestionsRight],
        ctx.content_mode != ContentModeKind::TabCompletion ==> spec_plan(MouseEventAction::ScrollSuggestionsUp, ctx, mouse).1.len()
            == 0 && spec_plan(MouseEventAction::ScrollSuggestionsDown, ctx, mouse).1.len() == 0,
        forall|src: FuzzyHistorySource|
            ctx.content_mode == ContentModeKind::FuzzyHistorySearch(src) ==> #[trigger] spec_plan(
                MouseEventAction::ScrollHistoryUp,
                ctx,
                mouse,
            ).1 == seq![MouseEffect::StepHistorySearch { source: src, forward: true }] && spec_plan(
                MouseEventAction::ScrollHistoryDown,
                ctx,
                mouse,
            ).1 == seq![MouseEffect::StepHistorySearch { source: src, forward: false }],
        !(ctx.content_mode is FuzzyHistorySearch) ==> spec_plan(MouseEventAction::ScrollHistoryUp, ctx, mouse).1.len() == 0
            && spec_plan(MouseEventAction::ScrollHistoryDown, ctx, mouse).1.len() == 0,
{
}

/// Dragging after a double (triple) click in the buffer, with mouse
/// selection on, extends the selection by words (lines) from where the last
/// click landed to the byte under the mouse, without an immediate redraw;
/// without a recorded click it only asks for a redraw soon.
pub proof fn law_drag_by_words_and_lines(ctx: ActionContext, mouse: MouseEvent, p: usize, a: usize)
    requires
        ctx.semantic_tag == Some(Tag::Command(p)),
        ctx.select_with_mouse,
        ctx.drag_start_tag matches Some(Tag::Command(_)),
    ensures
        ({
            let mpf = !(ctx.direct_tag matches Some(Tag::Command(_)));
            let soon = MouseActionOutput::spec_update_soon();
            &&& ctx.last_click_buffer_pos == Some(a) ==> spec_plan(MouseEventAction::DragWord, ctx, mouse) == (
                soon,
                seq![MouseEffect::ExtendWordSelection { anchor: a, target: p, move_past_final: mpf }],
            )
            &&& ctx.last_click_buffer_pos == Some(a) ==> spec_plan(MouseEventAction::DragLine, ctx, mouse) == (
                soon,
                seq![MouseEffect::ExtendLineSelection { anchor: a, target: p, move_past_final: mpf }],
            )
            &&& ctx.last_click_buffer_pos is None ==> spec_plan(MouseEventAction::DragWord, ctx, mouse) == (
                soon,
                Seq::<MouseEffect>::empty(),
            ) && spec_plan(MouseEventAction::DragLine, ctx, mouse) == (soon, Seq::<MouseEffect>::empty())
        }),
{
}

/// Dragging the suggestions' scroll bar selects the row at the mouse's
/// offset from the bar's top, clamped to the bar: the first row above it,
/// the last one below it.
pub proof fn law_scrollbar_drag(ctx: ActionContext, mouse: MouseEvent, h: usize, y: u16, min_row: u16)
    requires
        ctx.drag_start_tag == Some(Tag::TabCompletionScrollBar { max_cell_height: h, y_start: y }),
        ctx.scrollbar_top_row == Some(min_row),
        ctx.content_mode == ContentModeKind::TabCompletion,
        min_row + h <= u16::MAX,
    ensures
        ({
            let e = spec_plan(MouseEventAction::ScrollSuggestionsBar, ctx, mouse).1;
            &&& e.len() == 1
            &&& min_row <= mouse.row <= min_row + h ==> e[0] == MouseEffect::SelectSuggestionByScrollbar {
                cell_height: (mouse.row - min_row) as usize,
                max_cell_height: h,
            }
            &&& mouse.row < min_row ==> e[0] == MouseEffect::SelectSuggestionByScrollbar {
                cell_height: 0,
                max_cell_height: h,
            }
            &&& mouse.row > min_row + h ==> e[0] == MouseEffect::SelectSuggestionByScrollbar {
                cell_height: h,
                max_cell_height: h,
            }
        }),
{
    assert((min_row + (h as u16)) as u16 == min_row + h);
}

/// The widgets: a clipboard widget that holds text is copied, redrawing at
/// once, and one without does nothing; the copy-buffer widget copies the
/// buffer, redrawing at once only when that worked; the directory segments
/// of the prompt are entered by clicking one, accepted with the accept
/// button, and left when clicking elsewhere while they are selected; the
/// tutorial buttons step back and forth; hovering the buffer shows its
/// tooltip and hovering elsewhere clears it; the capture button stops
/// capturing the mouse.
pub proof fn law_widgets(ctx: ActionContext, mouse: MouseEvent, t: usize, i: usize, p: usize)
    ensures
        ({
            let now = MouseActionOutput::spec_update_now();
            let none = MouseActionOutput::spec_dont_update();
            &&& ctx.semantic_tag == Some(Tag::Clipboard(t)) && ctx.clipboard_has_text ==> spec_plan(
                MouseEventAction::ClickClipboard,
                ctx,
                mouse,
            ) == (now, seq![MouseEffect::CopyClipboardWidget(t)])
            &&& !ctx.clipboard_has_text ==> spec_plan(MouseEventAction::ClickClipboard, ctx, mouse) == (
                none,
                Seq::<MouseEffect>::empty(),
            )
            &&& spec_plan(MouseEventAction::ClickPromptCopyBuffer, ctx, mouse) == (
                if ctx.clipboard_write_ok { now } else { none },
                seq![MouseEffect::CopyBufferToClipboard],
            )
            &&& spec_plan(MouseEventAction::PromptDirAccept, ctx, mouse) == (
                now,
                seq![MouseEffect::RunKeyAction(KeyAction::PromptDirAcceptEntry)],
            )
            &&& ctx.semantic_tag == Some(Tag::PromptCwdWidget(i)) ==> spec_plan(
                MouseEventAction::PromptDirSelect,
                ctx,
                mouse,
            ).1 == seq![MouseEffect::EnterPromptDirSelect(i)]
            &&& ctx.content_mode is PromptDirSelect ==> spec_plan(MouseEventAction::PromptDirSelectDismiss, ctx, mouse).1
                == seq![MouseEffect::SetContentModeNormal]
            &&& !(ctx.content_mode is PromptDirSelect) ==> spec_plan(
                MouseEventAction::PromptDirSelectDismiss,
                ctx,
                mouse,
            ).1.len() == 0
            &&& spec_plan(MouseEventAction::ClickTutorialPrev, ctx, mouse).1 == seq![MouseEffect::TutorialPrev]
            &&& spec_plan(MouseEventAction::ClickTutorialNext, ctx, mouse).1 == seq![MouseEffect::TutorialNext]
            &&& ctx.semantic_tag == Some(Tag::Command(p)) ==> spec_plan(MouseEventAction::HoverCommand, ctx, mouse).1
                == seq![MouseEffect::ShowTooltipAt(p)]
            &&& spec_plan(MouseEventAction::HoverClearTooltip, ctx, mouse).1 == seq![MouseEffect::ClearTooltip]
            &&& spec_plan(MouseEventAction::DisableMouseCapture, ctx, mouse).1 == seq![
                MouseEffect::DisableMouseCapture,
            ]
        }),
{
}

/// Opening the right-click menu places it at the mouse (its content row,
/// clamped at the top, and its column), remembers where the right button
/// went down, and chooses what the menu copies from the cell under the
/// mouse. Dismissing it closes it and forgets that choice, redrawing at
/// once, when it is open, and does nothing otherwise.
pub proof fn law_right_click_menu(ctx: ActionContext, mouse: MouseEvent)
    ensures
        spec_plan(MouseEventAction::RightClickMenuOpen, ctx, mouse).1 == seq![
            MouseEffect::OpenRightClickMenu(Coord { row: menu_row(ctx, mouse), col: mouse.column }),
            MouseEffect::RecordRightClickDown(Coord { row: mouse.row, col: mouse.column }),
            MouseEffect::SetCopyTarget(spec_copy_source(ctx.semantic_tag, ctx.content_mode)),
        ],
        ctx.mouse_content_row matches Some(r) ==> (0 <= r <= u16::MAX ==> menu_row(ctx, mouse) == r) && (r < 0
            ==> menu_row(ctx, mouse) == 0),
        ctx.mouse_content_row is None ==> menu_row(ctx, mouse) == mouse.row,
        ctx.right_click_popup_active ==> spec_plan(MouseEventAction::RightClickMenuDismiss, ctx, mouse) == (
            MouseActionOutput::spec_update_now(),
            seq![MouseEffect::CloseRightClickMenu, MouseEffect::ClearCopyTarget],
        ),
        !ctx.right_click_popup_active ==> spec_plan(MouseEventAction::RightClickMenuDismiss, ctx, mouse).1.len() == 0,
{
}

/// What the menu copies: a suggestion while completing, a history entry
/// while searching history, an agent suggestion while choosing one, a
/// directory segment of the prompt, a clipboard widget, or the buffer for
/// the copy-buffer widget; nothing (the selection or the buffer) elsewhere.
pub proof fn law_copy_source(tag: Option<Tag>, mode: ContentModeKind, i: usize)
    ensures
        spec_copy_source(Some(Tag::Suggestion(i)), ContentModeKind::TabCompletion) == Some(CopyTargetSource::Suggestion(i)),
        mode != ContentModeKind::TabCompletion ==> spec_copy_source(Some(Tag::Suggestion(i)), mode) is None,
        forall|src: FuzzyHistorySource|
            #[trigger] spec_copy_source(Some(Tag::HistoryResult(i)), ContentModeKind::FuzzyHistorySearch(src)) == Some(
                CopyTargetSource::HistoryEntry(src, i),
            ),
        spec_copy_source(Some(Tag::AiResult(i)), ContentModeKind::AgentOutputSelection) == Some(CopyTargetSource::AiResult(i)),
        spec_copy_source(Some(Tag::PromptCwdWidget(i)), mode) == Some(CopyTargetSource::Cwd(i)),
        spec_copy_source(Some(Tag::Clipboard(i)), mode) == Some(CopyTargetSource::Clipboard(i)),
        spec_copy_source(Some(Tag::PromptCopyBufferWidget), mode) == Some(CopyTargetSource::Buffer),
        spec_copy_source(None, mode) is None,
        spec_copy_source(Some(Tag::Command(i)), mode) is None,
{
}

/// Clicking a suggestion accepts it and leaves completion; clicking a
/// history result puts it in the buffer and leaves the search; clicking an
/// agent suggestion with a command puts that command in the buffer and
/// leaves, and one without only selects it.
pub proof fn law_accepting(ctx: ActionContext, mouse: MouseEvent, i: usize)
    ensures
        ctx.semantic_tag == Some(Tag::Suggestion(i)) && ctx.content_mode == ContentModeKind::TabCompletion ==> spec_plan(
            MouseEventAction::AcceptSuggestion,
            ctx,
            mouse,
        ) == (MouseActionOutput::spec_update_now(), seq![
            MouseEffect::SelectSuggestion(i),
            MouseEffect::AcceptSelectedSuggestion,
            MouseEffect::SetContentModeNormal,
        ]),
        forall|src: FuzzyHistorySource|
            ctx.semantic_tag == Some(Tag::HistoryResult(i)) && ctx.content_mode == ContentModeKind::FuzzyHistorySearch(src)
                ==> #[trigger] spec_plan(MouseEventAction::AcceptHistoryResult, ctx, mouse) == (
                MouseActionOutput::spec_update_now(),
                seq![MouseEffect::SelectHistoryResult { source: src, index: i }, MouseEffect::AcceptFuzzyHistorySearch],
            ),
        ctx.semantic_tag == Some(Tag::AiResult(i)) && ctx.content_mode == ContentModeKind::AgentOutputSelection
            && ctx.ai_result_has_command ==> spec_plan(MouseEventAction::AcceptAiResult, ctx, mouse) == (
            MouseActionOutput::spec_update_now(),
            seq![
                MouseEffect::SelectAiResult(i),
                MouseEffect::ReplaceBufferWithSelectedAiCommand,
                MouseEffect::SetContentModeNormal,
            ],
        ),
        ctx.semantic_tag == Some(Tag::AiResult(i)) && ctx.content_mode == ContentModeKind::AgentOutputSelection
            && !ctx.ai_result_has_command ==> spec_plan(MouseEventAction::AcceptAiResult, ctx, mouse).1 == seq![
            MouseEffect::SelectAiResult(i),
        ],
{
}

/// In the "synthesize completions?" prompt, hovering an answer selects it,
/// and releasing the left button on it acts on it: yes runs the synthesis,
/// no leaves the prompt, and "don't ask" never asks again for the command.
/// Outside the prompt the answers do nothing.
pub proof fn law_flycomp_answers(ctx: ActionContext, mouse: MouseEvent)
    ensures
        ctx.content_mode == ContentModeKind::TabCompletionAskForFlycomp && mouse.kind == MouseEventKind::Up(
            MouseButton::Left,
        ) ==> spec_plan(MouseEventAction::FlycompSelectYes, ctx, mouse).1 == seq![
            MouseEffect::SetFlycompSelection(FlycompPromptSelection::Yes),
            MouseEffect::RunFlycomp,
        ] && spec_plan(MouseEventAction::FlycompSelectNo, ctx, mouse).1 == seq![
            MouseEffect::SetFlycompSelection(FlycompPromptSelection::No),
            MouseEffect::SetContentModeNormal,
        ] && spec_plan(MouseEventAction::FlycompSelectDontAsk, ctx, mouse).1 == seq![
            MouseEffect::SetFlycompSelection(FlycompPromptSelection::DontAsk),
            MouseEffect::BlacklistFlycompCommand,
        ],
        ctx.content_mode == ContentModeKind::TabCompletionAskForFlycomp && mouse.kind != MouseEventKind::Up(
            MouseButton::Left,
        ) ==> spec_plan(MouseEventAction::FlycompSelectYes, ctx, mouse).1 == seq![
            MouseEffect::SetFlycompSelection(FlycompPromptSelection::Yes),
        ] && spec_plan(MouseEventAction::FlycompSelectNo, ctx, mouse).1 == seq![
            MouseEffect::SetFlycompSelection(FlycompPromptSelection::No),
        ] && spec_plan(MouseEventAction::FlycompSelectDontAsk, ctx, mouse).1 == seq![
            MouseEffect::SetFlycompSelection(FlycompPromptSelection::DontAsk),
        ],
        ctx.content_mode != ContentModeKind::TabCompletionAskForFlycomp ==> spec_plan(
            MouseEventAction::FlycompSelectYes,
            ctx,
            mouse,
        ).1.len() == 0 && spec_plan(MouseEventAction::FlycompSelectNo, ctx, mouse).1.len() == 0 && spec_plan(
            MouseEventAction::FlycompSelectDontAsk,
            ctx,
            mouse,
        ).1.len() == 0,
{
}

/// A click in the buffer (with mouse selection on) moves the cursor to the
/// clicked byte, past the last character when the click is beyond the text:
/// with Shift held it extends the selection, otherwise it starts a new one.
/// Dragging from the buffer extends the selection to the byte under the
/// mouse, without an immediate redraw.
pub proof fn law_clicks_and_drags_in_buffer(ctx: ActionContext, mouse: MouseEvent, p: usize)
    ensures
        ({
            let mpf = !(ctx.direct_tag matches Some(Tag::Command(_)));
            &&& ctx.semantic_tag == Some(Tag::Command(p)) && ctx.select_with_mouse && mouse.shift ==> spec_plan(
                MouseEventAction::ClickCommand,
                ctx,
                mouse,
            ) == (MouseActionOutput::spec_update_now(), seq![
                MouseEffect::StartSelectionIfNone,
                MouseEffect::MoveCursorTo { byte_pos: p, move_past_final: mpf },
            ])
            &&& ctx.semantic_tag == Some(Tag::Command(p)) && ctx.select_with_mouse && !mouse.shift ==> spec_plan(
                MouseEventAction::ClickCommand,
                ctx,
                mouse,
            ) == (MouseActionOutput::spec_update_now(), seq![
                MouseEffect::ClearSelection,
                MouseEffect::MoveCursorTo { byte_pos: p, move_past_final: mpf },
                MouseEffect::StartSelectionIfNone,
            ])
            &&& ctx.semantic_tag == Some(Tag::Command(p)) && ctx.select_with_mouse && (ctx.drag_start_tag matches Some(
                Tag::Command(_),
            )) ==> spec_plan(MouseEventAction::DragCommand, ctx, mouse) == (MouseActionOutput::spec_update_soon(), seq![
                MouseEffect::StartSelectionIfNone,
                MouseEffect::MoveCursorTo { byte_pos: p, move_past_final: mpf },
            ])
            &&& !ctx.select_with_mouse ==> spec_plan(MouseEventAction::ClickCommand, ctx, mouse).1.len() == 0
                && spec_plan(MouseEventAction::DragCommand, ctx, mouse).1.len() == 0
                && spec_plan(MouseEventAction::SelectAll, ctx, mouse).1.len() == 0
        }),
{
}

/// Setting the pointer asks for exactly that shape and does nothing else.
pub proof fn law_set_pointer(shape: PointerShape, ctx: ActionContext, mouse: MouseEvent)
    ensures
        spec_plan(MouseEventAction::SetPointer(shape), ctx, mouse).0.desired_pointer_shape == Some(shape),
        spec_plan(MouseEventAction::SetPointer(shape), ctx, mouse).1.len() == 0,
        spec_plan(MouseEventAction::DisableMouseCapture, ctx, mouse).1 == seq![MouseEffect::DisableMouseCapture],
{
}

fn plan0(output: MouseActionOutput) -> (r: MousePlan)
    ensures
        r.output == output,
        r.effects@ == Seq::<MouseEffect>::empty(),
{
    MousePlan { output, effects: Vec::new() }
}

fn plan1(output: MouseActionOutput, a: MouseEffect) -> (r: MousePlan)
    ensures
        r.output == output,
        r.effects@ == seq![a],
{
    let mut effects = Vec::new();
    effects.push(a);
    MousePlan { output, effects }
}

fn plan2(output: MouseActionOutput, a: MouseEffect, b: MouseEffect) -> (r: MousePlan)
    ensures
        r.output == output,
        r.effects@ == seq![a, b],
{
    let mut effects = Vec::new();
    effects.push(a);
    effects.push(b);
    MousePlan { output, effects }
}

fn plan3(output: MouseActionOutput, a: MouseEffect, b: MouseEffect, c: MouseEffect) -> (r: MousePlan)
    ensures
        r.output == output,
        r.effects@ == seq![a, b, c],
{
    let mut effects = Vec::new();
    effects.push(a);
    effects.push(b);
    effects.push(c);
    MousePlan { output, effects }
}

fn plan4(output: MouseActionOutput, a: MouseEffect, b: MouseEffect, c: MouseEffect, d: MouseEffect) -> (r: MousePlan)
    ensures
        r.output == output,
        r.effects@ == seq![a, b, c, d],
{
    let mut effects = Vec::new();
    effects.push(a);
    effects.push(b);
    effects.push(c);
    effects.push(d);
    MousePlan { output, effects }
}

/// The copy source for the right-click menu opened over `tag`.
pub fn copy_source(tag: Option<Tag>, mode: ContentModeKind) -> (r: Option<CopyTargetSource>)
    ensures
        r == spec_copy_source(tag, mode),
{
    match tag {
        Some(Tag::Suggestion(i)) => if mode == ContentModeKind::TabCompletion {
            Some(CopyTargetSource::Suggestion(i))
        } else {
            None
        },
        Some(Tag::HistoryResult(i)) => match mode {
            ContentModeKind::FuzzyHistorySearch(src) => Some(CopyTargetSource::HistoryEntry(src, i)),
            _ => None,
        },
        Some(Tag::PromptCwdWidget(i)) => Some(CopyTargetSource::Cwd(i)),
        Some(Tag::AiResult(i)) => if mode == ContentModeKind::AgentOutputSelection {
            Some(CopyTargetSource::AiResult(i))
        } else {
            None
        },
        Some(Tag::Clipboard(t)) => Some(CopyTargetSource::Clipboard(t)),
        Some(Tag::PromptCopyBufferWidget) => Some(CopyTargetSource::Buffer),
        _ => None,
    }
}

impl MouseEventAction {
    /// Decides what the action does when run on `mouse` in `ctx`: the output
    /// it reports and the changes it makes, in order.
    #[verifier::spinoff_prover]
    #[verifier::rlimit(100)]
    pub fn run(&self, ctx: &ActionContext, mouse: MouseEvent) -> (r: MousePlan)
        requires
            plan_in_range(*self, *ctx),
        ensures
            (r.output, r.effects@) == spec_plan(*self, *ctx, mouse),
    {
        let now = MouseActionOutput::update_now();
        let soon = MouseActionOutput::update_soon();
        let none = MouseActionOutput::dont_update();
        let mpf = !matches!(ctx.direct_tag, Some(Tag::Command(_)));
        let drag_from_command = matches!(ctx.drag_start_tag, Some(Tag::Command(_)));
        let up_left = mouse.kind == MouseEventKind::Up(MouseButton::Left);
        let tab = ctx.content_mode == ContentModeKind::TabCompletion;
        match self {
            MouseEventAction::Copy => plan2(now, MouseEffect::RunKeyAction(KeyAction::CopyTarget), MouseEffect::CloseRightClickMenu),
            MouseEventAction::Cut => plan2(now, MouseEffect::RunKeyAction(KeyAction::CutSelection), MouseEffect::CloseRightClickMenu),
            MouseEventAction::Paste => plan3(now, MouseEffect::RunKeyAction(KeyAction::PasteSystemClipboard), MouseEffect::CloseRightClickMenu, MouseEffect::ClearCopyTarget),
            MouseEventAction::Undo => plan3(now, MouseEffect::RunKeyAction(KeyAction::Undo), MouseEffect::CloseRightClickMenu, MouseEffect::ClearCopyTarget),
            MouseEventAction::Redo => plan3(now, MouseEffect::RunKeyAction(KeyAction::Redo), MouseEffect::CloseRightClickMenu, MouseEffect::ClearCopyTarget),
            MouseEventAction::RunTutorial => plan4(now, MouseEffect::StartTutorial, MouseEffect::CloseRightClickMenu, MouseEffect::ClearCopyTarget, MouseEffect::ExitWithoutCommand),
            MouseEventAction::ScrollSuggestionsUp => if tab { plan1(none, MouseEffect::SuggestionsUp) } else { plan0(none) },
            MouseEventAction::ScrollSuggestionsDown => if tab { plan1(none, MouseEffect::SuggestionsDown) } else { plan0(none) },
            MouseEventAction::ScrollSuggestionsLeft => if tab { plan1(none, MouseEffect::SuggestionsLeft) } else { plan0(none) },
            MouseEventAction::ScrollSuggestionsRight => if tab { plan1(none, MouseEffect::SuggestionsRight) } else { plan0(none) },
            MouseEventAction::ScrollSuggestionsBar => match (ctx.drag_start_tag, ctx.scrollbar_top_row) {
                (Some(Tag::TabCompletionScrollBar { max_cell_height, y_start: _ }), Some(min_row)) => {
                    let max_row: u16 = min_row + (max_cell_height as u16);
                    let cell_height: usize = if mouse.row < min_row {
                        0
                    } else if mouse.row > max_row {
                        max_cell_height
                    } else {
                        (mouse.row - min_row) as usize
                    };
                    if tab {
                        plan1(none, MouseEffect::SelectSuggestionByScrollbar { cell_height, max_cell_height })
                    } else {
                        plan0(none)
                    }
                },
                _ => plan0(none),
            },
            MouseEventAction::ScrollHistoryUp => match ctx.content_mode {
                ContentModeKind::FuzzyHistorySearch(src) => plan1(none, MouseEffect::StepHistorySearch { source: src, forward: true }),
                _ => plan0(none),
            },
            MouseEventAction::ScrollHistoryDown => match ctx.content_mode {
                ContentModeKind::FuzzyHistorySearch(src) => plan1(none, MouseEffect::StepHistorySearch { source: src, forward: false }),
                _ => plan0(none),
            },
            MouseEventAction::HoverSuggestion => match ctx.semantic_tag {
                Some(Tag::Suggestion(i)) => if tab { plan1(none, MouseEffect::SelectSuggestion(i)) } else { plan0(none) },
                _ => plan0(none),
            },
            MouseEventAction::HoverHistoryResult => match (ctx.semantic_tag, ctx.content_mode) {
                (Some(Tag::HistoryResult(i)), ContentModeKind::FuzzyHistorySearch(src)) => plan1(none, MouseEffect::SelectHistoryResult { source: src, index: i }),
                _ => plan0(none),
            },
            MouseEventAction::HoverAiResult => match ctx.semantic_tag {
                Some(Tag::AiResult(i)) => if ctx.content_mode == ContentModeKind::AgentOutputSelection { plan1(none, MouseEffect::SelectAiResult(i)) } else { plan0(none) },
                _ => plan0(none),
            },
            MouseEventAction::HoverCommand => match ctx.semantic_tag {
                Some(Tag::Command(p)) => plan1(none, MouseEffect::ShowTooltipAt(p)),
                _ => plan0(none),
            },
            MouseEventAction::HoverClearTooltip => plan1(none, MouseEffect::ClearTooltip),
            MouseEventAction::AcceptSuggestion => match ctx.semantic_tag {
                Some(Tag::Suggestion(i)) => if tab {
                    plan3(now, MouseEffect::SelectSuggestion(i), MouseEffect::AcceptSelectedSuggestion, MouseEffect::SetContentModeNormal)
                } else {
                    plan0(none)
                },
                _ => plan0(none),
            },
            MouseEventAction::AcceptHistoryResult => match (ctx.semantic_tag, ctx.content_mode) {
                (Some(Tag::HistoryResult(i)), ContentModeKind::FuzzyHistorySearch(src)) => plan2(now, MouseEffect::SelectHistoryResult { source: src, index: i }, MouseEffect::AcceptFuzzyHistorySearch),
                _ => plan0(none),
            },
            MouseEventAction::AcceptAiResult => match ctx.semantic_tag {
                Some(Tag::AiResult(i)) => if ctx.content_mode == ContentModeKind::AgentOutputSelection {
                    if ctx.ai_result_has_command {
                        plan3(now, MouseEffect::SelectAiResult(i), MouseEffect::ReplaceBufferWithSelectedAiCommand, MouseEffect::SetContentModeNormal)
                    } else {
                        plan1(none, MouseEffect::SelectAiResult(i))
                    }
                } else {
                    plan0(none)
                },
                _ => plan0(none),
            },
            MouseEventAction::ClickCommand => match ctx.semantic_tag {
                Some(Tag::Command(p)) => if ctx.select_with_mouse {
                    if mouse.shift {
                        plan2(now, MouseEffect::StartSelectionIfNone, MouseEffect::MoveCursorTo { byte_pos: p, move_past_final: mpf })
                    } else {
                        plan3(now, MouseEffect::ClearSelection, MouseEffect::MoveCursorTo { byte_pos: p, move_past_final: mpf }, MouseEffect::StartSelectionIfNone)
                    }
                } else {
                    plan0(none)
                },
                _ => plan0(none),
            },
            MouseEventAction::ReleaseCommand => plan0(now),
            MouseEventAction::SelectAll => if ctx.select_with_mouse { plan1(now, MouseEffect::SelectEntireBuffer) } else { plan0(none) },
            MouseEventAction::SelectWord => match ctx.semantic_tag {
                Some(Tag::Command(p)) => if ctx.select_with_mouse {
                    plan2(now, MouseEffect::MoveCursorTo { byte_pos: p, move_past_final: mpf }, MouseEffect::SelectWord)
                } else {
                    plan0(none)
                },
                _ => plan0(none),
            },
            MouseEventAction::SelectLine => match ctx.semantic_tag {
                Some(Tag::Command(p)) => if ctx.select_with_mouse {
                    plan2(now, MouseEffect::MoveCursorTo { byte_pos: p, move_past_final: mpf }, MouseEffect::SelectLine)
                } else {
                    plan0(none)
                },
                _ => plan0(none),
            },
            MouseEventAction::DragCommand => match ctx.semantic_tag {
                Some(Tag::Command(p)) => if ctx.select_with_mouse && drag_from_command {
                    plan2(soon, MouseEffect::StartSelectionIfNone, MouseEffect::MoveCursorTo { byte_pos: p, move_past_final: mpf })
                } else {
                    plan0(none)
                },
                _ => plan0(none),
            },
            MouseEventAction::DragWord => match ctx.semantic_tag {
                Some(Tag::Command(p)) => if ctx.select_with_mouse && drag_from_command {
                    match ctx.last_click_buffer_pos {
                        Some(a) => plan1(soon, MouseEffect::ExtendWordSelection { anchor: a, target: p, move_past_final: mpf }),
                        None => plan0(soon),
                    }
                } else {
                    plan0(none)
                },
                _ => plan0(none),
            },
            MouseEventAction::DragLine => match ctx.semantic_tag {
                Some(Tag::Command(p)) => if ctx.select_with_mouse && drag_from_command {
                    match ctx.last_click_buffer_pos {
                        Some(a) => plan1(soon, MouseEffect::ExtendLineSelection { anchor: a, target: p, move_past_final: mpf }),
                        None => plan0(soon),
                    }
                } else {
                    plan0(none)
                },
                _ => plan0(none),
            },
            MouseEventAction::DragAll => if ctx.select_with_mouse { plan1(soon, MouseEffect::SelectEntireBuffer) } else { plan0(none) },
            MouseEventAction::ClickTutorialPrev => plan1(none, MouseEffect::TutorialPrev),
            MouseEventAction::ClickTutorialNext => plan1(none, MouseEffect::TutorialNext),
            MouseEventAction::PromptDirAccept => plan1(now, MouseEffect::RunKeyAction(KeyAction::PromptDirAcceptEntry)),
            MouseEventAction::PromptDirSelect => match ctx.semantic_tag {
                Some(Tag::PromptCwdWidget(i)) => plan1(none, MouseEffect::EnterPromptDirSelect(i)),
                _ => plan0(none),
            },
            MouseEventAction::PromptDirSelectDismiss => if matches!(ctx.content_mode, ContentModeKind::PromptDirSelect(_)) {
                plan1(none, MouseEffect::SetContentModeNormal)
            } else {
                plan0(none)
            },
            MouseEventAction::ClickClipboard => match ctx.semantic_tag {
                Some(Tag::Clipboard(t)) => if ctx.clipboard_has_text { plan1(now, MouseEffect::CopyClipboardWidget(t)) } else { plan0(none) },
                _ => plan0(none),
            },
            MouseEventAction::ClickPromptCopyBuffer => plan1(if ctx.clipboard_write_ok { now } else { none }, MouseEffect::CopyBufferToClipboard),
            MouseEventAction::FlycompSelectYes => if ctx.content_mode == ContentModeKind::TabCompletionAskForFlycomp {
                if up_left {
                    plan2(now, MouseEffect::SetFlycompSelection(FlycompPromptSelection::Yes), MouseEffect::RunFlycomp)
                } else {
                    plan1(none, MouseEffect::SetFlycompSelection(FlycompPromptSelection::Yes))
                }
            } else {
                plan0(none)
            },
            MouseEventAction::FlycompSelectNo => if ctx.content_mode == ContentModeKind::TabCompletionAskForFlycomp {
                if up_left {
                    plan2(now, MouseEffect::SetFlycompSelection(FlycompPromptSelection::No), MouseEffect::SetContentModeNormal)
                } else {
                    plan1(none, MouseEffect::SetFlycompSelection(FlycompPromptSelection::No))
                }
            } else {
                plan0(none)
            },
            MouseEventAction::FlycompSelectDontAsk => if ctx.content_mode == ContentModeKind::TabCompletionAskForFlycomp {
                if up_left {
                    plan2(now, MouseEffect::SetFlycompSelection(FlycompPromptSelection::DontAsk), MouseEffect::BlacklistFlycompCommand)
                } else {
                    plan1(none, MouseEffect::SetFlycompSelection(FlycompPromptSelection::DontAsk))
                }
            } else {
                plan0(none)
            },
            MouseEventAction::DisableMouseCapture => plan1(none, MouseEffect::DisableMouseCapture),
            MouseEventAction::RightClickMenuOpen => {
                let row: u16 = match ctx.mouse_content_row {
                    Some(r) => {
                        let clamped: isize = if r < 0 { 0 } else { r };
                        clamped as u16
                    },
                    None => mouse.row,
                };
                plan3(
                    none,
                    MouseEffect::OpenRightClickMenu(Coord { row, col: mouse.column }),
                    MouseEffect::RecordRightClickDown(Coord { row: mouse.row, col: mouse.column }),
                    MouseEffect::SetCopyTarget(copy_source(ctx.semantic_tag, ctx.content_mode)),
                )
            },
            MouseEventAction::RightClickMenuDismiss => if ctx.right_click_popup_active {
                plan2(now, MouseEffect::CloseRightClickMenu, MouseEffect::ClearCopyTarget)
            } else {
                plan0(none)
            },
            MouseEventAction::SetPointer(shape) => {
                let mut output = MouseActionOutput::dont_update();
                output.desired_pointer_shape = Some(*shape);
                plan0(output)
            },
        }
    }
}

// ---------------------------------------------------------------------------
// Handling one mouse event
// ---------------------------------------------------------------------------

/// The output of running `acts` in order, folded into `acc`, and their
/// effects.
pub open spec fn fold_plans(acts: Seq<MouseEventAction>, ctx: ActionContext, mouse: MouseEvent, acc: MouseActionOutput) -> PlanView
    decreases acts.len(),
{
    if acts.len() == 0 {
        (acc, seq![])
    } else {
        let p = spec_plan(acts[0], ctx, mouse);
        let rest = fold_plans(acts.drop_first(), ctx, mouse, spec_merge(acc, p.0));
        (rest.0, p.1 + rest.1)
    }
}

/// Every action of `acts` has its arithmetic within range in `ctx`.
pub open spec fn all_in_range(acts: Seq<MouseEventAction>, ctx: ActionContext) -> bool {
    forall|i: int| 0 <= i < acts.len() ==> plan_in_range(#[trigger] acts[i], ctx)
}

/// The result of handling a mouse event with a list of bindings.
pub struct MouseDispatch {
    /// The index of the binding that answered, if any.
    pub matched: Option<usize>,
    /// The combined output of its actions.
    pub output: MouseActionOutput,
    /// Their effects, in order.
    pub effects: Vec<MouseEffect>,
}

/// The combined output that a dispatch starts from: nothing to update, no
/// hurry.
pub open spec fn dispatch_start() -> MouseActionOutput {
    MouseActionOutput { possible_buffer_change: false, desired_pointer_shape: None, redraw_urgency: RedrawUrgency::Soon }
}

proof fn lemma_fold_plans_step(acts: Seq<MouseEventAction>, i: int, ctx: ActionContext, mouse: MouseEvent, acc: MouseActionOutput)
    requires
        0 <= i < acts.len(),
    ensures
        fold_plans(acts.skip(i), ctx, mouse, acc) == ({
            let p = spec_plan(acts[i], ctx, mouse);
            let rest = fold_plans(acts.skip(i + 1), ctx, mouse, spec_merge(acc, p.0));
            (rest.0, p.1 + rest.1)
        }),
{
    assert(acts.skip(i).drop_first() =~= acts.skip(i + 1));
}

/// Answers a mouse event: finds the first binding of `bindings` whose context
/// holds in `s`, runs its actions in order and combines what they report.
pub fn dispatch_mouse_event(bindings: &Vec<MouseBinding>, s: &MouseSnapshot, ctx: &ActionContext, mouse: MouseEvent) -> (r: MouseDispatch)
    requires
        forall|i: int| 0 <= i < bindings@.len() ==> all_in_range(#[trigger] bindings@[i].actions@, *ctx),
    ensures
        r.matched matches Some(i) ==> i < bindings@.len() && first_match(bindings_view(bindings@), *s) == Some(i as int)
            && (r.output, r.effects@) == fold_plans(bindings@[i as int].actions@, *ctx, mouse, dispatch_start()),
        r.matched is None ==> first_match(bindings_view(bindings@), *s) is None && r.output == dispatch_start()
            && r.effects@ == Seq::<MouseEffect>::empty(),
{
    let mut output = MouseActionOutput::dont_update();
    let mut effects: Vec<MouseEffect> = Vec::new();
    match first_matching_binding(bindings, s) {
        None => MouseDispatch { matched: None, output, effects },
        Some(i) => {
            let acts = &bindings[i].actions;
            assert(all_in_range(acts@, *ctx));
            let mut k: usize = 0;
            assert(acts@.skip(0) =~= acts@);
            while k < acts.len()
                invariant
                    k <= acts@.len(),
                    all_in_range(acts@, *ctx),
                    fold_plans(acts@, *ctx, mouse, dispatch_start()) == ({
                        let rest = fold_plans(acts@.skip(k as int), *ctx, mouse, output);
                        (rest.0, effects@ + rest.1)
                    }),
                decreases acts.len() - k,
            {
                proof {
                    lemma_fold_plans_step(acts@, k as int, *ctx, mouse, output);
                }
                assert(plan_in_range(acts@[k as int], *ctx));
                let plan = acts[k].run(ctx, mouse);
                output.merge(plan.output);
                let mut more = plan.effects;
                let ghost before = effects@;
                effects.append(&mut more);
                assert(effects@ == before + plan.effects@);
                assert(forall|a: Seq<MouseEffect>, b: Seq<MouseEffect>, c: Seq<MouseEffect>| (a + b) + c =~= a + (b + c));
                k += 1;
            }
            assert(acts@.skip(k as int) =~= Seq::<MouseEventAction>::empty());
            assert(effects@ + Seq::<MouseEffect>::empty() =~= effects@);
            MouseDispatch { matched: Some(i), output, effects }
        },
    }
}

/// What the left and right buttons are doing, as mouse handling tracks it.
#[derive(Debug, Clone, Copy, PartialEq, Eq, Structural)]
pub struct ButtonTracking {
    pub left_down: bool,
    pub left_dragging: bool,
    /// The tag under the mouse when the left button went down.
    pub drag_start_tag: Option<Tag>,
    /// Where the right button went down, until it comes up.
    pub right_click_down_pos: Option<Coord>,
}

/// A click or a scroll to count towards double clicks or recent scrolling.
#[derive(Debug, Clone, Copy, PartialEq, Eq, Structural)]
pub enum ClickRecord {
    /// The left button went down on the buffer at this byte position.
    LeftClickAt(usize),
    /// The left button went down elsewhere.
    LeftClickElsewhere,
    Scroll,
    Nothing,
}

/// The button state after an event of kind `kind` over `clicked`, and the
/// click or scroll it records.
pub open spec fn spec_track(b: ButtonTracking, kind: MouseEventKind, clicked: Option<Tag>) -> (ButtonTracking, ClickRecord) {
    match kind {
        MouseEventKind::Down(MouseButton::Left) => (
            ButtonTracking { left_down: true, left_dragging: false, drag_start_tag: clicked, ..b },
            match clicked {
                Some(Tag::Command(p)) => ClickRecord::LeftClickAt(p),
                _ => ClickRecord::LeftClickElsewhere,
            },
        ),
        MouseEventKind::Up(MouseButton::Left) => (
            ButtonTracking { left_down: false, left_dragging: false, drag_start_tag: None, ..b },
            ClickRecord::Nothing,
        ),
        MouseEventKind::Drag(MouseButton::Left) => (ButtonTracking { left_dragging: true, ..b }, ClickRecord::Nothing),
        MouseEventKind::Up(MouseButton::Right) => (ButtonTracking { right_click_down_pos: None, ..b }, ClickRecord::Nothing),
        MouseEventKind::ScrollUp | MouseEventKind::ScrollDown | MouseEventKind::ScrollLeft
        | MouseEventKind::ScrollRight => (b, ClickRecord::Scroll),
        _ => (b, ClickRecord::Nothing),
    }
}

impl ButtonTracking {
    /// Updates the button state for an event of kind `kind` over `clicked`,
    /// and returns the click or scroll to record.
    pub fn track(&mut self, kind: MouseEventKind, clicked: Option<Tag>) -> (r: ClickRecord)
        ensures
            (*final(self), r) == spec_track(*old(self), kind, clicked),
    {
        match kind {
            MouseEventKind::Down(MouseButton::Left) => {
                self.left_down = true;
                self.left_dragging = false;
                self.drag_start_tag = clicked;
                match clicked {
                    Some(Tag::Command(p)) => ClickRecord::LeftClickAt(p),
                    _ => ClickRecord::LeftClickElsewhere,
                }
            },
            MouseEventKind::Up(MouseButton::Left) => {
                self.left_down = false;
                self.left_dragging = false;
                self.drag_start_tag = None;
                ClickRecord::Nothing
            },
            MouseEventKind::Drag(MouseButton::Left) => {
                self.left_dragging = true;
                ClickRecord::Nothing
            },
            MouseEventKind::Up(MouseButton::Right) => {
                self.right_click_down_pos = None;
                ClickRecord::Nothing
            },
            MouseEventKind::ScrollUp | MouseEventKind::ScrollDown | MouseEventKind::ScrollLeft
            | MouseEventKind::ScrollRight => ClickRecord::Scroll,
            _ => ClickRecord::Nothing,
        }
    }
}

/// Button tracking over a press, drags and a release of the left button:
/// the press over `clicked` records a click in the buffer at its byte
/// position (or elsewhere) and remembers `clicked` as where the drag
/// starts; dragging keeps that start and marks the drag; the release
/// forgets both. Scrolling records a scroll and leaves the buttons as they
/// are; releasing the right button forgets where it went down.
pub proof fn law_button_tracking(b: ButtonTracking, clicked: Option<Tag>, over: Option<Tag>, p: usize)
    ensures
        ({
            let (pressed, rec) = spec_track(b, MouseEventKind::Down(MouseButton::Left), clicked);
            let (dragged, rec2) = spec_track(pressed, MouseEventKind::Drag(MouseButton::Left), over);
            let (released, rec3) = spec_track(dragged, MouseEventKind::Up(MouseButton::Left), over);
            &&& pressed.left_down && !pressed.left_dragging && pressed.drag_start_tag == clicked
            &&& clicked == Some(Tag::Command(p)) ==> rec == ClickRecord::LeftClickAt(p)
            &&& !(clicked matches Some(Tag::Command(_))) ==> rec == ClickRecord::LeftClickElsewhere
            &&& dragged.left_down && dragged.left_dragging && dragged.drag_start_tag == clicked && rec2
                == ClickRecord::Nothing
            &&& !released.left_down && !released.left_dragging && released.drag_start_tag is None && rec3
                == ClickRecord::Nothing
            &&& released.right_click_down_pos == b.right_click_down_pos
        }),
        spec_track(b, MouseEventKind::ScrollUp, over) == (b, ClickRecord::Scroll),
        spec_track(b, MouseEventKind::ScrollDown, over) == (b, ClickRecord::Scroll),
        spec_track(b, MouseEventKind::Moved, over) == (b, ClickRecord::Nothing),
        spec_track(b, MouseEventKind::Up(MouseButton::Right), over).0 == (ButtonTracking {
            right_click_down_pos: None,
            ..b
        }),
{
}

/// The tag that a mouse event is judged over. While the left button drags a
/// selection that began in the buffer, the mouse below the buffer stands for
/// its end, and the mouse above it (or on its first row, off any cell) for
/// its start.
pub open spec fn spec_resolve_semantic_tag(
    semantic: Option<Tag>,
    drag_start: Option<Tag>,
    kind: MouseEventKind,
    content_row: Option<isize>,
    content_rows: usize,
    buffer_len: usize,
) -> Option<Tag> {
    if (drag_start matches Some(Tag::Command(_))) && kind is Drag {
        match content_row {
            Some(row) => if row >= content_rows {
                Some(Tag::Command(buffer_len))
            } else if row < 0 || (row == 0 && semantic is None) {
                Some(Tag::Command(0))
            } else {
                semantic
            },
            None => semantic,
        }
    } else {
        semantic
    }
}

/// While a selection that began in the buffer is dragged, the mouse past
/// the buffer's last content row stands for the end of the buffer, and the
/// mouse above its first row for its start; otherwise the event is judged
/// over the cell under the mouse.
pub proof fn law_drag_past_buffer_edges(
    semantic: Option<Tag>,
    start: usize,
    kind: MouseEventKind,
    row: isize,
    content_rows: usize,
    buffer_len: usize,
)
    ensures
        kind == MouseEventKind::Drag(MouseButton::Left) && row >= content_rows ==> spec_resolve_semantic_tag(
            semantic,
            Some(Tag::Command(start)),
            kind,
            Some(row),
            content_rows,
            buffer_len,
        ) == Some(Tag::Command(buffer_len)),
        kind == MouseEventKind::Drag(MouseButton::Left) && row < 0 && content_rows > 0 ==> spec_resolve_semantic_tag(
            semantic,
            Some(Tag::Command(start)),
            kind,
            Some(row),
            content_rows,
            buffer_len,
        ) == Some(Tag::Command(0)),
        !(kind is Drag) ==> spec_resolve_semantic_tag(semantic, Some(Tag::Command(start)), kind, Some(row), content_rows, buffer_len)
            == semantic,
        forall|d: Option<Tag>| !(d matches Some(Tag::Command(_))) ==> #[trigger] spec_resolve_semantic_tag(
            semantic,
            d,
            kind,
            Some(row),
            content_rows,
            buffer_len,
        ) == semantic,
{
}

/// The tag that a mouse event is judged over (see `spec_resolve_semantic_tag`).
pub fn resolve_semantic_tag(
    semantic: Option<Tag>,
    drag_start: Option<Tag>,
    kind: MouseEventKind,
    content_row: Option<isize>,
    content_rows: usize,
    buffer_len: usize,
) -> (r: Option<Tag>)
    requires
        content_rows <= isize::MAX,
    ensures
        r == spec_resolve_semantic_tag(semantic, drag_start, kind, content_row, content_rows, buffer_len),
{
    let dragging_command = matches!(drag_start, Some(Tag::Command(_))) && matches!(kind, MouseEventKind::Drag(_));
    if dragging_command {
        if let Some(row) = content_row {
            if row >= content_rows as isize {
                return Some(Tag::Command(buffer_len));
            } else if row < 0 || (row == 0 && semantic.is_none()) {
                return Some(Tag::Command(0));
            }
        }
    }
    semantic
}

/// Whether the screen is redrawn after a mouse event: only when a binding
/// answered it and its combined output asks for an immediate redraw. An
/// output that can wait is not redrawn for: the event's time is recorded
/// before the wait is measured, so no time has passed.
pub fn mouse_redraw(matched_any: bool, urgency: RedrawUrgency) -> (r: bool)
    ensures
        r == (matched_any && urgency == RedrawUrgency::Now),
{
    matched_any && urgency == RedrawUrgency::Now
}

/// What mouse handling keeps between events.
#[derive(Debug, Clone, Copy, PartialEq, Eq, Structural)]
pub struct MouseHandler {
    pub tracking: ButtonTracking,
    /// The last mouse event.
    pub last_mouse: Option<MouseEvent>,
    /// Where the mouse last was (terminal row and column).
    pub last_mouse_pos: Option<Coord>,
    /// The tag under the mouse, resolved to what it stands for.
    pub over_semantic: Option<Tag>,
    /// The tag of the cell under the mouse itself.
    pub over_direct: Option<Tag>,
}

/// What mouse handling reads of the rest of the editor for one event.
/// `click_count`, `mouse_scrolling` and `last_click_buffer_pos` are as they
/// stand once the event's click or scroll is recorded.
#[derive(Debug, Clone, Copy, PartialEq, Eq, Structural)]
pub struct MouseEnv {
    pub content_mode: ContentModeKind,
    /// The tags of the drawn cell under the mouse, if any: the cell's own
    /// and what it stands for.
    pub cell_direct: Option<Tag>,
    pub cell_semantic: Option<Tag>,
    /// The content row under the mouse, once drawn.
    pub content_row: Option<isize>,
    /// How many content rows are drawn.
    pub content_rows: usize,
    /// The length of the command buffer in bytes.
    pub buffer_len: usize,
    pub click_count: ClickCount,
    pub mouse_scrolling: bool,
    pub right_click_popup_active: bool,
    pub smart_mode: bool,
    pub viewport_start: Option<u16>,
    pub select_with_mouse: bool,
    pub last_click_buffer_pos: Option<usize>,
    pub scrollbar_top_row: Option<u16>,
    pub ai_result_has_command: bool,
    pub clipboard_has_text: bool,
    pub clipboard_write_ok: bool,
}

/// What handling one mouse event did.
pub struct MouseOutcome {
    /// The click or scroll to record.
    pub record: ClickRecord,
    /// The binding that answered, its combined output and its effects.
    pub dispatch: MouseDispatch,
    /// A binding answered and ran at least one action.
    pub matched_any: bool,
    /// The buffer may have changed: the editor re-examines it.
    pub buffer_may_change: bool,
    /// The screen is redrawn.
    pub redraw: bool,
}

/// The tag the event is judged over.
pub open spec fn event_semantic_tag(h: MouseHandler, env: MouseEnv, mouse: MouseEvent) -> Option<Tag> {
    spec_resolve_semantic_tag(
        env.cell_semantic,
        h.tracking.drag_start_tag,
        mouse.kind,
        env.content_row,
        env.content_rows,
        env.buffer_len,
    )
}

/// The button state after the event, and the click or scroll it records.
pub open spec fn event_tracking(h: MouseHandler, env: MouseEnv, mouse: MouseEvent) -> (ButtonTracking, ClickRecord) {
    spec_track(h.tracking, mouse.kind, event_semantic_tag(h, env, mouse))
}

/// The state the bindings are evaluated against once the event is recorded.
pub open spec fn event_snapshot(h: MouseHandler, env: MouseEnv, mouse: MouseEvent) -> MouseSnapshot {
    let b = event_tracking(h, env, mouse).0;
    MouseSnapshot {
        content_mode: env.content_mode,
        last_mouse: Some(mouse),
        semantic_tag: event_semantic_tag(h, env, mouse),
        direct_tag: env.cell_direct,
        drag_start_tag: b.drag_start_tag,
        left_button_down: b.left_down,
        click_count: env.click_count,
        mouse_scrolling: env.mouse_scrolling,
        right_click_down_pos: b.right_click_down_pos,
        right_click_popup_active: env.right_click_popup_active,
        smart_mode: env.smart_mode,
        viewport_start: env.viewport_start,
    }
}

/// What the actions see once the event is recorded.
pub open spec fn event_context(h: MouseHandler, env: MouseEnv, mouse: MouseEvent) -> ActionContext {
    ActionContext {
        content_mode: env.content_mode,
        semantic_tag: event_semantic_tag(h, env, mouse),
        direct_tag: env.cell_direct,
        drag_start_tag: event_tracking(h, env, mouse).0.drag_start_tag,
        select_with_mouse: env.select_with_mouse,
        last_click_buffer_pos: env.last_click_buffer_pos,
        right_click_popup_active: env.right_click_popup_active,
        scrollbar_top_row: env.scrollbar_top_row,
        mouse_content_row: env.content_row,
        ai_result_has_command: env.ai_result_has_command,
        clipboard_has_text: env.clipboard_has_text,
        clipboard_write_ok: env.clipboard_write_ok,
    }
}

impl MouseHandler {
    /// Handles one mouse event: records it and the mouse position, resolves
    /// the tag it is judged over, updates the buttons, runs the first binding
    /// whose context holds, and decides whether the buffer is re-examined and
    /// the screen redrawn.
    pub fn on_mouse(&mut self, bindings: &Vec<MouseBinding>, env: &MouseEnv, mouse: MouseEvent) -> (r: MouseOutcome)
        requires
            env.content_rows <= isize::MAX,
            forall|i: int|
                0 <= i < bindings@.len() ==> all_in_range(
                    #[trigger] bindings@[i].actions@,
                    event_context(*old(self), *env, mouse),
                ),
        ensures
            final(self).last_mouse == Some(mouse),
            final(self).last_mouse_pos == Some(Coord { row: mouse.row, col: mouse.column }),
            final(self).over_semantic == event_semantic_tag(*old(self), *env, mouse),
            final(self).over_direct == env.cell_direct,
            (final(self).tracking, r.record) == event_tracking(*old(self), *env, mouse),
            r.dispatch.matched matches Some(i) ==> i < bindings@.len() && first_match(
                bindings_view(bindings@),
                event_snapshot(*old(self), *env, mouse),
            ) == Some(i as int) && (r.dispatch.output, r.dispatch.effects@) == fold_plans(
                bindings@[i as int].actions@,
                event_context(*old(self), *env, mouse),
                mouse,
                dispatch_start(),
            ),
            r.dispatch.matched is None ==> first_match(bindings_view(bindings@), event_snapshot(*old(self), *env, mouse))
                is None && r.dispatch.output == dispatch_start() && r.dispatch.effects@ == Seq::<MouseEffect>::empty(),
            r.matched_any == (r.dispatch.matched matches Some(i) && bindings@[i as int].actions@.len() > 0),
            r.buffer_may_change == (r.matched_any && r.dispatch.output.possible_buffer_change),
            r.redraw == (r.matched_any && r.dispatch.output.redraw_urgency == RedrawUrgency::Now),
    {
        let ghost h0 = *self;
        self.last_mouse = Some(mouse);
        self.last_mouse_pos = Some(Coord { row: mouse.row, col: mouse.column });
        let semantic = resolve_semantic_tag(
            env.cell_semantic,
            self.tracking.drag_start_tag,
            mouse.kind,
            env.content_row,
            env.content_rows,
            env.buffer_len,
        );
        let record = self.tracking.track(mouse.kind, semantic);
        self.over_semantic = semantic;
        self.over_direct = env.cell_direct;
        let s = MouseSnapshot {
            content_mode: env.content_mode,
            last_mouse: Some(mouse),
            semantic_tag: semantic,
            direct_tag: env.cell_direct,
            drag_start_tag: self.tracking.drag_start_tag,
            left_button_down: self.tracking.left_down,
            click_count: env.click_count,
            mouse_scrolling: env.mouse_scrolling,
            right_click_down_pos: self.tracking.right_click_down_pos,
            right_click_popup_active: env.right_click_popup_active,
            smart_mode: env.smart_mode,
            viewport_start: env.viewport_start,
        };
        let ctx = ActionContext {
            content_mode: env.content_mode,
            semantic_tag: semantic,
            direct_tag: env.cell_direct,
            drag_start_tag: self.tracking.drag_start_tag,
            select_with_mouse: env.select_with_mouse,
            last_click_buffer_pos: env.last_click_buffer_pos,
            right_click_popup_active: env.right_click_popup_active,
            scrollbar_top_row: env.scrollbar_top_row,
            mouse_content_row: env.content_row,
            ai_result_has_command: env.ai_result_has_command,
            clipboard_has_text: env.clipboard_has_text,
            clipboard_write_ok: env.clipboard_write_ok,
        };
        assert(s == event_snapshot(h0, *env, mouse));
        assert(ctx == event_context(h0, *env, mouse));
        let dispatch = dispatch_mouse_event(bindings, &s, &ctx, mouse);
        let matched_any = match dispatch.matched {
            Some(i) => bindings[i].actions.len() > 0,
            None => false,
        };
        let buffer_may_change = matched_any && dispatch.output.possible_buffer_change;
        let redraw = mouse_redraw(matched_any, dispatch.output.redraw_urgency);
        MouseOutcome { record, dispatch, matched_any, buffer_may_change, redraw }
    }
}

/// A pointer shape to set, and whether the event that caused it was a click.
#[derive(Debug, Clone, Copy, PartialEq, Eq, Structural)]
pub struct PointerUpdate {
    pub shape: PointerShape,
    pub from_click: bool,
}

/// The pointer shape after a redraw: the default one while the mouse is not
/// captured; none to set while the mouse position is unknown; else the one
/// that `bindings` choose, if any.
pub open spec fn spec_pointer_update(
    mouse_disabled: bool,
    position_known: bool,
    bs: Seq<BindingView>,
    s: MouseSnapshot,
    last_event_is_click: bool,
) -> Option<PointerUpdate> {
    if mouse_disabled {
        Some(PointerUpdate { shape: PointerShape::Default, from_click: false })
    } else if !position_known {
        None
    } else {
        match pointer_choice_from(bs, s, 0) {
            Some(shape) => Some(PointerUpdate { shape, from_click: last_event_is_click }),
            None => None,
        }
    }
}

/// Re-evaluates the pointer shape after a redraw.
pub fn reevaluate_pointer_shape(
    mouse_disabled: bool,
    position_known: bool,
    bindings: &Vec<MouseBinding>,
    s: &MouseSnapshot,
    last_event_is_click: bool,
) -> (r: Option<PointerUpdate>)
    ensures
        r == spec_pointer_update(mouse_disabled, position_known, bindings_view(bindings@), *s, last_event_is_click),
{
    if mouse_disabled {
        return Some(PointerUpdate { shape: PointerShape::Default, from_click: false });
    }
    if !position_known {
        return None;
    }
    match choose_pointer_shape(bindings, s) {
        Some(shape) => Some(PointerUpdate { shape, from_click: last_event_is_click }),
        None => None,
    }
}

/// How an interactive cell is drawn.
#[derive(Debug, Clone, Copy, PartialEq, Eq, Structural)]
pub enum ButtonState {
    Normal,
    Hovered,
    Depressed,
}

/// The look of a cell tagged `tag`: plain unless the mouse is over it, then
/// pressed while the left button is down and highlighted otherwise.
pub open spec fn spec_button_state_for(semantic: Option<Tag>, tag: Tag, left_down: bool) -> ButtonState {
    if semantic != Some(tag) {
        ButtonState::Normal
    } else if left_down {
        ButtonState::Depressed
    } else {
        ButtonState::Hovered
    }
}

/// Only the cell under the mouse changes its look: it is pressed while the
/// left button is down and highlighted otherwise; every other cell is
/// plain.
pub proof fn law_button_look(semantic: Option<Tag>, tag: Tag, left_down: bool)
    ensures
        semantic == Some(tag) && left_down ==> spec_button_state_for(semantic, tag, left_down) == ButtonState::Depressed,
        semantic == Some(tag) && !left_down ==> spec_button_state_for(semantic, tag, left_down) == ButtonState::Hovered,
        semantic != Some(tag) ==> spec_button_state_for(semantic, tag, left_down) == ButtonState::Normal,
{
}

/// While the mouse is not captured the pointer is reset to the default
/// shape; while its position is unknown no shape is set.
pub proof fn law_pointer_update_without_mouse(bs: Seq<BindingView>, s: MouseSnapshot, click: bool, known: bool)
    ensures
        spec_pointer_update(true, known, bs, s, click) == Some(PointerUpdate { shape: PointerShape::Default, from_click: false }),
        spec_pointer_update(false, false, bs, s, click) is None,
{
}

/// The look of a cell tagged `tag`, given the tag under the mouse.
pub fn button_state_for(semantic: Option<Tag>, tag: Tag, left_down: bool) -> (r: ButtonState)
    ensures
        r == spec_button_state_for(semantic, tag, left_down),
{
    if semantic != Some(tag) {
        ButtonState::Normal
    } else if left_down {
        ButtonState::Depressed
    } else {
        ButtonState::Hovered
    }
}

} // verus!
