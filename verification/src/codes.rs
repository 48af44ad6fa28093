use vstd::prelude::*;

verus! {

/// An operation that an assistive-technology client can request on a node.
#[derive(Clone, Copy, Debug, PartialEq, Eq, Structural)]
pub enum Action {
    Click,
    Focus,
    Blur,
    Collapse,
    Expand,
    CustomAction,
    Decrement,
    Increment,
    HideTooltip,
    ShowTooltip,
    ReplaceSelectedText,
    ScrollDown,
    ScrollLeft,
    ScrollRight,
    ScrollUp,
    ScrollIntoView,
    ScrollToPoint,
    SetScrollOffset,
    SetTextSelection,
    SetSequentialFocusNavigationStartingPoint,
    SetValue,
    ShowContextMenu,
}

impl Action {
    /// The variant that the boundary code table assigns to `code`,
    /// or `None` where `code` lies outside the table.
    pub open spec fn spec_from_code(code: u8) -> Option<Action> {
        match code {
            0 => Some(Action::Click),
            1 => Some(Action::Focus),
            2 => Some(Action::Blur),
            3 => Some(Action::Collapse),
            4 => Some(Action::Expand),
            5 => Some(Action::CustomAction),
            6 => Some(Action::Decrement),
            7 => Some(Action::Increment),
            8 => Some(Action::HideTooltip),
            9 => Some(Action::ShowTooltip),
            10 => Some(Action::ReplaceSelectedText),
            11 => Some(Action::ScrollDown),
            12 => Some(Action::ScrollLeft),
            13 => Some(Action::ScrollRight),
            14 => Some(Action::ScrollUp),
            15 => Some(Action::ScrollIntoView),
            16 => Some(Action::ScrollToPoint),
            17 => Some(Action::SetScrollOffset),
            18 => Some(Action::SetTextSelection),
            19 => Some(Action::SetSequentialFocusNavigationStartingPoint),
            20 => Some(Action::SetValue),
            21 => Some(Action::ShowContextMenu),
            _ => None,
        }
    }

    /// The code that the boundary code table assigns to `self`.
    pub open spec fn spec_code(self) -> u8 {
        match self {
            Action::Click => 0,
            Action::Focus => 1,
            Action::Blur => 2,
            Action::Collapse => 3,
            Action::Expand => 4,
            Action::CustomAction => 5,
            Action::Decrement => 6,
            Action::Increment => 7,
            Action::HideTooltip => 8,
            Action::ShowTooltip => 9,
            Action::ReplaceSelectedText => 10,
            Action::ScrollDown => 11,
            Action::ScrollLeft => 12,
            Action::ScrollRight => 13,
            Action::ScrollUp => 14,
            Action::ScrollIntoView => 15,
            Action::ScrollToPoint => 16,
            Action::SetScrollOffset => 17,
            Action::SetTextSelection => 18,
            Action::SetSequentialFocusNavigationStartingPoint => 19,
            Action::SetValue => 20,
            Action::ShowContextMenu => 21,
        }
    }

    /// Decodes one integer that crossed the boundary. The mapping is
    /// total over the table and refuses every other code.
    pub fn from_code(code: u8) -> (r: Option<Action>)
        ensures
            r == Action::spec_from_code(code),
    {
        match code {
            0 => Some(Action::Click),
            1 => Some(Action::Focus),
            2 => Some(Action::Blur),
            3 => Some(Action::Collapse),
            4 => Some(Action::Expand),
            5 => Some(Action::CustomAction),
            6 => Some(Action::Decrement),
            7 => Some(Action::Increment),
            8 => Some(Action::HideTooltip),
            9 => Some(Action::ShowTooltip),
            10 => Some(Action::ReplaceSelectedText),
            11 => Some(Action::ScrollDown),
            12 => Some(Action::ScrollLeft),
            13 => Some(Action::ScrollRight),
            14 => Some(Action::ScrollUp),
            15 => Some(Action::ScrollIntoView),
            16 => Some(Action::ScrollToPoint),
            17 => Some(Action::SetScrollOffset),
            18 => Some(Action::SetTextSelection),
            19 => Some(Action::SetSequentialFocusNavigationStartingPoint),
            20 => Some(Action::SetValue),
            21 => Some(Action::ShowContextMenu),
            _ => None,
        }
    }

    /// Encodes `self` for the boundary, inverting `from_code`.
    pub fn code(self) -> (r: u8)
        ensures
            r == self.spec_code(),
    {
        match self {
            Action::Click => 0,
            Action::Focus => 1,
            Action::Blur => 2,
            Action::Collapse => 3,
            Action::Expand => 4,
            Action::CustomAction => 5,
            Action::Decrement => 6,
            Action::Increment => 7,
            Action::HideTooltip => 8,
            Action::ShowTooltip => 9,
            Action::ReplaceSelectedText => 10,
            Action::ScrollDown => 11,
            Action::ScrollLeft => 12,
            Action::ScrollRight => 13,
            Action::ScrollUp => 14,
            Action::ScrollIntoView => 15,
            Action::ScrollToPoint => 16,
            Action::SetScrollOffset => 17,
            Action::SetTextSelection => 18,
            Action::SetSequentialFocusNavigationStartingPoint => 19,
            Action::SetValue => 20,
            Action::ShowContextMenu => 21,
        }
    }
}

/// The state of a checkable node.
#[derive(Clone, Copy, Debug, PartialEq, Eq, Structural)]
pub enum Toggled {
    False,
    True,
    Mixed,
}

impl Toggled {
    /// The variant that the boundary code table assigns to `code`,
    /// or `None` where `code` lies outside the table.
    pub open spec fn spec_from_code(code: u8) -> Option<Toggled> {
        match code {
            0 => Some(Toggled::False),
            1 => Some(Toggled::True),
            2 => Some(Toggled::Mixed),
            _ => None,
        }
    }

    /// The code that the boundary code table assigns to `self`.
    pub open spec fn spec_code(self) -> u8 {
        match self {
            Toggled::False => 0,
            Toggled::True => 1,
            Toggled::Mixed => 2,
        }
    }

    /// Decodes one integer that crossed the boundary. The mapping is
    /// total over the table and refuses every other code.
    pub fn from_code(code: u8) -> (r: Option<Toggled>)
        ensures
            r == Toggled::spec_from_code(code),
    {
        match code {
            0 => Some(Toggled::False),
            1 => Some(Toggled::True),
            2 => Some(Toggled::Mixed),
            _ => None,
        }
    }

    /// Encodes `self` for the boundary, inverting `from_code`.
    pub fn code(self) -> (r: u8)
        ensures
            r == self.spec_code(),
    {
        match self {
            Toggled::False => 0,
            Toggled::True => 1,
            Toggled::Mixed => 2,
        }
    }
}

/// The politeness level with which changes in a live region are announced.
#[derive(Clone, Copy, Debug, PartialEq, Eq, Structural)]
pub enum Live {
    Off,
    Polite,
    Assertive,
}

impl Live {
    /// The variant that the boundary code table assigns to `code`,
    /// or `None` where `code` lies outside the table.
    pub open spec fn spec_from_code(code: u8) -> Option<Live> {
        match code {
            0 => Some(Live::Off),
            1 => Some(Live::Polite),
            2 => Some(Live::Assertive),
            _ => None,
        }
    }

    /// The code that the boundary code table assigns to `self`.
    pub open spec fn spec_code(self) -> u8 {
        match self {
            Live::Off => 0,
            Live::Polite => 1,
            Live::Assertive => 2,
        }
    }

    /// Decodes one integer that crossed the boundary. The mapping is
    /// total over the table and refuses every other code.
    pub fn from_code(code: u8) -> (r: Option<Live>)
        ensures
            r == Live::spec_from_code(code),
    {
        match code {
            0 => Some(Live::Off),
            1 => Some(Live::Polite),
            2 => Some(Live::Assertive),
            _ => None,
        }
    }

    /// Encodes `self` for the boundary, inverting `from_code`.
    pub fn code(self) -> (r: u8)
        ensures
            r == self.spec_code(),
    {
        match self {
            Live::Off => 0,
            Live::Polite => 1,
            Live::Assertive => 2,
        }
    }
}

/// The direction in which a run of text is laid out.
#[derive(Clone, Copy, Debug, PartialEq, Eq, Structural)]
pub enum TextDirection {
    LeftToRight,
    RightToLeft,
    TopToBottom,
    BottomToTop,
}

impl TextDirection {
    /// The variant that the boundary code table assigns to `code`,
    /// or `None` where `code` lies outside the table.
    pub open spec fn spec_from_code(code: u8) -> Option<TextDirection> {
        match code {
            0 => Some(TextDirection::LeftToRight),
            1 => Some(TextDirection::RightToLeft),
            2 => Some(TextDirection::TopToBottom),
            3 => Some(TextDirection::BottomToTop),
            _ => None,
        }
    }

    /// The code that the boundary code table assigns to `self`.
    pub open spec fn spec_code(self) -> u8 {
        match self {
            TextDirection::LeftToRight => 0,
            TextDirection::RightToLeft => 1,
            TextDirection::TopToBottom => 2,
            TextDirection::BottomToTop => 3,
        }
    }

    /// Decodes one integer that crossed the boundary. The mapping is
    /// total over the table and refuses every other code.
    pub fn from_code(code: u8) -> (r: Option<TextDirection>)
        ensures
            r == TextDirection::spec_from_code(code),
    {
        match code {
            0 => Some(TextDirection::LeftToRight),
            1 => Some(TextDirection::RightToLeft),
            2 => Some(TextDirection::TopToBottom),
            3 => Some(TextDirection::BottomToTop),
            _ => None,
        }
    }

    /// Encodes `self` for the boundary, inverting `from_code`.
    pub fn code(self) -> (r: u8)
        ensures
            r == self.spec_code(),
    {
        match self {
            TextDirection::LeftToRight => 0,
            TextDirection::RightToLeft => 1,
            TextDirection::TopToBottom => 2,
            TextDirection::BottomToTop => 3,
        }
    }
}

} // verus!
