//! The point-and-click control scheme: its binding table and the assembly
//! of per-hand input state.
//!
//! The native layer registers actions and queries device poses; what the
//! scheme itself decides is plain data: which device input paths drive which
//! actions, and when a hand's input counts as present (both its pose actions
//! active). Poses flow through untouched, so the assembled types are generic
//! over the pose payload.

use vstd::prelude::*;

verus! {

/// The actions the point-and-click scheme registers.
#[derive(Clone, Copy, Debug, PartialEq, Eq, Structural)]
pub enum ControlAction {
    /// Palm orientation, one action with a subaction path per hand.
    Grip,
    /// Pointing direction, one action with a subaction path per hand.
    Point,
    /// Select click, one action with a subaction path per hand.
    Click,
    /// Menu click, either hand.
    MenuButton,
}

/// One suggested binding: which action a device input path drives.
#[derive(Clone, Copy, Debug)]
pub struct SuggestedBinding {
    pub action: ControlAction,
    pub path: &'static str,
}

/// One hand's assembled input: its two poses and its click state.
#[derive(Clone, Copy, Debug)]
pub struct PointAndClickHand<P> {
    pub grip: P,
    pub point: P,
    pub click: bool,
}

/// The scheme's assembled input: each hand when present, and the menu
/// button.
#[derive(Clone, Copy, Debug)]
pub struct PointAndClickInput<P> {
    pub lh: Option<PointAndClickHand<P>>,
    pub rh: Option<PointAndClickHand<P>>,
    pub menu_button: bool,
}

/// The raw readings the native layer gathers for one hand.
#[derive(Clone, Copy, Debug)]
pub struct HandReadings<P> {
    /// Whether the grip pose action is active on this hand.
    pub grip_active: bool,
    /// Whether the pointing pose action is active on this hand.
    pub point_active: bool,
    /// Located grip pose.
    pub grip: P,
    /// Located pointing pose.
    pub point: P,
    /// Current select-click state.
    pub click: bool,
}

/// A hand counts as present exactly when both its pose actions are active;
/// a present hand carries its readings through unchanged.
pub open spec fn hand_spec<P>(r: HandReadings<P>) -> Option<PointAndClickHand<P>> {
    if r.grip_active && r.point_active {
        Some(PointAndClickHand { grip: r.grip, point: r.point, click: r.click })
    } else {
        None
    }
}

/// Assembles one hand's input from its raw readings.
pub fn assemble_hand<P>(r: HandReadings<P>) -> (h: Option<PointAndClickHand<P>>)
    ensures
        h == hand_spec(r),
{
    if r.grip_active && r.point_active {
        Some(PointAndClickHand { grip: r.grip, point: r.point, click: r.click })
    } else {
        None
    }
}

/// Assembles the scheme's input: each hand by its own readings, and the
/// menu button pressed only when its action is active and reports a press.
pub fn assemble_input<P>(
    lh: HandReadings<P>,
    rh: HandReadings<P>,
    menu_active: bool,
    menu_state: bool,
) -> (inp: PointAndClickInput<P>)
    ensures
        inp.lh == hand_spec(lh),
        inp.rh == hand_spec(rh),
        inp.menu_button == (menu_active && menu_state),
{
    PointAndClickInput {
        lh: assemble_hand(lh),
        rh: assemble_hand(rh),
        menu_button: menu_active && menu_state,
    }
}

/// The point-and-click control scheme: a named action set whose bindings
/// against the baseline controller profile are a fixed table.
pub struct PointAndClickControls {
    action_set_name: &'static str,
    localized_name: &'static str,
}

impl PointAndClickControls {
    /// Name the action set was registered under.
    pub closed spec fn action_set_name_spec(&self) -> Seq<char> {
        self.action_set_name@
    }

    /// Localized, user-facing name of the action set.
    pub closed spec fn localized_name_spec(&self) -> Seq<char> {
        self.localized_name@
    }

    /// A scheme whose action set carries the given names.
    pub fn new(action_set_name: &'static str, localized_name: &'static str) -> (c: Self)
        ensures
            c.action_set_name_spec() == action_set_name@,
            c.localized_name_spec() == localized_name@,
    {
        PointAndClickControls { action_set_name, localized_name }
    }

    /// Name the action set was registered under.
    pub fn action_set_name(&self) -> (s: &'static str)
        ensures
            s@ == self.action_set_name_spec(),
    {
        self.action_set_name
    }

    /// Localized, user-facing name of the action set.
    pub fn localized_name(&self) -> (s: &'static str)
        ensures
            s@ == self.localized_name_spec(),
    {
        self.localized_name
    }

    /// The subaction path of the left hand.
    pub fn left_hand_path(&self) -> (s: &'static str)
        ensures
            s@ == "/user/hand/left"@,
    {
        "/user/hand/left"
    }

    /// The subaction path of the right hand.
    pub fn right_hand_path(&self) -> (s: &'static str)
        ensures
            s@ == "/user/hand/right"@,
    {
        "/user/hand/right"
    }

    /// The interaction profile the binding table targets.
    pub fn interaction_profile(&self) -> (s: &'static str)
        ensures
            s@ == "/interaction_profiles/khr/simple_controller"@,
    {
        "/interaction_profiles/khr/simple_controller"
    }

    /// The binding table: every action of the set bound on each hand, in
    /// registration order.
    pub fn suggested_bindings(&self) -> (v: Vec<SuggestedBinding>)
        ensures
            v@.len() == 8,
            v@[0].action is Grip && v@[0].path@ == "/user/hand/left/input/grip/pose"@,
            v@[1].action is Grip && v@[1].path@ == "/user/hand/right/input/grip/pose"@,
            v@[2].action is Point && v@[2].path@ == "/user/hand/left/input/aim/pose"@,
            v@[3].action is Point && v@[3].path@ == "/user/hand/right/input/aim/pose"@,
            v@[4].action is Click && v@[4].path@ == "/user/hand/left/input/select/click"@,
            v@[5].action is Click && v@[5].path@ == "/user/hand/right/input/select/click"@,
            v@[6].action is MenuButton && v@[6].path@ == "/user/hand/left/input/menu/click"@,
            v@[7].action is MenuButton && v@[7].path@ == "/user/hand/right/input/menu/click"@,
    {
        let mut v: Vec<SuggestedBinding> = Vec::new();
        v.push(
            SuggestedBinding {
                action: ControlAction::Grip,
                path: "/user/hand/left/input/grip/pose",
            },
        );
        v.push(
            SuggestedBinding {
                action: ControlAction::Grip,
                path: "/user/hand/right/input/grip/pose",
            },
        );
        v.push(
            SuggestedBinding {
                action: ControlAction::Point,
                path: "/user/hand/left/input/aim/pose",
            },
        );
        v.push(
            SuggestedBinding {
                action: ControlAction::Point,
                path: "/user/hand/right/input/aim/pose",
            },
        );
        v.push(
            SuggestedBinding {
                action: ControlAction::Click,
                path: "/user/hand/left/input/select/click",
            },
        );
        v.push(
            SuggestedBinding {
                action: ControlAction::Click,
                path: "/user/hand/right/input/select/click",
            },
        );
        v.push(
            SuggestedBinding {
                action: ControlAction::MenuButton,
                path: "/user/hand/left/input/menu/click",
            },
        );
        v.push(
            SuggestedBinding {
                action: ControlAction::MenuButton,
                path: "/user/hand/right/input/menu/click",
            },
        );
        v
    }
}

} // verus!
