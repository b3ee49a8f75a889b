//! Which scene is on: the menu, the scenes, and the steps between them.
use vstd::prelude::*;

verus! {

/// What the program shows: the menu, or one of the scenes.
#[derive(Clone, Copy, Debug, PartialEq, Eq, Hash, Structural)]
pub enum ProgramState {
    MainMenu,
    Circle,
    Gallery,
    Bubbles,
    SummerLeaves,
}

/// What the user interface shows on top of a scene.
#[derive(Clone, Copy, Debug, PartialEq, Eq, Structural)]
pub struct UIState {
    /// Whether the panel of a scene's parameters is open.
    pub params_panel: bool,
}

/// The keys that went down since the last frame.
#[derive(Clone, Copy, Debug, PartialEq, Eq, Structural)]
pub struct Keys {
    pub escape: bool,
    pub backquote: bool,
}

/// What was clicked in the menu since the last frame.
#[derive(Clone, Copy, Debug, PartialEq, Eq, Structural)]
pub enum Click {
    /// The button of a state.
    Scene(ProgramState),
    /// The button that ends the program.
    Quit,
}

impl Default for ProgramState {
    fn default() -> (state: ProgramState)
        ensures
            state == ProgramState::MainMenu,
    {
        ProgramState::MainMenu
    }
}

impl Default for UIState {
    fn default() -> (ui_state: UIState)
        ensures
            !ui_state.params_panel,
    {
        UIState { params_panel: false }
    }
}

impl ProgramState {
    /// Whether this state is a scene rather than the menu.
    pub open spec fn is_scene(self) -> bool {
        self != ProgramState::MainMenu
    }

    /// Whether the per-frame work of `scene` runs while this state is on:
    /// only a scene has such work, and only while it is the state.
    pub open spec fn runs(self, scene: ProgramState) -> bool {
        scene.is_scene() && self == scene
    }

    /// The state after the step at the start of a frame: a pending state
    /// takes over, no pending state leaves things as they are.
    pub open spec fn stepped(self, pending: Option<ProgramState>) -> ProgramState {
        match pending {
            Some(next) => next,
            None => self,
        }
    }

    /// The pending state after the menu saw `click` while `self` was on.
    pub open spec fn selected(self, pending: Option<ProgramState>, click: Option<Click>) -> Option<
        ProgramState,
    > {
        match click {
            Some(Click::Scene(scene)) if self == ProgramState::MainMenu && scene.is_scene() => Some(
                scene,
            ),
            _ => pending,
        }
    }

    /// The pending state after the keys `keys` went down while `self` was on.
    pub open spec fn cancelled(self, pending: Option<ProgramState>, keys: Keys) -> Option<
        ProgramState,
    > {
        if keys.escape && self.is_scene() {
            Some(ProgramState::MainMenu)
        } else {
            pending
        }
    }

    /// Tells whether the per-frame work of `scene` runs in this state.
    pub fn in_state(self, scene: ProgramState) -> (r: bool)
        ensures
            r == self.runs(scene),
    {
        scene != ProgramState::MainMenu && self == scene
    }

    /// The name of the state, as the menu shows it.
    pub fn name(self) -> (r: &'static str)
        ensures
            r@ == match self {
                ProgramState::MainMenu => "MainMenu"@,
                ProgramState::Circle => "Circle"@,
                ProgramState::Gallery => "Gallery"@,
                ProgramState::Bubbles => "Bubbles"@,
                ProgramState::SummerLeaves => "SummerLeaves"@,
            },
    {
        match self {
            ProgramState::MainMenu => "MainMenu",
            ProgramState::Circle => "Circle",
            ProgramState::Gallery => "Gallery",
            ProgramState::Bubbles => "Bubbles",
            ProgramState::SummerLeaves => "SummerLeaves",
        }
    }

    /// The states that the menu offers, in the order of its buttons: every
    /// scene, and not the menu itself.
    pub fn scenes() -> (list: Vec<ProgramState>)
        ensures
            list@ == seq![
                ProgramState::Circle,
                ProgramState::Gallery,
                ProgramState::Bubbles,
                ProgramState::SummerLeaves,
            ],
            forall|state: ProgramState| state.is_scene() <==> list@.contains(state),
    {
        let list = vec![
            ProgramState::Circle,
            ProgramState::Gallery,
            ProgramState::Bubbles,
            ProgramState::SummerLeaves,
        ];
        proof {
            assert(list@[0] == ProgramState::Circle);
            assert(list@[1] == ProgramState::Gallery);
            assert(list@[2] == ProgramState::Bubbles);
            assert(list@[3] == ProgramState::SummerLeaves);
        }
        list
    }

    /// The menu's part of a frame. While the menu is on, a click on a scene's
    /// button makes that scene the pending state, and a click on the quit
    /// button asks for the end of the program, which the result reports. In
    /// any other state the menu is not shown and nothing happens.
    pub fn selection_system(
        program_state: ProgramState,
        next_state: &mut Option<ProgramState>,
        click: Option<Click>,
    ) -> (quit: bool)
        ensures
            *final(next_state) == program_state.selected(*old(next_state), click),
            quit == (program_state == ProgramState::MainMenu && click == Some(Click::Quit)),
    {
        if program_state != ProgramState::MainMenu {
            return false;
        }
        match click {
            Some(Click::Scene(scene)) => {
                if scene != ProgramState::MainMenu {
                    *next_state = Some(scene);
                }
                false
            },
            Some(Click::Quit) => true,
            None => false,
        }
    }

    /// The keyboard's part of a frame. Escape leaves a scene for the menu
    /// and, in the menu, asks for the end of the program, which the result
    /// reports. Backquote opens or closes the panel of parameters, but only
    /// while a scene is on.
    pub fn shortcuts(
        program_state: ProgramState,
        next_program_state: &mut Option<ProgramState>,
        ui_state: &mut UIState,
        keys: Keys,
    ) -> (quit: bool)
        ensures
            *final(next_program_state) == program_state.cancelled(*old(next_program_state), keys),
            final(ui_state).params_panel == (old(ui_state).params_panel != (keys.backquote
                && program_state.is_scene())),
            quit == (keys.escape && program_state == ProgramState::MainMenu),
    {
        let mut quit = false;
        if keys.escape {
            if program_state == ProgramState::MainMenu {
                quit = true;
            } else {
                *next_program_state = Some(ProgramState::MainMenu);
            }
        }
        if keys.backquote && program_state != ProgramState::MainMenu {
            ui_state.params_panel = !ui_state.params_panel;
        }
        quit
    }

    /// The step at the start of a frame: the pending state, if there is one,
    /// becomes the state, and nothing is pending any more.
    pub fn transition(self, next_state: &mut Option<ProgramState>) -> (state: ProgramState)
        ensures
            state == self.stepped(*old(next_state)),
            *final(next_state) == None::<ProgramState>,
    {
        let state = match *next_state {
            Some(next) => next,
            None => self,
        };
        *next_state = None;
        state
    }
}

/// In every state at most one scene runs: in a scene's state exactly that
/// scene, in the menu none. After the step to a scene it is that scene that
/// runs.
pub proof fn lemma_one_scene_runs(
    before: ProgramState,
    scene: ProgramState,
    first: ProgramState,
    second: ProgramState,
)
    requires
        scene.is_scene(),
    ensures
        before.stepped(Some(scene)).runs(first) <==> first == scene,
        before.runs(first) && before.runs(second) ==> first == second,
        before.is_scene() ==> before.runs(before),
        !before.is_scene() ==> !before.runs(first),
{
}

} // verus!
