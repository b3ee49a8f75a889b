//! The whole program: the state, the scenes it owns, and the frame that
//! paints the one scene that is on.
use crate::bubble_art::{BubbleAngles, BubbleArt, BubbleSines};
use crate::circle::CircleArt;
use crate::common::{all_fractions, CachedRandom};
use crate::draw::{DrawCommand, Point, Rotation};
use crate::program::{Click, Keys, ProgramState, UIState};
use crate::rays::RayDraws;
use crate::summer_leaves::LeafArt;
use vstd::prelude::*;

verus! {

/// The state of the program and everything that its scenes are made of. The
/// scenes are made once, when the program starts; no step from state to
/// state touches them, so a scene that is entered again is the scene that
/// was left.
pub struct Artwork {
    /// What the program shows.
    pub state: ProgramState,
    /// What it is to show from the next frame on, if that is decided.
    pub next_state: Option<ProgramState>,
    /// What the user interface shows on top.
    pub ui_state: UIState,
    /// The random fractions that scenes read by index.
    pub rand: CachedRandom,
    pub circle: CircleArt,
    pub bubbles: BubbleArt,
    pub leaves: LeafArt,
}

/// The angles whose sines and cosines a frame needs from the host.
#[derive(Debug, PartialEq, Eq)]
pub enum Angles {
    /// The frame needs none.
    Nothing,
    /// The frame is one of the bubbles.
    Bubbles(BubbleAngles),
    /// The frame is one of the leaves: for each leaf the angle by which it
    /// is turned.
    Leaves(Vec<i64>),
}

/// What the host computed from an [`Angles`], entry for entry.
#[derive(Debug, PartialEq, Eq)]
pub enum Sines {
    /// The frame needed none.
    Nothing,
    Bubbles(BubbleSines),
    /// For each leaf the cosine and sine of its angle.
    Leaves(Vec<Rotation>),
}

impl Sines {
    /// The sines for the bubbles; none where these are not the sines of a
    /// frame of bubbles.
    pub open spec fn wobble(&self) -> Seq<i32> {
        match self {
            Sines::Bubbles(sines) => sines.wobble@,
            _ => Seq::empty(),
        }
    }

    /// The sines for the rays; none where these are not the sines of a
    /// frame of bubbles.
    pub open spec fn alpha(&self) -> Seq<i32> {
        match self {
            Sines::Bubbles(sines) => sines.alpha@,
            _ => Seq::empty(),
        }
    }

    /// Cosine and sine of the angle of the rays; those of no angle where
    /// these are not the sines of a frame of bubbles.
    pub open spec fn direction(&self) -> Rotation {
        match self {
            Sines::Bubbles(sines) => sines.direction,
            _ => Rotation::identity(),
        }
    }

    /// Cosines and sines for the leaves; none where these are not those of
    /// a frame of leaves.
    pub open spec fn directions(&self) -> Seq<Rotation> {
        match self {
            Sines::Leaves(directions) => directions@,
            _ => Seq::empty(),
        }
    }
}

impl Artwork {
    /// The shapes that the scene `scene` has at the time `seconds`, whether
    /// it is on or not. The menu has none, and neither has a scene that is
    /// empty.
    pub open spec fn spec_scene(
        &self,
        scene: ProgramState,
        seconds: u64,
        window: Point,
        sines: &Sines,
    ) -> Seq<DrawCommand> {
        match scene {
            ProgramState::Circle => seq![CircleArt::spec_circle()],
            ProgramState::Bubbles => self.bubbles.spec_draw(
                seconds,
                window,
                sines.wobble(),
                sines.alpha(),
                sines.direction(),
            ),
            ProgramState::SummerLeaves => self.leaves.spec_draw(sines.directions()),
            ProgramState::MainMenu | ProgramState::Gallery => Seq::empty(),
        }
    }

    /// The shapes of a frame at the time `seconds`: those of the scene that
    /// is on, and of no other.
    pub open spec fn spec_draw(&self, seconds: u64, window: Point, sines: &Sines) -> Seq<
        DrawCommand,
    > {
        self.spec_scene(self.state, seconds, window, sines)
    }

    /// The program after the first step of a frame: the pending state, if
    /// there is one, is the state, and nothing is pending. Every scene,
    /// parameter and random fraction is as it was.
    pub open spec fn spec_begin_frame(self) -> Artwork {
        Artwork { state: self.state.stepped(self.next_state), next_state: None, ..self }
    }

    /// The program after the input of a frame: what was clicked in the menu
    /// and then the keys have decided what is pending and whether the panel
    /// is open. The state itself, and every scene, is as it was.
    pub open spec fn spec_input(self, click: Option<Click>, keys: Keys) -> Artwork {
        Artwork {
            next_state: self.state.cancelled(self.state.selected(self.next_state, click), keys),
            ui_state: UIState {
                params_panel: self.ui_state.params_panel != (keys.backquote
                    && self.state.is_scene()),
            },
            ..self
        }
    }

    /// Whether the input of a frame asks for the end of the program: only
    /// the menu can be asked, by escape or by its button.
    pub open spec fn spec_quit(self, click: Option<Click>, keys: Keys) -> bool {
        self.state == ProgramState::MainMenu && (keys.escape || click == Some(Click::Quit))
    }

    /// The program after `frames` further frames in which nothing is clicked
    /// and no key goes down.
    pub open spec fn idle(self, frames: nat) -> Artwork
        decreases frames,
    {
        if frames == 0 {
            self
        } else {
            self.idle((frames - 1) as nat).spec_input(
                None,
                Keys { escape: false, backquote: false },
            ).spec_begin_frame()
        }
    }

    /// The program as it starts: in the menu, with nothing pending and the
    /// panel closed, and with every scene freshly made.
    pub fn new() -> (artwork: Artwork)
        ensures
            artwork.state == ProgramState::MainMenu,
            artwork.next_state == None::<ProgramState>,
            !artwork.ui_state.params_panel,
            artwork.rand@.len() == 1031,
            all_fractions(artwork.rand@),
            artwork.bubbles.bubbles.bubbles@.len() == 50,
            artwork.bubbles.bubbles.starts_default(),
            artwork.bubbles.bubbles.placed(),
            artwork.bubbles.rays.rays@.len() == 60,
            artwork.bubbles.rays.starts_default(),
            artwork.bubbles.rays.bounded(),
            exists|draws: Seq<RayDraws>| artwork.bubbles.rays.lined_up(draws),
            artwork.bubbles.valid(),
            artwork.leaves.params.starts_default(),
            artwork.leaves.valid(),
    {
        Artwork {
            state: ProgramState::default(),
            next_state: None,
            ui_state: UIState::default(),
            rand: CachedRandom::default(),
            circle: CircleArt,
            bubbles: BubbleArt::default(),
            leaves: LeafArt::default(),
        }
    }

    /// The first step of a frame: the state that the input of the frame
    /// before decided on, if it decided on one, becomes the state. Nothing
    /// else changes: no scene is made anew. See
    /// [`Artwork::spec_begin_frame`].
    pub fn begin_frame(&mut self)
        ensures
            *final(self) == old(self).spec_begin_frame(),
    {
        self.state = self.state.transition(&mut self.next_state);
    }

    /// Takes in the input of a frame: first what was clicked in the menu,
    /// then the keys; see [`Artwork::spec_input`]. The state itself stays
    /// until the next frame begins. The result tells whether the program is
    /// to end.
    pub fn input(&mut self, click: Option<Click>, keys: Keys) -> (quit: bool)
        ensures
            *final(self) == old(self).spec_input(click, keys),
            quit == old(self).spec_quit(click, keys),
    {
        let clicked = ProgramState::selection_system(self.state, &mut self.next_state, click);
        let pressed = ProgramState::shortcuts(
            self.state,
            &mut self.next_state,
            &mut self.ui_state,
            keys,
        );
        clicked || pressed
    }

    /// The angles that the frame at the time `seconds` needs the sines and
    /// cosines of: those of the scene that is on.
    pub fn angles(&self, seconds: u64) -> (angles: Angles)
        ensures
            match self.state {
                ProgramState::Bubbles => angles is Bubbles && self.bubbles.asks_for(
                    self.state,
                    seconds,
                    &angles->Bubbles_0,
                ),
                ProgramState::SummerLeaves => angles is Leaves && self.leaves.asks_for(
                    self.state,
                    self.rand@,
                    angles->Leaves_0@,
                ),
                _ => angles is Nothing,
            },
    {
        match self.state {
            ProgramState::Bubbles => Angles::Bubbles(self.bubbles.angles(self.state, seconds)),
            ProgramState::SummerLeaves => Angles::Leaves(
                self.leaves.angles(self.state, &self.rand),
            ),
            _ => Angles::Nothing,
        }
    }

    /// The shapes of the frame at the time `seconds`, in the order in which
    /// they are to be painted; see [`Artwork::spec_draw`]. Exactly the scene
    /// that is on is asked for its shapes. The result depends on the
    /// arguments alone.
    pub fn draw(&self, seconds: u64, window: Point, sines: &Sines) -> (painter: Vec<DrawCommand>)
        ensures
            painter@ == self.spec_draw(seconds, window, sines),
    {
        match self.state {
            ProgramState::Circle => self.circle.draw(self.state),
            ProgramState::Bubbles => match sines {
                Sines::Bubbles(sines) => self.bubbles.draw(self.state, seconds, window, sines),
                _ => {
                    let none = BubbleSines {
                        wobble: Vec::new(),
                        alpha: Vec::new(),
                        direction: Rotation { cos: 1_000_000, sin: 0 },
                    };
                    self.bubbles.draw(self.state, seconds, window, &none)
                },
            },
            ProgramState::SummerLeaves => match sines {
                Sines::Leaves(directions) => self.leaves.draw(self.state, directions),
                _ => {
                    let none: Vec<Rotation> = Vec::new();
                    self.leaves.draw(self.state, &none)
                },
            },
            ProgramState::MainMenu | ProgramState::Gallery => Vec::new(),
        }
    }
}

/// After the step to a scene, the shapes of every frame are those of that
/// scene and of no other, frame after frame, for as long as nothing is
/// clicked and no key goes down; and the scene is then as it was before the
/// step.
pub proof fn lemma_scene_stays_on(
    artwork: Artwork,
    scene: ProgramState,
    frames: nat,
    seconds: u64,
    window: Point,
    sines: &Sines,
)
    requires
        artwork.next_state == Some(scene),
    ensures
        artwork.spec_begin_frame().idle(frames) == artwork.spec_begin_frame(),
        artwork.spec_begin_frame().idle(frames).state == scene,
        artwork.spec_begin_frame().idle(frames).spec_draw(seconds, window, sines)
            == artwork.spec_scene(scene, seconds, window, sines),
        forall|other: ProgramState|
            artwork.spec_begin_frame().idle(frames).state.runs(other) ==> other == scene,
    decreases frames,
{
    let entered = artwork.spec_begin_frame();
    if frames > 0 {
        lemma_scene_stays_on(artwork, scene, (frames - 1) as nat, seconds, window, sines);
        let before = entered.idle((frames - 1) as nat);
        assert(before == entered);
        let after = before.spec_input(None, Keys { escape: false, backquote: false });
        assert(after.ui_state == before.ui_state);
        assert(after == before);
    }
}

} // verus!
