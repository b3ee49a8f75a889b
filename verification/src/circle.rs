//! The simplest scene: one disc.
use crate::common::Color;
use crate::draw::{DrawCommand, Point};
use crate::fixed::SCALE;
use crate::program::ProgramState;
use vstd::prelude::*;

verus! {

/// The scene of a single white disc of radius one in the middle.
#[derive(Clone, Copy, Debug, PartialEq, Eq)]
pub struct CircleArt;

impl CircleArt {
    /// The disc.
    pub open spec fn spec_circle() -> DrawCommand {
        DrawCommand::Circle {
            center: Point { x: 0, y: 0 },
            radius: SCALE as i64,
            hollow: false,
            thickness: 100_000,
            color: Color::opaque(SCALE as int, SCALE as int, SCALE as int),
        }
    }

    /// The shapes of a frame: the disc while the scene is on, and nothing
    /// while another state is.
    pub fn draw(&self, program_state: ProgramState) -> (painter: Vec<DrawCommand>)
        ensures
            painter@ == if program_state.runs(ProgramState::Circle) {
                seq![CircleArt::spec_circle()]
            } else {
                Seq::empty()
            },
    {
        let mut painter: Vec<DrawCommand> = Vec::new();
        if program_state.in_state(ProgramState::Circle) {
            painter.push(
                DrawCommand::Circle {
                    center: Point { x: 0, y: 0 },
                    radius: 1_000_000,
                    hollow: false,
                    thickness: 100_000,
                    color: Color::white(),
                },
            );
        }
        painter
    }
}

} // verus!
