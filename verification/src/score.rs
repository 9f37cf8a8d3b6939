//! Ratings of a chart and the document that publishes them.

use vstd::prelude::*;
use crate::single::Real32;

verus! {

/// The ratings of one chart at one rate, as the difficulty engine returns
/// them.
#[derive(Clone, Copy, Debug, PartialEq, Eq, Structural)]
pub struct SkillsetScores {
    pub overall: Real32,
    pub stream: Real32,
    pub jumpstream: Real32,
    pub handstream: Real32,
    pub stamina: Real32,
    pub jackspeed: Real32,
    pub chordjack: Real32,
    pub technical: Real32,
}

/// The stage at which rating a chart failed.
#[derive(Clone, Copy, Debug, PartialEq, Eq, Structural)]
pub enum ComputeError {
    /// The bytes are not text.
    Decode,
    /// The text is no chart.
    Parse,
    /// The chart is of a kind that cannot be rated.
    Validation,
    /// The chart has no notes that the engine takes.
    Conversion,
    /// The engine failed.
    Engine,
}

/// The document that is published: labels, ratings and the rate as text.
#[derive(Clone, Debug)]
pub struct MsdOut {
    pub song: String,
    pub diff: String,
    pub overall: Real32,
    pub stamina: Real32,
    pub jumpstream: Real32,
    pub handstream: Real32,
    pub stream: Real32,
    pub chordjack: Real32,
    pub jacks: Real32,
    pub technical: Real32,
    pub rate: String,
}

/// What a document holds.
pub struct MsdOutView {
    pub song: Seq<char>,
    pub diff: Seq<char>,
    pub overall: Real32,
    pub stamina: Real32,
    pub jumpstream: Real32,
    pub handstream: Real32,
    pub stream: Real32,
    pub chordjack: Real32,
    pub jacks: Real32,
    pub technical: Real32,
    pub rate: Seq<char>,
}

impl View for MsdOut {
    type V = MsdOutView;

    open spec fn view(&self) -> MsdOutView {
        MsdOutView {
            song: self.song@,
            diff: self.diff@,
            overall: self.overall,
            stamina: self.stamina,
            jumpstream: self.jumpstream,
            handstream: self.handstream,
            stream: self.stream,
            chordjack: self.chordjack,
            jacks: self.jacks,
            technical: self.technical,
            rate: self.rate@,
        }
    }
}

/// The document for the given labels, ratings and rate. Each rating goes to
/// the field of its name, the jack speed to `jacks`.
pub open spec fn document(
    song: Seq<char>,
    diff: Seq<char>,
    scores: SkillsetScores,
    rate: Seq<char>,
) -> MsdOutView {
    MsdOutView {
        song,
        diff,
        overall: scores.overall,
        stamina: scores.stamina,
        jumpstream: scores.jumpstream,
        handstream: scores.handstream,
        stream: scores.stream,
        chordjack: scores.chordjack,
        jacks: scores.jackspeed,
        technical: scores.technical,
        rate,
    }
}

impl MsdOut {
    /// Puts a document together.
    pub fn assemble(song: String, diff: String, scores: &SkillsetScores, rate: String) -> (out:
        MsdOut)
        ensures
            out@ == document(song@, diff@, *scores, rate@),
    {
        MsdOut {
            song,
            diff,
            overall: scores.overall,
            stamina: scores.stamina,
            jumpstream: scores.jumpstream,
            handstream: scores.handstream,
            stream: scores.stream,
            chordjack: scores.chordjack,
            jacks: scores.jackspeed,
            technical: scores.technical,
            rate,
        }
    }
}

} // verus!
