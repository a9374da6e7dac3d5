//! The known setups of menu actions and the number of generator draws that each
//! one costs.

use vstd::prelude::*;

verus! {

/// A setup: what to do, and how many draws it costs.
pub struct ManipSetup {
    pub text: &'static str,
    pub rng_amount: usize,
}

impl ManipSetup {
    pub fn new(text: &'static str, rng_amount: usize) -> (setup: Self)
        ensures
            setup.text@ == text@,
            setup.rng_amount == rng_amount,
    {
        ManipSetup { text, rng_amount }
    }
}

/// The number of setups known for the Core.
pub const MANIP_SETUP_COUNT: usize = 34;

/// The draws that each of the Core's setups costs, in the order of the setups.
pub open spec fn core_rng_amounts() -> Seq<usize> {
    seq![
        0, 104, 116, 164, 158, 208, 114, 232, 328, 316, 220, 268, 262, 280, 274, 322, 312, 348, 474,
        492, 324, 372, 366, 420, 432, 336, 396, 390, 428, 476, 470, 440, 524, 536,
    ]
}

/// The words of each of the Core's setups, in the order of the setups.
pub open spec fn core_setup_texts() -> Seq<Seq<char>> {
    seq![
        "(nothing)"@,
        "Stick - USE"@,
        "Stick - INFO"@,
        "Tough Glove - INFO"@,
        "Instant Noodles - INFO"@,
        "Stick - USE (x2)"@,
        "Switch Armor (x2)"@,
        "Stick - INFO (x2)"@,
        "Tough Glove - INFO (x2)"@,
        "Instant Noodles - INFO (x2)"@,
        "Stick - USE\nStick - INFO"@,
        "Stick - USE\nTough Glove - INFO"@,
        "Stick - USE\nInstant Noodles - INFO"@,
        "Stick - INFO\nTough Glove - INFO"@,
        "Stick - INFO\nInstant Noodles - INFO"@,
        "Instant Noodles - INFO\nTough Glove - INFO"@,
        "Stick - USE (x3)"@,
        "Stick - INFO (x3)"@,
        "Instant Noodles - INFO (x3)"@,
        "Tough Glove - INFO (x3)"@,
        "Stick - USE (x2)\nStick - INFO"@,
        "Stick - USE (x2)\nTough Glove - INFO"@,
        "Stick - USE (x2)\nInstant Noodles - INFO"@,
        "Instant Noodles - INFO (x2)\nStick - USE"@,
        "Tough Glove - INFO (x2)\nStick - USE"@,
        "Stick - INFO (x2)\nStick - USE"@,
        "Stick - INFO (x2)\nTough Glove - INFO"@,
        "Stick - INFO (x2)\nInstant Noodles - INFO"@,
        "Stick - USE (x3)\nStick - INFO"@,
        "Stick - USE (x3)\nTough Glove - INFO"@,
        "Stick - USE (x3)\nInstant Noodles - INFO"@,
        "Stick - INFO (x2)\nStick - USE (x2)"@,
        "Instant Noodles - INFO (x2)\nStick - USE (x2)"@,
        "Tough Glove - INFO (x2)\nStick - USE (x2)"@,
    ]
}

/// The setups known for the Core.
pub fn manip_setups_core() -> (setups: Vec<ManipSetup>)
    ensures
        setups@.len() == 34,
        forall|i: int| 0 <= i < 34 ==> (#[trigger] setups@[i]).rng_amount == core_rng_amounts()[i],
        forall|i: int| 0 <= i < 34 ==> (#[trigger] setups@[i]).text@ == core_setup_texts()[i],
{
    let mut setups: Vec<ManipSetup> = Vec::new();
    setups.push(ManipSetup::new("(nothing)", 0));
    setups.push(ManipSetup::new("Stick - USE", 104));
    setups.push(ManipSetup::new("Stick - INFO", 116));
    setups.push(ManipSetup::new("Tough Glove - INFO", 164));
    setups.push(ManipSetup::new("Instant Noodles - INFO", 158));
    setups.push(ManipSetup::new("Stick - USE (x2)", 208));
    setups.push(ManipSetup::new("Switch Armor (x2)", 114));
    setups.push(ManipSetup::new("Stick - INFO (x2)", 232));
    setups.push(ManipSetup::new("Tough Glove - INFO (x2)", 328));
    setups.push(ManipSetup::new("Instant Noodles - INFO (x2)", 316));
    setups.push(ManipSetup::new("Stick - USE\nStick - INFO", 220));
    setups.push(ManipSetup::new("Stick - USE\nTough Glove - INFO", 268));
    setups.push(ManipSetup::new("Stick - USE\nInstant Noodles - INFO", 262));
    setups.push(ManipSetup::new("Stick - INFO\nTough Glove - INFO", 280));
    setups.push(ManipSetup::new("Stick - INFO\nInstant Noodles - INFO", 274));
    setups.push(ManipSetup::new("Instant Noodles - INFO\nTough Glove - INFO", 322));
    setups.push(ManipSetup::new("Stick - USE (x3)", 312));
    setups.push(ManipSetup::new("Stick - INFO (x3)", 348));
    setups.push(ManipSetup::new("Instant Noodles - INFO (x3)", 474));
    setups.push(ManipSetup::new("Tough Glove - INFO (x3)", 492));
    setups.push(ManipSetup::new("Stick - USE (x2)\nStick - INFO", 324));
    setups.push(ManipSetup::new("Stick - USE (x2)\nTough Glove - INFO", 372));
    setups.push(ManipSetup::new("Stick - USE (x2)\nInstant Noodles - INFO", 366));
    setups.push(ManipSetup::new("Instant Noodles - INFO (x2)\nStick - USE", 420));
    setups.push(ManipSetup::new("Tough Glove - INFO (x2)\nStick - USE", 432));
    setups.push(ManipSetup::new("Stick - INFO (x2)\nStick - USE", 336));
    setups.push(ManipSetup::new("Stick - INFO (x2)\nTough Glove - INFO", 396));
    setups.push(ManipSetup::new("Stick - INFO (x2)\nInstant Noodles - INFO", 390));
    setups.push(ManipSetup::new("Stick - USE (x3)\nStick - INFO", 428));
    setups.push(ManipSetup::new("Stick - USE (x3)\nTough Glove - INFO", 476));
    setups.push(ManipSetup::new("Stick - USE (x3)\nInstant Noodles - INFO", 470));
    setups.push(ManipSetup::new("Stick - INFO (x2)\nStick - USE (x2)", 440));
    setups.push(ManipSetup::new("Instant Noodles - INFO (x2)\nStick - USE (x2)", 524));
    setups.push(ManipSetup::new("Tough Glove - INFO (x2)\nStick - USE (x2)", 536));
    setups
}

} // verus!
