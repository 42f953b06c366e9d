use vstd::prelude::*;

verus! {

/// How an animation clip repeats.
#[derive(Debug, Clone, Copy, PartialEq, Eq, Structural)]
pub enum LoopMode {
    Once,
    Repeat,
    PingPong,
}

impl LoopMode {
    /// The engine's numeric constant for the mode.
    pub fn code(&self) -> (r: u32)
        ensures
            *self == LoopMode::Once ==> r == 2200,
            *self == LoopMode::Repeat ==> r == 2201,
            *self == LoopMode::PingPong ==> r == 2202,
    {
        match self {
            LoopMode::Once => 2200,
            LoopMode::Repeat => 2201,
            LoopMode::PingPong => 2202,
        }
    }

    /// The mode of an engine constant, if it names one.
    pub fn from_code(code: u32) -> (r: Option<LoopMode>)
        ensures
            code == 2200 ==> r == Some(LoopMode::Once),
            code == 2201 ==> r == Some(LoopMode::Repeat),
            code == 2202 ==> r == Some(LoopMode::PingPong),
            !(2200 <= code <= 2202) ==> r == None::<LoopMode>,
    {
        if code == 2200 {
            Some(LoopMode::Once)
        } else if code == 2201 {
            Some(LoopMode::Repeat)
        } else if code == 2202 {
            Some(LoopMode::PingPong)
        } else {
            None
        }
    }
}

impl Default for LoopMode {
    fn default() -> (r: LoopMode)
        ensures
            r == LoopMode::Repeat,
    {
        LoopMode::Repeat
    }
}

} // verus!
