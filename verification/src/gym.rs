//! Decisions of the Python Gym bridge that need no interpreter: which kind
//! of space a space object describes, which layout a `step()` result has
//! and what it says about the end of the episode.
use vstd::prelude::*;
use crate::text::{decimal_digits, spec_decimal, str_eq};

verus! {

/// The space kinds the bridge understands.
#[derive(Debug, Clone, Copy, PartialEq, Eq, Structural)]
pub enum SpaceKind {
    /// A continuous box (`gym.spaces.Box`).
    Box,
    /// A finite set of actions (`gym.spaces.Discrete`).
    Discrete,
}

/// Layout of the tuple that `step()` returned.
#[derive(Debug, Clone, Copy, PartialEq, Eq, Structural)]
pub enum StepLayout {
    /// `(obs, reward, terminated, truncated, info)`.
    Gymnasium,
    /// `(obs, reward, done, info)`.
    Legacy,
}

/// Why a Gym object cannot be used.
#[derive(Debug, Clone, PartialEq, Eq)]
pub enum GymError {
    /// The space has a type other than `Box` or `Discrete`.
    UnsupportedSpace(String),
    /// `step()` returned a tuple of neither 4 nor 5 items.
    UnexpectedStepLength(usize),
}

impl GymError {
    /// The explanation text of the error.
    pub open spec fn spec_message(self) -> Seq<char> {
        match self {
            GymError::UnsupportedSpace(name) => "Unsupported space type: "@ + name@
                + ". Supported: Box, Discrete"@,
            GymError::UnexpectedStepLength(n) => "Unexpected step result tuple length: "@
                + spec_decimal(n as nat),
        }
    }

    /// The explanation text of the error.
    pub fn message(&self) -> (s: String)
        ensures
            s@ == self.spec_message(),
    {
        match self {
            GymError::UnsupportedSpace(name) => {
                let mut s = String::from_str("Unsupported space type: ");
                s.append(name.as_str());
                s.append(". Supported: Box, Discrete");
                s
            },
            GymError::UnexpectedStepLength(n) => {
                let mut s = String::from_str("Unexpected step result tuple length: ");
                let d = decimal_digits(*n as u128);
                s.append(d.as_str());
                s
            },
        }
    }
}

/// The kind a space type name denotes, if the bridge understands it.
pub open spec fn spec_space_kind(space_type: Seq<char>) -> Option<SpaceKind> {
    if space_type == "Box"@ {
        Some(SpaceKind::Box)
    } else if space_type == "Discrete"@ {
        Some(SpaceKind::Discrete)
    } else {
        None
    }
}

/// Classifies a space by the name of its Python type.
pub fn space_kind(space_type: &str) -> (r: Result<SpaceKind, GymError>)
    ensures
        match r {
            Ok(k) => spec_space_kind(space_type@) == Some(k),
            Err(e) => spec_space_kind(space_type@) is None && (e matches GymError::UnsupportedSpace(
                name,
            ) && name@ == space_type@) && e.spec_message() == "Unsupported space type: "@ + space_type@
                + ". Supported: Box, Discrete"@,
        },
{
    if str_eq(space_type, "Box") {
        Ok(SpaceKind::Box)
    } else if str_eq(space_type, "Discrete") {
        Ok(SpaceKind::Discrete)
    } else {
        Err(GymError::UnsupportedSpace(String::from_str(space_type)))
    }
}

/// The layout a step result of `len` items has, if any.
pub open spec fn spec_step_layout(len: nat) -> Option<StepLayout> {
    if len == 5 {
        Some(StepLayout::Gymnasium)
    } else if len == 4 {
        Some(StepLayout::Legacy)
    } else {
        None
    }
}

/// Decides the layout of a step result from its number of items.
pub fn step_layout(len: usize) -> (r: Result<StepLayout, GymError>)
    ensures
        match r {
            Ok(l) => spec_step_layout(len as nat) == Some(l),
            Err(e) => spec_step_layout(len as nat) is None && e == GymError::UnexpectedStepLength(len),
        },
{
    if len == 5 {
        Ok(StepLayout::Gymnasium)
    } else if len == 4 {
        Ok(StepLayout::Legacy)
    } else {
        Err(GymError::UnexpectedStepLength(len))
    }
}

/// `(terminated, truncated)` read from the third and fourth items of a step
/// result: the legacy layout has one `done` flag and never truncates.
pub open spec fn spec_end_flags(layout: StepLayout, third: bool, fourth: bool) -> (bool, bool) {
    match layout {
        StepLayout::Gymnasium => (third, fourth),
        StepLayout::Legacy => (third, false),
    }
}

/// The end-of-episode flags of a step result.
pub fn end_flags(layout: StepLayout, third: bool, fourth: bool) -> (f: (bool, bool))
    ensures
        f == spec_end_flags(layout, third, fourth),
{
    match layout {
        StepLayout::Gymnasium => (third, fourth),
        StepLayout::Legacy => (third, false),
    }
}

} // verus!
