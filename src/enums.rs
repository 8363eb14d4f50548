use vstd::prelude::*;

verus! {

/// Where the vertical crop window sits within the source image.
#[derive(Clone, Copy, Debug, PartialEq, Eq, Structural, PartialOrd, Ord, Hash)]
pub enum CropPosition {
    Bottom,
    Center,
    Full,
}

/// The kind of job to run on a directory of screenshots.
#[derive(Clone, Copy, Debug, PartialEq, Eq, Structural, PartialOrd, Ord, Hash)]
pub enum Operation {
    All,
    Background,
    Center,
    CreateDirectory,
    Cutscene,
    Foreground0,
    Foreground1,
    Foreground2,
    Foreground3,
    Foreground4,
    Foreground5,
    Full,
}

/// The game profile that the screenshots come from. `Unset` selects no
/// profile: no game-specific blur, crop or resize.
#[derive(Clone, Copy, Debug, PartialEq, Eq, Structural, PartialOrd, Ord, Hash)]
pub enum Game {
    Unset,
    WuWa,
}

/// `All`, `CreateDirectory` and `Full` work without a game profile and never crop.
pub open spec fn is_frame_wide(op: Operation) -> bool {
    op == Operation::All || op == Operation::CreateDirectory || op == Operation::Full
}

/// Every region operation needs a game profile.
pub open spec fn needs_game(op: Operation) -> bool {
    !is_frame_wide(op)
}

/// The crop position an operation implies when neither an override nor the
/// profile gives one.
pub open spec fn implied_crop_position(op: Operation) -> CropPosition {
    match op {
        Operation::Full => CropPosition::Full,
        Operation::Center => CropPosition::Center,
        _ => CropPosition::Bottom,
    }
}

impl Operation {
    /// True when this operation crops nothing (`All`, `CreateDirectory`, `Full`).
    pub fn is_frame_wide(&self) -> (r: bool)
        ensures
            r == is_frame_wide(*self),
    {
        match self {
            Operation::All | Operation::CreateDirectory | Operation::Full => true,
            _ => false,
        }
    }

    /// True when this operation cannot run with `Game::Unset`.
    pub fn needs_game(&self) -> (r: bool)
        ensures
            r == needs_game(*self),
    {
        !self.is_frame_wide()
    }

    /// The crop position implied by the operation itself.
    pub fn implied_crop_position(&self) -> (r: CropPosition)
        ensures
            r == implied_crop_position(*self),
    {
        match self {
            Operation::Full => CropPosition::Full,
            Operation::Center => CropPosition::Center,
            _ => CropPosition::Bottom,
        }
    }
}

} // verus!
