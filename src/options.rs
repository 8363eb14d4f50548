use vstd::prelude::*;
use crate::config::{copy_rects, Rect, TomlConfig};
use crate::enums::{implied_crop_position, is_frame_wide, needs_game, CropPosition, Game, Operation};

verus! {

/// Source width that the game profiles are laid out for.
pub const PROFILE_SOURCE_WIDTH: u32 = 1920;

/// Width that profile jobs scale their output to.
pub const PROFILE_TARGET_WIDTH: u32 = 1280;

/// The user's overrides, each field present or absent on its own, with the
/// selected operation, game and target directory.
pub struct Options {
    pub operation: Operation,
    pub target: String,
    pub blur: Option<Vec<Rect>>,
    pub crop_height: Option<u32>,
    pub crop_pos: Option<CropPosition>,
    pub game: Game,
    pub width_from: Option<u32>,
    pub width_to: Option<u32>,
}

/// The job descriptor: the fully resolved parameters of one batch run.
pub struct MergedOption {
    pub operation: Operation,
    pub game: Game,
    pub blur: Vec<Rect>,
    pub crop_height: u32,
    pub crop_pos: CropPosition,
    pub save_at_parent: bool,
    pub target: String,
    pub width_from: u32,
    pub width_to: u32,
}

/// The value of a job descriptor.
pub struct JobView {
    pub operation: Operation,
    pub game: Game,
    pub blur: Seq<Rect>,
    pub crop_height: u32,
    pub crop_pos: CropPosition,
    pub save_at_parent: bool,
    pub target: Seq<char>,
    pub width_from: u32,
    pub width_to: u32,
}

impl View for MergedOption {
    type V = JobView;

    open spec fn view(&self) -> JobView {
        JobView {
            operation: self.operation,
            game: self.game,
            blur: self.blur@,
            crop_height: self.crop_height,
            crop_pos: self.crop_pos,
            save_at_parent: self.save_at_parent,
            target: self.target@,
            width_from: self.width_from,
            width_to: self.width_to,
        }
    }
}

/// Why options could not be resolved into a job descriptor.
#[derive(Clone, Copy, Debug, PartialEq, Eq, Structural)]
pub enum ResolveError {
    /// The operation needs a game profile but the game is `Unset`.
    GameRequired,
    /// The operation crops, and neither an override nor the profile gives a crop height.
    MissingCropHeight,
}

/// The width pair that applies when the overrides do not give both widths.
pub open spec fn default_widths(game: Game) -> (u32, u32) {
    if game != Game::Unset {
        (PROFILE_SOURCE_WIDTH, PROFILE_TARGET_WIDTH)
    } else {
        (0, 0)
    }
}

/// Crop height: fixed at 0 for frame-wide operations, else the override, else the profile.
pub open spec fn resolved_crop_height(
    opt: Options,
    config: TomlConfig,
    game: Game,
    op: Operation,
) -> Option<u32> {
    if is_frame_wide(op) {
        Some(0)
    } else {
        match opt.crop_height {
            Some(h) => Some(h),
            None => config.crop_height_spec(game, op),
        }
    }
}

/// Crop position: the override, else the profile, else the one the operation implies.
pub open spec fn resolved_crop_pos(
    opt: Options,
    config: TomlConfig,
    game: Game,
    op: Operation,
) -> CropPosition {
    match opt.crop_pos {
        Some(p) => p,
        None => match config.crop_position_spec(game, op) {
            Some(p) => p,
            None => implied_crop_position(op),
        },
    }
}

/// Blur regions: an override list replaces the profile's list whole.
pub open spec fn resolved_blur(opt: Options, config: TomlConfig, game: Game, op: Operation) -> Seq<
    Rect,
> {
    match opt.blur {
        Some(b) => b@,
        None => config.blur_spec(game, op),
    }
}

/// Width thresholds: both overrides together, or the default pair.
pub open spec fn resolved_widths(opt: Options, game: Game) -> (u32, u32) {
    match (opt.width_from, opt.width_to) {
        (Some(f), Some(t)) => (f, t),
        _ => default_widths(game),
    }
}

/// The job descriptor that options, profile, directory, game and operation resolve to.
pub open spec fn resolve(
    opt: Options,
    config: TomlConfig,
    target: Seq<char>,
    game: Game,
    op: Operation,
    save_at_parent: bool,
) -> Result<JobView, ResolveError> {
    if needs_game(op) && game == Game::Unset {
        Err(ResolveError::GameRequired)
    } else {
        match resolved_crop_height(opt, config, game, op) {
            None => Err(ResolveError::MissingCropHeight),
            Some(h) => Ok(
                JobView {
                    operation: op,
                    game,
                    blur: resolved_blur(opt, config, game, op),
                    crop_height: h,
                    crop_pos: resolved_crop_pos(opt, config, game, op),
                    save_at_parent,
                    target,
                    width_from: resolved_widths(opt, game).0,
                    width_to: resolved_widths(opt, game).1,
                },
            ),
        }
    }
}

/// The check made once, before any fan-out: an operation that needs a game
/// profile cannot run with `Game::Unset`.
pub fn validate_game(game: Game, op: Operation) -> (r: Result<(), ResolveError>)
    ensures
        r is Err <==> needs_game(op) && game == Game::Unset,
        r is Err ==> r == Err::<(), ResolveError>(ResolveError::GameRequired),
{
    if op.needs_game() && game == Game::Unset {
        Err(ResolveError::GameRequired)
    } else {
        Ok(())
    }
}

/// Merges the user's overrides, the profile and the operation's own defaults
/// into one job descriptor for `target`.
pub fn merge_options(
    opt: &Options,
    config: &TomlConfig,
    target: &str,
    game: Game,
    op: Operation,
    save_at_parent: bool,
) -> (r: Result<MergedOption, ResolveError>)
    ensures
        match r {
            Ok(m) => resolve(*opt, *config, target@, game, op, save_at_parent) == Ok::<
                JobView,
                ResolveError,
            >(m@),
            Err(e) => resolve(*opt, *config, target@, game, op, save_at_parent) == Err::<
                JobView,
                ResolveError,
            >(e),
        },
{
    if let Err(e) = validate_game(game, op) {
        return Err(e);
    }
    let crop_height = if op.is_frame_wide() {
        0
    } else {
        match opt.crop_height {
            Some(h) => h,
            None => match config.crop_height_for(game, op) {
                Some(h) => h,
                None => {
                    return Err(ResolveError::MissingCropHeight);
                },
            },
        }
    };
    let blur = match &opt.blur {
        Some(b) => copy_rects(b),
        None => config.blur(game, op),
    };
    let crop_pos = match opt.crop_pos {
        Some(p) => p,
        None => match config.crop_position(game, op) {
            Some(p) => p,
            None => op.implied_crop_position(),
        },
    };
    let (width_from, width_to) = match (opt.width_from, opt.width_to) {
        (Some(f), Some(t)) => (f, t),
        _ => if game != Game::Unset {
            (PROFILE_SOURCE_WIDTH, PROFILE_TARGET_WIDTH)
        } else {
            (0, 0)
        },
    };
    let m = MergedOption {
        operation: op,
        game,
        blur,
        crop_height,
        crop_pos,
        save_at_parent,
        target: target.to_owned(),
        width_from,
        width_to,
    };
    Ok(m)
}

impl JobView {
    /// Blur applies to an image of width `w`: a game profile is set, the width
    /// is the source width, and there is at least one region.
    pub open spec fn blur_applies(self, w: u32) -> bool {
        self.game != Game::Unset && w == self.width_from && self.blur.len() > 0
    }

    /// Resize is due: never without a game profile; else for `Full` when the
    /// width exceeds the target width, for every other operation when the
    /// uncropped width is the source width.
    pub open spec fn resize_due(self, w: u32) -> bool {
        if self.game == Game::Unset {
            false
        } else if self.operation == Operation::Full {
            w > self.width_to
        } else {
            w == self.width_from
        }
    }
}

impl MergedOption {
    /// Whether the region blur applies to an image of width `img_width`.
    pub fn should_blur(&self, img_width: u32) -> (r: bool)
        ensures
            r == self@.blur_applies(img_width),
    {
        if self.game == Game::Unset {
            return false;
        }
        img_width == self.width_from && self.blur.len() > 0
    }

    /// Whether an image of uncropped width `img_width` is to be resized.
    pub fn should_resize(&self, img_width: u32) -> (r: bool)
        ensures
            r == self@.resize_due(img_width),
    {
        if self.game == Game::Unset {
            return false;
        }
        match self.operation {
            Operation::Full => img_width > self.width_to,
            _ => img_width == self.width_from,
        }
    }
}

/// Without a game profile, every operation but `All`, `CreateDirectory` and
/// `Full` fails validation.
pub proof fn lemma_unset_game_rejected(
    opt: Options,
    config: TomlConfig,
    target: Seq<char>,
    op: Operation,
    save_at_parent: bool,
)
    requires
        !is_frame_wide(op),
    ensures
        resolve(opt, config, target, Game::Unset, op, save_at_parent) == Err::<
            JobView,
            ResolveError,
        >(ResolveError::GameRequired),
{
}

/// Every descriptor resolved for `All`, `CreateDirectory` or `Full` has crop height 0.
pub proof fn lemma_frame_wide_no_crop(
    opt: Options,
    config: TomlConfig,
    target: Seq<char>,
    game: Game,
    op: Operation,
    save_at_parent: bool,
)
    requires
        is_frame_wide(op),
        resolve(opt, config, target, game, op, save_at_parent) is Ok,
    ensures
        resolve(opt, config, target, game, op, save_at_parent)->Ok_0.crop_height == 0,
{
}

/// A crop height override wins over the profile's crop height.
pub proof fn lemma_crop_override_wins(
    opt: Options,
    config: TomlConfig,
    target: Seq<char>,
    game: Game,
    op: Operation,
    save_at_parent: bool,
    profile_height: u32,
    override_height: u32,
)
    requires
        config.crop_height_spec(game, op) == Some(profile_height),
        opt.crop_height == Some(override_height),
        override_height != profile_height,
        resolve(opt, config, target, game, op, save_at_parent) is Ok,
        !is_frame_wide(op),
    ensures
        resolve(opt, config, target, game, op, save_at_parent)->Ok_0.crop_height
            == override_height,
{
}

/// A blur override replaces the profile's list: the resolved list is the override exactly.
pub proof fn lemma_blur_override_replaces(
    opt: Options,
    config: TomlConfig,
    target: Seq<char>,
    game: Game,
    op: Operation,
    save_at_parent: bool,
)
    requires
        config.blur_spec(game, op).len() > 0,
        opt.blur is Some,
        opt.blur->Some_0@.len() > 0,
        opt.blur->Some_0@ != config.blur_spec(game, op),
        resolve(opt, config, target, game, op, save_at_parent) is Ok,
    ensures
        resolve(opt, config, target, game, op, save_at_parent)->Ok_0.blur == opt.blur->Some_0@,
{
}

/// One width override without the other gives the default pair, never a mix.
pub proof fn lemma_widths_paired(
    opt: Options,
    config: TomlConfig,
    target: Seq<char>,
    game: Game,
    op: Operation,
    save_at_parent: bool,
)
    requires
        (opt.width_from is Some) != (opt.width_to is Some),
        resolve(opt, config, target, game, op, save_at_parent) is Ok,
    ensures
        ({
            let j = resolve(opt, config, target, game, op, save_at_parent)->Ok_0;
            (j.width_from, j.width_to) == default_widths(game)
        }),
{
}

} // verus!
