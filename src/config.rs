use vstd::prelude::*;
use vstd::string::*;
use crate::enums::{CropPosition, Game, Operation};

verus! {

/// An axis-aligned rectangle `[x, y, width, height]` in source-image pixels.
pub type Rect = [u32; 4];

/// Per-operation defaults of one game profile.
pub struct LayerConfig {
    pub crop_height: u32,
    pub crop_position: CropPosition,
    pub blur: Vec<Rect>,
}

/// The per-operation layers of the WuWa profile.
pub struct WuWaSection {
    pub background: LayerConfig,
    pub center: LayerConfig,
    pub cutscene: LayerConfig,
    pub foreground0: LayerConfig,
    pub foreground1: LayerConfig,
    pub foreground2: LayerConfig,
    pub foreground3: LayerConfig,
    pub foreground4: LayerConfig,
    pub foreground5: LayerConfig,
    pub full: LayerConfig,
}

/// The game profiles present in the configuration.
pub struct GameSection {
    pub wuwa: Option<WuWaSection>,
}

/// The name of the subdirectory that holds the screenshots of each operation.
pub struct FolderNameSection {
    pub background: String,
    pub center: String,
    pub cutscene: String,
    pub foreground0: String,
    pub foreground1: String,
    pub foreground2: String,
    pub foreground3: String,
    pub foreground4: String,
    pub foreground5: String,
    pub full: String,
}

/// Settings that hold for every game.
pub struct GeneralSection {
    pub folder_name: FolderNameSection,
}

/// The configuration profile: folder names and per-game, per-operation defaults.
pub struct TomlConfig {
    pub general: GeneralSection,
    pub game: GameSection,
}

/// The layer of a profile that belongs to an operation; `All` and
/// `CreateDirectory` have none.
pub open spec fn layer_of(w: WuWaSection, op: Operation) -> Option<LayerConfig> {
    match op {
        Operation::Background => Some(w.background),
        Operation::Center => Some(w.center),
        Operation::Cutscene => Some(w.cutscene),
        Operation::Foreground0 => Some(w.foreground0),
        Operation::Foreground1 => Some(w.foreground1),
        Operation::Foreground2 => Some(w.foreground2),
        Operation::Foreground3 => Some(w.foreground3),
        Operation::Foreground4 => Some(w.foreground4),
        Operation::Foreground5 => Some(w.foreground5),
        Operation::Full => Some(w.full),
        _ => None,
    }
}

/// The folder name configured for an operation; `All` and `CreateDirectory` have none.
pub open spec fn folder_of(f: FolderNameSection, op: Operation) -> Option<Seq<char>> {
    match op {
        Operation::Background => Some(f.background@),
        Operation::Center => Some(f.center@),
        Operation::Cutscene => Some(f.cutscene@),
        Operation::Foreground0 => Some(f.foreground0@),
        Operation::Foreground1 => Some(f.foreground1@),
        Operation::Foreground2 => Some(f.foreground2@),
        Operation::Foreground3 => Some(f.foreground3@),
        Operation::Foreground4 => Some(f.foreground4@),
        Operation::Foreground5 => Some(f.foreground5@),
        Operation::Full => Some(f.full@),
        _ => None,
    }
}

/// A copy of a list of rectangles.
pub fn copy_rects(v: &Vec<Rect>) -> (r: Vec<Rect>)
    ensures
        r@ == v@,
{
    let mut r: Vec<Rect> = Vec::new();
    let mut i: usize = 0;
    while i < v.len()
        invariant
            i <= v.len(),
            r@ == v@.subrange(0, i as int),
        decreases v.len() - i,
    {
        r.push(v[i]);
        i = i + 1;
    }
    assert(r@ =~= v@);
    r
}

impl WuWaSection {
    /// The layer that belongs to `op`, if any.
    pub fn layer(&self, op: Operation) -> (r: Option<&LayerConfig>)
        ensures
            match r {
                Some(l) => layer_of(*self, op) == Some(*l),
                None => layer_of(*self, op) is None,
            },
    {
        match op {
            Operation::Background => Some(&self.background),
            Operation::Center => Some(&self.center),
            Operation::Cutscene => Some(&self.cutscene),
            Operation::Foreground0 => Some(&self.foreground0),
            Operation::Foreground1 => Some(&self.foreground1),
            Operation::Foreground2 => Some(&self.foreground2),
            Operation::Foreground3 => Some(&self.foreground3),
            Operation::Foreground4 => Some(&self.foreground4),
            Operation::Foreground5 => Some(&self.foreground5),
            Operation::Full => Some(&self.full),
            _ => None,
        }
    }
}

impl TomlConfig {
    /// The profile layer that applies to `(game, op)`: none without a game,
    /// without a profile section for it, or for an operation without a layer.
    pub open spec fn layer_spec(&self, game: Game, op: Operation) -> Option<LayerConfig> {
        match game {
            Game::Unset => None,
            Game::WuWa => match self.game.wuwa {
                Some(w) => layer_of(w, op),
                None => None,
            },
        }
    }

    /// The profile's crop height for `(game, op)`, if the profile has one.
    pub open spec fn crop_height_spec(&self, game: Game, op: Operation) -> Option<u32> {
        match self.layer_spec(game, op) {
            Some(l) => Some(l.crop_height),
            None => None,
        }
    }

    /// The profile's crop position for `(game, op)`, if the profile has one.
    pub open spec fn crop_position_spec(&self, game: Game, op: Operation) -> Option<CropPosition> {
        match self.layer_spec(game, op) {
            Some(l) => Some(l.crop_position),
            None => None,
        }
    }

    /// The profile's blur regions for `(game, op)`; empty where no layer applies.
    pub open spec fn blur_spec(&self, game: Game, op: Operation) -> Seq<Rect> {
        match self.layer_spec(game, op) {
            Some(l) => l.blur@,
            None => Seq::empty(),
        }
    }

    /// The layer that applies to `(game, op)`, if any.
    pub fn layer_for(&self, game: Game, op: Operation) -> (r: Option<&LayerConfig>)
        ensures
            match r {
                Some(l) => self.layer_spec(game, op) == Some(*l),
                None => self.layer_spec(game, op) is None,
            },
    {
        match game {
            Game::Unset => None,
            Game::WuWa => match &self.game.wuwa {
                Some(w) => w.layer(op),
                None => None,
            },
        }
    }

    /// The blur regions that the profile gives for `(game, op)`.
    pub fn blur(&self, game: Game, op: Operation) -> (r: Vec<Rect>)
        ensures
            r@ == self.blur_spec(game, op),
    {
        match self.layer_for(game, op) {
            Some(l) => copy_rects(&l.blur),
            None => Vec::new(),
        }
    }

    /// The profile's crop height for `(game, op)`, `None` where no layer applies.
    pub fn crop_height_for(&self, game: Game, op: Operation) -> (r: Option<u32>)
        ensures
            r == self.crop_height_spec(game, op),
    {
        match self.layer_for(game, op) {
            Some(l) => Some(l.crop_height),
            None => None,
        }
    }

    /// The profile's crop height for `(game, op)`, 0 where no layer applies.
    pub fn crop_height(&self, game: Game, op: Operation) -> (r: u32)
        ensures
            r == match self.crop_height_spec(game, op) {
                Some(h) => h,
                None => 0,
            },
    {
        match self.crop_height_for(game, op) {
            Some(h) => h,
            None => 0,
        }
    }

    /// The profile's crop position for `(game, op)`, if any layer applies.
    pub fn crop_position(&self, game: Game, op: Operation) -> (r: Option<CropPosition>)
        ensures
            r == self.crop_position_spec(game, op),
    {
        match self.layer_for(game, op) {
            Some(l) => Some(l.crop_position),
            None => None,
        }
    }

    /// The subdirectory name configured for `op`; `None` for `All` and `CreateDirectory`.
    pub fn folder_name(&self, op: Operation) -> (r: Option<String>)
        ensures
            match r {
                Some(s) => folder_of(self.general.folder_name, op) == Some(s@),
                None => folder_of(self.general.folder_name, op) is None,
            },
    {
        let f = &self.general.folder_name;
        match op {
            Operation::Background => Some(f.background.clone()),
            Operation::Center => Some(f.center.clone()),
            Operation::Cutscene => Some(f.cutscene.clone()),
            Operation::Foreground0 => Some(f.foreground0.clone()),
            Operation::Foreground1 => Some(f.foreground1.clone()),
            Operation::Foreground2 => Some(f.foreground2.clone()),
            Operation::Foreground3 => Some(f.foreground3.clone()),
            Operation::Foreground4 => Some(f.foreground4.clone()),
            Operation::Foreground5 => Some(f.foreground5.clone()),
            Operation::Full => Some(f.full.clone()),
            _ => None,
        }
    }
}

/// The two regions that the built-in profile blurs on full-width layers.
pub open spec fn wide_blur() -> Seq<Rect> {
    seq![[40u32, 1054u32, 330u32, 22u32], [1733u32, 1058u32, 140u32, 22u32]]
}

/// The region that the built-in profile blurs on foreground layers.
pub open spec fn corner_blur() -> Seq<Rect> {
    seq![[1733u32, 1058u32, 140u32, 22u32]]
}

/// A layer holds exactly the given crop height, position and blur regions.
pub open spec fn layer_is(l: LayerConfig, h: u32, p: CropPosition, b: Seq<Rect>) -> bool {
    l.crop_height == h && l.crop_position == p && l.blur@ == b
}

/// The built-in default profile.
pub open spec fn is_default_profile(c: TomlConfig) -> bool {
    let f = c.general.folder_name;
    &&& f.background@ == "CS-Background"@
    &&& f.center@ == "CS-Center"@
    &&& f.cutscene@ == "CS-Cutscene"@
    &&& f.foreground0@ == "CS-Foreground-0"@
    &&& f.foreground1@ == "CS-Foreground-1"@
    &&& f.foreground2@ == "CS-Foreground-2"@
    &&& f.foreground3@ == "CS-Foreground-3"@
    &&& f.foreground4@ == "CS-Foreground-4"@
    &&& f.foreground5@ == "CS-Foreground-5"@
    &&& f.full@ == "CS-Full"@
    &&& c.game.wuwa is Some
    &&& {
        let w = c.game.wuwa->Some_0;
        &&& layer_is(w.background, 360, CropPosition::Bottom, wide_blur())
        &&& layer_is(w.center, 200, CropPosition::Center, Seq::empty())
        &&& layer_is(w.cutscene, 810, CropPosition::Center, seq![[1781u32, 929u32, 110u32, 16u32]])
        &&& layer_is(w.foreground0, 310, CropPosition::Bottom, corner_blur())
        &&& layer_is(w.foreground1, 420, CropPosition::Bottom, corner_blur())
        &&& layer_is(w.foreground2, 505, CropPosition::Bottom, corner_blur())
        &&& layer_is(w.foreground3, 580, CropPosition::Bottom, corner_blur())
        &&& layer_is(w.foreground4, 655, CropPosition::Bottom, corner_blur())
        &&& layer_is(w.foreground5, 730, CropPosition::Bottom, corner_blur())
        &&& layer_is(w.full, 0, CropPosition::Full, wide_blur())
    }
}

fn wide_blur_exec() -> (r: Vec<Rect>)
    ensures
        r@ == wide_blur(),
{
    let r = vec![[40u32, 1054u32, 330u32, 22u32], [1733u32, 1058u32, 140u32, 22u32]];
    assert(r@ =~= wide_blur());
    r
}

fn corner_blur_exec() -> (r: Vec<Rect>)
    ensures
        r@ == corner_blur(),
{
    let r = vec![[1733u32, 1058u32, 140u32, 22u32]];
    assert(r@ =~= corner_blur());
    r
}

fn corner_layer(crop_height: u32) -> (r: LayerConfig)
    ensures
        layer_is(r, crop_height, CropPosition::Bottom, corner_blur()),
{
    LayerConfig { crop_height, crop_position: CropPosition::Bottom, blur: corner_blur_exec() }
}

impl TomlConfig {
    /// The built-in default profile, used when no configuration is stored.
    pub fn default_for() -> (r: TomlConfig)
        ensures
            is_default_profile(r),
    {
        let folder_name = FolderNameSection {
            background: String::from_str("CS-Background"),
            center: String::from_str("CS-Center"),
            cutscene: String::from_str("CS-Cutscene"),
            foreground0: String::from_str("CS-Foreground-0"),
            foreground1: String::from_str("CS-Foreground-1"),
            foreground2: String::from_str("CS-Foreground-2"),
            foreground3: String::from_str("CS-Foreground-3"),
            foreground4: String::from_str("CS-Foreground-4"),
            foreground5: String::from_str("CS-Foreground-5"),
            full: String::from_str("CS-Full"),
        };
        let cutscene_blur = vec![[1781u32, 929u32, 110u32, 16u32]];
        assert(cutscene_blur@ =~= seq![[1781u32, 929u32, 110u32, 16u32]]);
        let center_blur: Vec<Rect> = Vec::new();
        assert(center_blur@ =~= Seq::<Rect>::empty());
        let wuwa = WuWaSection {
            background: LayerConfig {
                crop_height: 360,
                crop_position: CropPosition::Bottom,
                blur: wide_blur_exec(),
            },
            center: LayerConfig {
                crop_height: 200,
                crop_position: CropPosition::Center,
                blur: center_blur,
            },
            cutscene: LayerConfig {
                crop_height: 810,
                crop_position: CropPosition::Center,
                blur: cutscene_blur,
            },
            foreground0: corner_layer(310),
            foreground1: corner_layer(420),
            foreground2: corner_layer(505),
            foreground3: corner_layer(580),
            foreground4: corner_layer(655),
            foreground5: corner_layer(730),
            full: LayerConfig { crop_height: 0, crop_position: CropPosition::Full, blur: wide_blur_exec() },
        };
        TomlConfig {
            general: GeneralSection { folder_name },
            game: GameSection { wuwa: Some(wuwa) },
        }
    }
}

impl Default for TomlConfig {
    fn default() -> (r: TomlConfig)
        ensures
            is_default_profile(r),
    {
        TomlConfig::default_for()
    }
}

} // verus!
