use convert_screenshot::config::TomlConfig;
use convert_screenshot::dispatch::{
    choose_directory, named_operations, output_dir, plan_subdir, DirChoice, OutputDir, SubdirAction,
    SubdirState,
};
use convert_screenshot::enums::{CropPosition, Game, Operation};
use convert_screenshot::options::{merge_options, validate_game, Options, ResolveError};

fn no_overrides(op: Operation, game: Game) -> Options {
    Options {
        operation: op,
        target: "shots".to_string(),
        blur: None,
        crop_height: None,
        crop_pos: None,
        game,
        width_from: None,
        width_to: None,
    }
}

const REGION_OPS: [Operation; 9] = [
    Operation::Background,
    Operation::Center,
    Operation::Cutscene,
    Operation::Foreground0,
    Operation::Foreground1,
    Operation::Foreground2,
    Operation::Foreground3,
    Operation::Foreground4,
    Operation::Foreground5,
];

#[test]
fn default_profile_values() {
    let c = TomlConfig::default_for();
    assert_eq!(c.folder_name(Operation::Background).unwrap(), "CS-Background");
    assert_eq!(c.folder_name(Operation::Foreground5).unwrap(), "CS-Foreground-5");
    assert_eq!(c.folder_name(Operation::Full).unwrap(), "CS-Full");
    assert!(c.folder_name(Operation::All).is_none());
    assert!(c.folder_name(Operation::CreateDirectory).is_none());
    assert_eq!(c.crop_height(Game::WuWa, Operation::Background), 360);
    assert_eq!(c.crop_height(Game::WuWa, Operation::Cutscene), 810);
    assert_eq!(c.crop_height(Game::WuWa, Operation::Foreground4), 655);
    assert_eq!(c.crop_height(Game::Unset, Operation::Background), 0);
    assert_eq!(c.crop_height_for(Game::WuWa, Operation::Center), Some(200));
    assert_eq!(c.crop_height_for(Game::Unset, Operation::Center), None);
    assert_eq!(c.crop_height_for(Game::WuWa, Operation::All), None);
    assert_eq!(c.crop_position(Game::WuWa, Operation::Cutscene), Some(CropPosition::Center));
    assert_eq!(c.crop_position(Game::WuWa, Operation::Full), Some(CropPosition::Full));
    assert_eq!(c.blur(Game::WuWa, Operation::Background), vec![[40, 1054, 330, 22], [1733, 1058, 140, 22]]);
    assert_eq!(c.blur(Game::WuWa, Operation::Foreground0), vec![[1733, 1058, 140, 22]]);
    assert!(c.blur(Game::WuWa, Operation::Center).is_empty());
    assert!(c.blur(Game::Unset, Operation::Background).is_empty());
    let d = TomlConfig::default();
    assert_eq!(d.crop_height(Game::WuWa, Operation::Foreground2), 505);
}

#[test]
fn unset_game_rejects_region_operations() {
    let c = TomlConfig::default_for();
    for op in REGION_OPS {
        let o = no_overrides(op, Game::Unset);
        assert!(matches!(merge_options(&o, &c, "d", Game::Unset, op, false), Err(ResolveError::GameRequired)));
        assert_eq!(validate_game(Game::Unset, op), Err(ResolveError::GameRequired));
    }
    for op in [Operation::All, Operation::CreateDirectory, Operation::Full] {
        assert_eq!(validate_game(Game::Unset, op), Ok(()));
        let o = no_overrides(op, Game::Unset);
        assert!(merge_options(&o, &c, "d", Game::Unset, op, false).is_ok());
    }
}

#[test]
fn frame_wide_operations_never_crop() {
    let c = TomlConfig::default_for();
    for op in [Operation::All, Operation::CreateDirectory, Operation::Full] {
        for game in [Game::Unset, Game::WuWa] {
            let mut o = no_overrides(op, game);
            o.crop_height = Some(77);
            let m = merge_options(&o, &c, "d", game, op, false).unwrap();
            assert_eq!(m.crop_height, 0);
        }
    }
}

#[test]
fn crop_height_override_wins() {
    let c = TomlConfig::default_for();
    let mut o = no_overrides(Operation::Background, Game::WuWa);
    o.crop_height = Some(500);
    let m = merge_options(&o, &c, "d", Game::WuWa, Operation::Background, false).unwrap();
    assert_eq!(m.crop_height, 500);
    let o2 = no_overrides(Operation::Background, Game::WuWa);
    let m2 = merge_options(&o2, &c, "d", Game::WuWa, Operation::Background, false).unwrap();
    assert_eq!(m2.crop_height, 360);
}

#[test]
fn blur_override_replaces_profile_list() {
    let c = TomlConfig::default_for();
    let mut o = no_overrides(Operation::Background, Game::WuWa);
    o.blur = Some(vec![[1, 2, 3, 4]]);
    let m = merge_options(&o, &c, "d", Game::WuWa, Operation::Background, false).unwrap();
    assert_eq!(m.blur, vec![[1, 2, 3, 4]]);
    o.blur = Some(Vec::new());
    let m = merge_options(&o, &c, "d", Game::WuWa, Operation::Background, false).unwrap();
    assert!(m.blur.is_empty());
}

#[test]
fn width_overrides_are_paired() {
    let c = TomlConfig::default_for();
    let mut o = no_overrides(Operation::Background, Game::WuWa);
    o.width_from = Some(2560);
    let m = merge_options(&o, &c, "d", Game::WuWa, Operation::Background, false).unwrap();
    assert_eq!((m.width_from, m.width_to), (1920, 1280));
    o.width_from = None;
    o.width_to = Some(640);
    let m = merge_options(&o, &c, "d", Game::WuWa, Operation::Background, false).unwrap();
    assert_eq!((m.width_from, m.width_to), (1920, 1280));
    o.width_from = Some(2560);
    let m = merge_options(&o, &c, "d", Game::WuWa, Operation::Background, false).unwrap();
    assert_eq!((m.width_from, m.width_to), (2560, 640));
    let mut u = no_overrides(Operation::Full, Game::Unset);
    u.width_to = Some(640);
    let m = merge_options(&u, &c, "d", Game::Unset, Operation::Full, false).unwrap();
    assert_eq!((m.width_from, m.width_to), (0, 0));
}

#[test]
fn crop_position_precedence() {
    let c = TomlConfig::default_for();
    let mut o = no_overrides(Operation::Cutscene, Game::WuWa);
    let m = merge_options(&o, &c, "d", Game::WuWa, Operation::Cutscene, false).unwrap();
    assert_eq!(m.crop_pos, CropPosition::Center);
    o.crop_pos = Some(CropPosition::Bottom);
    let m = merge_options(&o, &c, "d", Game::WuWa, Operation::Cutscene, false).unwrap();
    assert_eq!(m.crop_pos, CropPosition::Bottom);
    let u = no_overrides(Operation::Full, Game::Unset);
    let m = merge_options(&u, &c, "d", Game::Unset, Operation::Full, false).unwrap();
    assert_eq!(m.crop_pos, CropPosition::Full);
    let a = no_overrides(Operation::All, Game::Unset);
    let m = merge_options(&a, &c, "d", Game::Unset, Operation::All, true).unwrap();
    assert_eq!(m.crop_pos, CropPosition::Bottom);
}

#[test]
fn missing_profile_needs_crop_height() {
    let mut c = TomlConfig::default_for();
    c.game.wuwa = None;
    let o = no_overrides(Operation::Center, Game::WuWa);
    assert!(matches!(
        merge_options(&o, &c, "d", Game::WuWa, Operation::Center, false),
        Err(ResolveError::MissingCropHeight)
    ));
    let mut o2 = no_overrides(Operation::Center, Game::WuWa);
    o2.crop_height = Some(100);
    let m = merge_options(&o2, &c, "d", Game::WuWa, Operation::Center, false).unwrap();
    assert_eq!(m.crop_height, 100);
    assert_eq!(m.crop_pos, CropPosition::Center);
    assert!(m.blur.is_empty());
}

#[test]
fn merged_option_fields_carried() {
    let c = TomlConfig::default_for();
    let o = no_overrides(Operation::Foreground1, Game::WuWa);
    let m = merge_options(&o, &c, "/x/CS-Foreground-1", Game::WuWa, Operation::Foreground1, true).unwrap();
    assert_eq!(m.target, "/x/CS-Foreground-1");
    assert!(m.save_at_parent);
    assert_eq!(m.operation, Operation::Foreground1);
    assert_eq!(m.game, Game::WuWa);
    assert_eq!(m.crop_height, 420);
    assert_eq!(m.crop_pos, CropPosition::Bottom);
    assert_eq!(m.blur, vec![[1733, 1058, 140, 22]]);
}

#[test]
fn blur_and_resize_predicates() {
    let c = TomlConfig::default_for();
    let o = no_overrides(Operation::Background, Game::WuWa);
    let m = merge_options(&o, &c, "d", Game::WuWa, Operation::Background, false).unwrap();
    assert!(m.should_blur(1920));
    assert!(!m.should_blur(1280));
    assert!(m.should_resize(1920));
    assert!(!m.should_resize(2560));
    let f = no_overrides(Operation::Full, Game::WuWa);
    let mf = merge_options(&f, &c, "d", Game::WuWa, Operation::Full, false).unwrap();
    assert!(mf.should_resize(1281));
    assert!(!mf.should_resize(1280));
    let u = no_overrides(Operation::Full, Game::Unset);
    let mu = merge_options(&u, &c, "d", Game::Unset, Operation::Full, false).unwrap();
    assert!(!mu.should_blur(0));
    assert!(!mu.should_blur(1920));
    assert_eq!(mu.width_to, 0);
    assert!(!mu.should_resize(100));
    assert!(!mu.should_resize(1920));
    let ce = no_overrides(Operation::Center, Game::WuWa);
    let mc = merge_options(&ce, &c, "d", Game::WuWa, Operation::Center, false).unwrap();
    assert!(!mc.should_blur(1920));
}

#[test]
fn fan_out_removes_empty_subdirectory() {
    let c = TomlConfig::default_for();
    let o = no_overrides(Operation::All, Game::WuWa);
    let r = plan_subdir(&o, &c, "t/CS-Center", Game::WuWa, Operation::Center, SubdirState::Empty);
    assert!(matches!(r, Ok(SubdirAction::Remove)));
    let r = plan_subdir(&o, &c, "t/CS-Center", Game::WuWa, Operation::Center, SubdirState::Missing);
    assert!(matches!(r, Ok(SubdirAction::Skip)));
    match plan_subdir(&o, &c, "t/CS-Center", Game::WuWa, Operation::Center, SubdirState::HasImages) {
        Ok(SubdirAction::Run(m)) => {
            assert!(m.save_at_parent);
            assert_eq!(m.target, "t/CS-Center");
            assert_eq!(m.crop_height, 200);
        },
        _ => panic!("expected a job"),
    }
    let u = no_overrides(Operation::All, Game::Unset);
    let r = plan_subdir(&u, &c, "t/CS-Center", Game::Unset, Operation::Center, SubdirState::HasImages);
    assert!(matches!(r, Err(ResolveError::GameRequired)));
}

#[test]
fn named_operations_in_order() {
    let ops = named_operations();
    assert_eq!(ops.len(), 10);
    assert_eq!(ops[0], Operation::Background);
    assert_eq!(ops[2], Operation::Cutscene);
    assert_eq!(ops[9], Operation::Full);
    assert!(!ops.contains(&Operation::All));
}

#[test]
fn directory_choice() {
    assert_eq!(choose_directory(true, true), Some(DirChoice::Subfolder));
    assert_eq!(choose_directory(true, false), Some(DirChoice::Subfolder));
    assert_eq!(choose_directory(false, true), Some(DirChoice::Target));
    assert_eq!(choose_directory(false, false), None);
}

#[test]
fn output_placement() {
    assert!(matches!(output_dir(true, true, "CS-Full"), OutputDir::Parent));
    match output_dir(true, false, "CS-Full") {
        OutputDir::Sibling(n) => assert_eq!(n, "CS-Full-converted"),
        _ => panic!("expected a sibling"),
    }
    match output_dir(false, true, "shots") {
        OutputDir::Subfolder(n) => assert_eq!(n, "converted"),
        _ => panic!("expected a subfolder"),
    }
}
