use vstd::prelude::*;
use vstd::string::*;
use crate::config::TomlConfig;
use crate::enums::{Game, Operation};
use crate::options::{merge_options, resolve, JobView, MergedOption, Options, ResolveError};

verus! {

/// The operations that own a subdirectory, in the order a fan-out visits them.
pub open spec fn named_operations_spec() -> Seq<Operation> {
    seq![
        Operation::Background,
        Operation::Center,
        Operation::Cutscene,
        Operation::Foreground0,
        Operation::Foreground1,
        Operation::Foreground2,
        Operation::Foreground3,
        Operation::Foreground4,
        Operation::Foreground5,
        Operation::Full,
    ]
}

/// The operations that own a subdirectory, visited by `All` and `CreateDirectory`.
pub fn named_operations() -> (r: Vec<Operation>)
    ensures
        r@ == named_operations_spec(),
{
    let r = vec![
        Operation::Background,
        Operation::Center,
        Operation::Cutscene,
        Operation::Foreground0,
        Operation::Foreground1,
        Operation::Foreground2,
        Operation::Foreground3,
        Operation::Foreground4,
        Operation::Foreground5,
        Operation::Full,
    ];
    assert(r@ =~= named_operations_spec());
    r
}

/// Which directory a single operation works on.
#[derive(Clone, Copy, Debug, PartialEq, Eq, Structural)]
pub enum DirChoice {
    /// The operation's named subdirectory of the target.
    Subfolder,
    /// The target directory itself.
    Target,
}

/// Prefers the operation's subdirectory when it exists and holds an image,
/// else the target when it holds one; `None` when neither does.
pub fn choose_directory(subfolder_has_images: bool, target_has_images: bool) -> (r: Option<
    DirChoice,
>)
    ensures
        subfolder_has_images ==> r == Some(DirChoice::Subfolder),
        !subfolder_has_images && target_has_images ==> r == Some(DirChoice::Target),
        !subfolder_has_images && !target_has_images ==> r is None,
{
    if subfolder_has_images {
        Some(DirChoice::Subfolder)
    } else if target_has_images {
        Some(DirChoice::Target)
    } else {
        None
    }
}

/// What a fan-out found at an operation's subdirectory.
#[derive(Clone, Copy, Debug, PartialEq, Eq, Structural)]
pub enum SubdirState {
    Missing,
    Empty,
    HasImages,
}

/// What a fan-out does with one subdirectory.
pub enum SubdirAction {
    /// Nothing: the subdirectory does not exist.
    Skip,
    /// Delete the subdirectory: it exists but holds no image.
    Remove,
    /// Run this job, whose output goes beside the sibling subdirectories.
    Run(MergedOption),
}

/// The fan-out's decision for the subdirectory `sub_target` of `op`: skip a
/// missing one, remove an empty one, and resolve a job for one with images.
pub fn plan_subdir(
    opt: &Options,
    config: &TomlConfig,
    sub_target: &str,
    game: Game,
    op: Operation,
    state: SubdirState,
) -> (r: Result<SubdirAction, ResolveError>)
    ensures
        state == SubdirState::Missing ==> r matches Ok(SubdirAction::Skip),
        state == SubdirState::Empty ==> r matches Ok(SubdirAction::Remove),
        state == SubdirState::HasImages ==> match r {
            Ok(SubdirAction::Run(m)) => resolve(*opt, *config, sub_target@, game, op, true)
                == Ok::<JobView, ResolveError>(m@),
            Ok(_) => false,
            Err(e) => resolve(*opt, *config, sub_target@, game, op, true) == Err::<
                JobView,
                ResolveError,
            >(e),
        },
{
    match state {
        SubdirState::Missing => Ok(SubdirAction::Skip),
        SubdirState::Empty => Ok(SubdirAction::Remove),
        SubdirState::HasImages => match merge_options(opt, config, sub_target, game, op, true) {
            Ok(m) => Ok(SubdirAction::Run(m)),
            Err(e) => Err(e),
        },
    }
}

/// Where a job writes its output, relative to its target directory.
pub enum OutputDir {
    /// The target's parent directory, beside the sibling subdirectories.
    Parent,
    /// A directory beside the target with this name.
    Sibling(String),
    /// A subdirectory of the target with this name.
    Subfolder(String),
}

/// Output placement: a fan-out member writes into the target's parent when
/// that parent is not a root, else into `<name>-converted` beside the target;
/// a standalone job writes into the target's `converted` subfolder.
pub fn output_dir(save_at_parent: bool, parent_has_parent: bool, target_name: &str) -> (r: OutputDir)
    ensures
        save_at_parent && parent_has_parent ==> r is Parent,
        save_at_parent && !parent_has_parent ==> (r matches OutputDir::Sibling(n) && n@
            == target_name@ + "-converted"@),
        !save_at_parent ==> (r matches OutputDir::Subfolder(n) && n@ == "converted"@),
{
    if save_at_parent {
        if parent_has_parent {
            OutputDir::Parent
        } else {
            let name = target_name.to_owned().concat("-converted");
            OutputDir::Sibling(name)
        }
    } else {
        OutputDir::Subfolder(String::from_str("converted"))
    }
}

} // verus!
