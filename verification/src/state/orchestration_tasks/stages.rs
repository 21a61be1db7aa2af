//! The stages of a deployment: which guests each stage asks the testbed hosts to act on.

use vstd::prelude::*;
use crate::orchestration::{common_wf, names_unique, OrchestrationCommon};
use crate::state::{State, StateTestbedGuestList};
use crate::state::orchestration_tasks::guests::{get_master_testbed_name, master_index, master_name};
use crate::state::schema::guest::{StateGuestType, StateTestbedGuest};

verus! {

/// A stage of deploying or destroying the guests.
#[derive(Debug, Clone, Copy, PartialEq, Eq)]
pub enum GuestStage {
    Deploy,
    Destroy,
    SetupBackingImage,
    SetupLinkedClones,
    PushGuestImages,
    PushBackingGuestImages,
    RebaseCloneImages,
    RunGuestSetupScripts,
}

/// A libvirt guest that is a linked clone of a backing image.
pub open spec fn is_clone(g: StateTestbedGuest) -> bool {
    match g.guest_type.guest_type {
        StateGuestType::Libvirt(l) => l.is_clone_of is Some,
        _ => false,
    }
}

/// A guest placed on a host other than the master.
pub open spec fn on_remote_host(g: StateTestbedGuest, master: Seq<char>) -> bool {
    match g.testbed_host {
        Some(h) => h@ != master,
        None => false,
    }
}

/// Whether a stage acts on a guest. Deploying and destroying act on every guest except backing
/// images and the templates of scaled containers and devices; setting up backing images acts on
/// backing images; setting up clones, pushing backing images (to remote hosts) and rebasing
/// (on remote hosts) act on clones; pushing images acts on libvirt and docker guests; running
/// setup scripts acts on libvirt guests.
pub open spec fn stage_selects(stage: GuestStage, g: StateTestbedGuest, master: Seq<char>) -> bool {
    match stage {
        GuestStage::Deploy | GuestStage::Destroy => match g.guest_type.guest_type {
            StateGuestType::Libvirt(_) => !g.is_golden_image,
            StateGuestType::Docker(d) => d.scaling is None,
            StateGuestType::Android(a) => a.scaling is None,
        },
        GuestStage::SetupBackingImage => g.is_golden_image && g.guest_type.guest_type is Libvirt,
        GuestStage::SetupLinkedClones => is_clone(g),
        GuestStage::PushGuestImages => g.guest_type.guest_type is Libvirt || g.guest_type.guest_type is Docker,
        GuestStage::PushBackingGuestImages => is_clone(g) && on_remote_host(g, master),
        GuestStage::RebaseCloneImages => on_remote_host(g, master) && is_clone(g),
        GuestStage::RunGuestSetupScripts => g.guest_type.guest_type is Libvirt,
    }
}

/// What a stage needs of the guests: backing images are libvirt guests; pushing backing images
/// needs libvirt guests placed; rebasing needs every guest placed.
pub open spec fn stage_ready(stage: GuestStage, g: StateTestbedGuest) -> bool {
    match stage {
        GuestStage::SetupBackingImage => g.is_golden_image ==> g.guest_type.guest_type is Libvirt,
        GuestStage::PushBackingGuestImages => g.guest_type.guest_type is Libvirt ==> g.testbed_host is Some,
        GuestStage::RebaseCloneImages => g.testbed_host is Some,
        _ => true,
    }
}

/// The positions of the guests a stage acts on, in order.
pub open spec fn stage_positions(list: Seq<(String, StateTestbedGuest)>, stage: GuestStage, master: Seq<char>) -> Seq<int>
    decreases list.len(),
{
    if list.len() == 0 {
        Seq::empty()
    } else {
        let rest = stage_positions(list.drop_last(), stage, master);
        if stage_selects(stage, list.last().1, master) { rest.push(list.len() - 1) } else { rest }
    }
}

/// Positions as integers.
pub open spec fn as_ints(v: Seq<usize>) -> Seq<int> {
    v.map_values(|x: usize| x as int)
}

/// The positions of the guests a stage acts on (see [`stage_selects`]); `master` is the name of
/// the master host.
pub fn stage_guests(list: &StateTestbedGuestList, stage: GuestStage, master: &String) -> (r: Vec<usize>)
    requires
        forall|i: int| 0 <= i < list.0@.len() ==> stage_ready(stage, #[trigger] list.0@[i].1),
    ensures
        as_ints(r@) == stage_positions(list.0@, stage, master@),
{
    let mut r: Vec<usize> = Vec::new();
    let mut i: usize = 0;
    while i < list.0.len()
        invariant
            i <= list.0@.len(),
            forall|k: int| 0 <= k < list.0@.len() ==> stage_ready(stage, #[trigger] list.0@[k].1),
            as_ints(r@) == stage_positions(list.0@.subrange(0, i as int), stage, master@),
        decreases list.0@.len() - i,
    {
        let g = &list.0[i].1;
        proof {
            assert(list.0@.subrange(0, i + 1).drop_last() =~= list.0@.subrange(0, i as int));
            assert(stage_ready(stage, list.0@[i as int].1));
        }
        let remote = match &g.testbed_host {
            Some(h) => *h != *master,
            None => false,
        };
        let clone = match &g.guest_type.guest_type {
            StateGuestType::Libvirt(l) => l.is_clone_of.is_some(),
            _ => false,
        };
        let selected = match stage {
            GuestStage::Deploy | GuestStage::Destroy => match &g.guest_type.guest_type {
                StateGuestType::Libvirt(_) => !g.is_golden_image,
                StateGuestType::Docker(d) => d.scaling.is_none(),
                StateGuestType::Android(a) => a.scaling.is_none(),
            },
            GuestStage::SetupBackingImage => g.is_golden_image && match &g.guest_type.guest_type {
                StateGuestType::Libvirt(_) => true,
                _ => false,
            },
            GuestStage::SetupLinkedClones => clone,
            GuestStage::PushGuestImages => match &g.guest_type.guest_type {
                StateGuestType::Libvirt(_) => true,
                StateGuestType::Docker(_) => true,
                StateGuestType::Android(_) => false,
            },
            GuestStage::PushBackingGuestImages => clone && remote,
            GuestStage::RebaseCloneImages => remote && clone,
            GuestStage::RunGuestSetupScripts => match &g.guest_type.guest_type {
                StateGuestType::Libvirt(_) => true,
                _ => false,
            },
        };
        let ghost before = r@;
        if selected {
            r.push(i);
            proof { assert(as_ints(r@) =~= as_ints(before).push(i as int)); }
        }
        i = i + 1;
    }
    proof { assert(list.0@.subrange(0, list.0@.len() as int) =~= list.0@); }
    r
}

/// The guests deployed: all but backing images and the templates of scaled containers and
/// devices.
pub fn deploy_guest_stage(state: &State) -> (r: Vec<usize>)
    ensures
        as_ints(r@) == stage_positions(state.testbed_guests.0@, GuestStage::Deploy, Seq::empty()),
{
    stage_guests(&state.testbed_guests, GuestStage::Deploy, &String::new())
}

/// The guests destroyed: the same guests as are deployed.
pub fn destroy_guest_stage(state: &State) -> (r: Vec<usize>)
    ensures
        as_ints(r@) == stage_positions(state.testbed_guests.0@, GuestStage::Destroy, Seq::empty()),
{
    stage_guests(&state.testbed_guests, GuestStage::Destroy, &String::new())
}

/// The backing images set up; every backing image must be a libvirt guest.
pub fn setup_backing_image_stage(state: &State) -> (r: Vec<usize>)
    requires
        forall|i: int| 0 <= i < state.testbed_guests.0@.len() ==> stage_ready(GuestStage::SetupBackingImage, #[trigger] state.testbed_guests.0@[i].1),
    ensures
        as_ints(r@) == stage_positions(state.testbed_guests.0@, GuestStage::SetupBackingImage, Seq::empty()),
{
    stage_guests(&state.testbed_guests, GuestStage::SetupBackingImage, &String::new())
}

/// The linked clones set up.
pub fn setup_linked_clones_stage(state: &State) -> (r: Vec<usize>)
    ensures
        as_ints(r@) == stage_positions(state.testbed_guests.0@, GuestStage::SetupLinkedClones, Seq::empty()),
{
    stage_guests(&state.testbed_guests, GuestStage::SetupLinkedClones, &String::new())
}

/// The guests whose images are pushed to their hosts: libvirt and docker guests.
pub fn push_guest_images_stage(state: &State) -> (r: Vec<usize>)
    ensures
        as_ints(r@) == stage_positions(state.testbed_guests.0@, GuestStage::PushGuestImages, Seq::empty()),
{
    stage_guests(&state.testbed_guests, GuestStage::PushGuestImages, &String::new())
}

/// The clones whose backing image is pushed to their host: clones on hosts other than the
/// master. Every libvirt guest must be placed.
pub fn push_backing_guest_images_stage(state: &State, common: &OrchestrationCommon) -> (r: Vec<usize>)
    requires
        master_index(*common) is Some,
        forall|i: int| 0 <= i < state.testbed_guests.0@.len() ==> stage_ready(GuestStage::PushBackingGuestImages, #[trigger] state.testbed_guests.0@[i].1),
    ensures
        as_ints(r@) == stage_positions(state.testbed_guests.0@, GuestStage::PushBackingGuestImages, master_name(*common)),
{
    let master = get_master_testbed_name(common);
    stage_guests(&state.testbed_guests, GuestStage::PushBackingGuestImages, &master)
}

/// The clones rebased onto their backing image: clones on hosts other than the master. Every
/// guest must be placed.
pub fn rebase_clone_images_stage(state: &State, common: &OrchestrationCommon) -> (r: Vec<usize>)
    requires
        master_index(*common) is Some,
        forall|i: int| 0 <= i < state.testbed_guests.0@.len() ==> stage_ready(GuestStage::RebaseCloneImages, #[trigger] state.testbed_guests.0@[i].1),
    ensures
        as_ints(r@) == stage_positions(state.testbed_guests.0@, GuestStage::RebaseCloneImages, master_name(*common)),
{
    let master = get_master_testbed_name(common);
    stage_guests(&state.testbed_guests, GuestStage::RebaseCloneImages, &master)
}

/// The guests whose setup scripts are run: libvirt guests.
pub fn run_guest_setup_scripts_stage(state: &State) -> (r: Vec<usize>)
    ensures
        as_ints(r@) == stage_positions(state.testbed_guests.0@, GuestStage::RunGuestSetupScripts, Seq::empty()),
{
    stage_guests(&state.testbed_guests, GuestStage::RunGuestSetupScripts, &String::new())
}

} // verus!
