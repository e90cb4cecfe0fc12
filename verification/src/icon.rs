//! The search for the tray icon's image.
//!
//! The candidates are tried in order. The caller carries out each step and
//! hands back what came of it.

use vstd::prelude::*;

use crate::wide;
use crate::wide::with_terminator;
use crate::win32::{IDI_APPLICATION, IMAGE_ICON, LR_DEFAULTSIZE, LR_LOADFROMFILE, LR_SHARED};

verus! {

/// The name of the icon's file.
pub const ICON_FILE: &'static str = "icon.ico";

/// What to do next. Candidates are given by their index.
#[derive(Clone, Copy, Debug, PartialEq, Eq, Structural)]
pub enum IconStep {
    /// See whether the candidate's file exists.
    Check { index: usize },
    /// Load the candidate's image, as [`image_request`] says.
    Load { index: usize },
    /// Load an icon that the system holds under a resource number.
    LoadDefault { resource: usize },
    /// The search has ended with this handle.
    Use { icon: isize },
}

/// How an image is loaded.
#[derive(Debug, PartialEq, Eq)]
pub struct ImageRequest {
    /// The zero-terminated path.
    pub name: Vec<u16>,
    pub kind: u32,
    pub width: i32,
    pub height: i32,
    pub flags: u32,
}

/// How an image is loaded, with its name as a sequence.
#[verifier::ext_equal]
pub struct ImageRequestView {
    pub name: Seq<u16>,
    pub kind: u32,
    pub width: i32,
    pub height: i32,
    pub flags: u32,
}

impl View for ImageRequest {
    type V = ImageRequestView;

    open spec fn view(&self) -> ImageRequestView {
        ImageRequestView {
            name: self.name@,
            kind: self.kind,
            width: self.width,
            height: self.height,
            flags: self.flags,
        }
    }
}

/// The request for the image at `path`.
pub open spec fn request_for(path: Seq<u16>) -> ImageRequestView {
    ImageRequestView {
        name: path.push(0),
        kind: IMAGE_ICON,
        width: 16,
        height: 16,
        flags: LR_LOADFROMFILE | LR_DEFAULTSIZE | LR_SHARED,
    }
}

/// The request that loads a candidate: its path as UTF-16 with one terminator
/// behind, read from the file as a shared icon of 16 by 16 pixels.
pub fn image_request(path: Vec<u16>) -> (request: ImageRequest)
    ensures
        request.name@ == path@.push(0),
        request.kind == IMAGE_ICON,
        request.width == 16,
        request.height == 16,
        request.flags == LR_LOADFROMFILE | LR_DEFAULTSIZE | LR_SHARED,
        request@ == request_for(path@),
{
    ImageRequest {
        name: with_terminator(path),
        kind: IMAGE_ICON,
        width: 16,
        height: 16,
        flags: LR_LOADFROMFILE | LR_DEFAULTSIZE | LR_SHARED,
    }
}

/// The paths at which an icon may be found, the most specific first.
///
/// Each argument is the icon's path in a directory, as far as the directory is
/// known: that of the executable, and the working directory.
pub fn icon_path_candidates<P>(beside_executable: Option<P>, in_working_dir: Option<P>) -> (paths:
    Vec<P>)
    ensures
        paths@ == known(beside_executable) + known(in_working_dir),
{
    let mut paths: Vec<P> = Vec::new();
    if let Some(path) = beside_executable {
        paths.push(path);
    }
    if let Some(path) = in_working_dir {
        paths.push(path);
    }
    paths
}

/// What is known, as a sequence.
pub open spec fn known<P>(path: Option<P>) -> Seq<P> {
    match path {
        Some(p) => seq![p],
        None => seq![],
    }
}

/// The step that turns to the candidate `index`, or to the default icon after
/// the last one.
pub open spec fn turn_to(count: usize, index: int) -> IconStep {
    if index < count {
        IconStep::Check { index: index as usize }
    } else {
        IconStep::LoadDefault { resource: IDI_APPLICATION }
    }
}

/// Whether loading an image gave a handle that can be used.
pub open spec fn usable(loaded: Option<isize>) -> bool {
    loaded is Some && loaded->0 != 0
}

/// The step after it was seen whether the candidate `index` is present.
pub open spec fn checked(count: usize, index: usize, found: bool) -> IconStep {
    if found {
        IconStep::Load { index }
    } else {
        turn_to(count, index + 1)
    }
}

/// The step after an attempt to load the candidate `index`.
pub open spec fn tried(count: usize, index: usize, loaded: Option<isize>) -> IconStep {
    if usable(loaded) {
        IconStep::Use { icon: loaded->0 }
    } else {
        turn_to(count, index + 1)
    }
}

/// The handle that stands for the outcome of loading the default icon: without
/// it there is no icon, which the handle 0 stands for.
pub open spec fn default_handle(loaded: Option<isize>) -> isize {
    match loaded {
        Some(icon) => icon,
        None => 0,
    }
}

/// The first step of a search among `count` candidates.
pub fn first_step(count: usize) -> (step: IconStep)
    ensures
        step == turn_to(count, 0),
{
    if 0 < count {
        IconStep::Check { index: 0 }
    } else {
        IconStep::LoadDefault { resource: IDI_APPLICATION }
    }
}

/// The step after the candidate `index` of `count`.
fn next_candidate(count: usize, index: usize) -> (step: IconStep)
    requires
        index < count,
    ensures
        step == turn_to(count, index + 1),
{
    if index + 1 < count {
        IconStep::Check { index: index + 1 }
    } else {
        IconStep::LoadDefault { resource: IDI_APPLICATION }
    }
}

/// The step after it was seen whether the candidate `index` exists.
pub fn after_check(count: usize, index: usize, found: bool) -> (step: IconStep)
    requires
        index < count,
    ensures
        step == checked(count, index, found),
{
    if found {
        IconStep::Load { index }
    } else {
        next_candidate(count, index)
    }
}

/// The step after an attempt to load the candidate `index`.
pub fn after_load(count: usize, index: usize, loaded: Option<isize>) -> (step: IconStep)
    requires
        index < count,
    ensures
        step == tried(count, index, loaded),
{
    if let Some(icon) = loaded {
        if icon != 0 {
            return IconStep::Use { icon };
        }
    }
    next_candidate(count, index)
}

/// The step after an attempt to load the default icon, which is the last.
pub fn after_default(loaded: Option<isize>) -> (step: IconStep)
    ensures
        step == (IconStep::Use { icon: default_handle(loaded) }),
{
    match loaded {
        Some(icon) => IconStep::Use { icon },
        None => IconStep::Use { icon: 0 },
    }
}

/// How the outside answers: which candidates are present, and what loading gives.
pub struct Files {
    pub present: spec_fn(int) -> bool,
    pub load: spec_fn(int) -> Option<isize>,
    pub default: Option<isize>,
}

/// The handle that a search ends with once it is at `step`. An index beyond the
/// candidates does not occur in a search.
pub open spec fn search(files: Files, count: usize, step: IconStep) -> isize
    decreases
            match step {
                IconStep::Check { index } => 2 * (count - index) + 2,
                IconStep::Load { index } => 2 * (count - index) + 1,
                IconStep::LoadDefault { .. } => 1,
                IconStep::Use { .. } => 0,
            },
{
    match step {
        IconStep::Check { index } => if index < count {
            search(files, count, checked(count, index, (files.present)(index as int)))
        } else {
            0
        },
        IconStep::Load { index } => if index < count {
            search(files, count, tried(count, index, (files.load)(index as int)))
        } else {
            0
        },
        IconStep::LoadDefault { .. } => default_handle(files.default),
        IconStep::Use { icon } => icon,
    }
}

/// Whether the candidate `index` exists and can be loaded.
pub open spec fn good(files: Files, index: int) -> bool {
    (files.present)(index) && usable((files.load)(index))
}

proof fn lemma_search_from(files: Files, count: usize, start: int, index: int)
    requires
        0 <= start <= index < count,
        good(files, index),
        forall|i: int| start <= i < index ==> !#[trigger] good(files, i),
    ensures
        search(files, count, turn_to(count, start)) == (files.load)(index)->0,
    decreases index - start,
{
    reveal_with_fuel(search, 3);
    if start < index {
        assert(!good(files, start));
        lemma_search_from(files, count, start + 1, index);
    }
}

proof fn lemma_search_fails(files: Files, count: usize, start: int)
    requires
        0 <= start <= count,
        forall|i: int| start <= i < count ==> !#[trigger] good(files, i),
    ensures
        search(files, count, turn_to(count, start)) == default_handle(files.default),
    decreases count - start,
{
    reveal_with_fuel(search, 3);
    if start < count {
        assert(!good(files, start));
        lemma_search_fails(files, count, start + 1);
    }
}

/// The search ends with the first candidate that exists and can be loaded.
pub proof fn law_first_good_candidate_is_used(files: Files, count: usize, index: int)
    requires
        0 <= index < count,
        good(files, index),
        forall|i: int| 0 <= i < index ==> !#[trigger] good(files, i),
    ensures
        search(files, count, turn_to(count, 0)) == (files.load)(index)->0,
{
    lemma_search_from(files, count, 0, index);
}

/// Where no candidate can be used, the search ends with the default icon, or
/// without an icon where that fails too.
pub proof fn law_default_is_used_last(files: Files, count: usize)
    requires
        forall|i: int| 0 <= i < count ==> !#[trigger] good(files, i),
    ensures
        search(files, count, turn_to(count, 0)) == default_handle(files.default),
{
    lemma_search_fails(files, count, 0);
}

/// The steps of a search from `step` to its end.
pub open spec fn trace(files: Files, count: usize, step: IconStep) -> Seq<IconStep>
    decreases
            match step {
                IconStep::Check { index } => 2 * (count - index) + 2,
                IconStep::Load { index } => 2 * (count - index) + 1,
                IconStep::LoadDefault { .. } => 1,
                IconStep::Use { .. } => 0,
            },
{
    match step {
        IconStep::Check { index } => if index < count {
            seq![step] + trace(files, count, checked(count, index, (files.present)(index as int)))
        } else {
            seq![step]
        },
        IconStep::Load { index } => if index < count {
            seq![step] + trace(files, count, tried(count, index, (files.load)(index as int)))
        } else {
            seq![step]
        },
        IconStep::LoadDefault { .. } => seq![
            step,
            IconStep::Use { icon: default_handle(files.default) },
        ],
        IconStep::Use { .. } => seq![step],
    }
}

/// The steps of a whole search among `count` candidates.
pub open spec fn steps(files: Files, count: usize) -> Seq<IconStep> {
    trace(files, count, turn_to(count, 0))
}

/// Whether the candidate `index` exists, and no candidate from `start` up to it
/// could be used.
pub open spec fn due(files: Files, start: int, index: int) -> bool {
    &&& (files.present)(index)
    &&& forall|k: int| start <= k < index ==> !#[trigger] good(files, k)
}

/// Whether a step may come in a search from the candidate `start` on.
spec fn allowed(files: Files, count: usize, start: int, step: IconStep) -> bool {
    match step {
        IconStep::Check { index } => start <= index < count,
        IconStep::Load { index } => start <= index < count && due(files, start, index as int),
        _ => true,
    }
}

/// Whether one step may come before another.
spec fn in_order(first: IconStep, second: IconStep) -> bool {
    match (first, second) {
        (IconStep::Check { index: a }, IconStep::Check { index: b }) => a < b,
        (IconStep::Load { index: a }, IconStep::Load { index: b }) => a < b,
        _ => true,
    }
}

/// The steps for the candidate `start` alone.
spec fn own_steps(files: Files, start: int) -> Seq<IconStep> {
    let check = IconStep::Check { index: start as usize };
    let load = IconStep::Load { index: start as usize };
    if !(files.present)(start) {
        seq![check]
    } else if usable((files.load)(start)) {
        seq![check, load, IconStep::Use { icon: (files.load)(start)->0 }]
    } else {
        seq![check, load]
    }
}

proof fn lemma_unfold(files: Files, count: usize, start: int)
    requires
        0 <= start < count,
    ensures
        good(files, start) ==> {
            &&& trace(files, count, turn_to(count, start)) == own_steps(files, start)
            &&& search(files, count, turn_to(count, start)) == (files.load)(start)->0
        },
        !good(files, start) ==> {
            &&& trace(files, count, turn_to(count, start)) == own_steps(files, start) + trace(
                files,
                count,
                turn_to(count, start + 1),
            )
            &&& search(files, count, turn_to(count, start)) == search(
                files,
                count,
                turn_to(count, start + 1),
            )
        },
{
    let index = start as usize;
    let check = IconStep::Check { index };
    let load = IconStep::Load { index };
    let rest = trace(files, count, turn_to(count, start + 1));
    assert(turn_to(count, start) == check);
    assert(index + 1 == start + 1);
    if (files.present)(start) {
        assert(checked(count, index, true) == load);
        assert(trace(files, count, check) == seq![check] + trace(files, count, load));
        assert(search(files, count, check) == search(files, count, load));
        let next = tried(count, index, (files.load)(start));
        assert(trace(files, count, load) == seq![load] + trace(files, count, next));
        assert(search(files, count, load) == search(files, count, next));
        if usable((files.load)(start)) {
            assert(trace(files, count, next) == seq![next]);
            assert(seq![check] + (seq![load] + seq![next]) =~= own_steps(files, start));
        } else {
            assert(seq![check] + (seq![load] + rest) =~= own_steps(files, start) + rest);
        }
    } else {
        assert(checked(count, index, false) == turn_to(count, start + 1));
        assert(trace(files, count, check) == seq![check] + rest);
    }
}

proof fn lemma_trace(files: Files, count: usize, start: int)
    requires
        0 <= start <= count,
    ensures
        ({
            let t = trace(files, count, turn_to(count, start));
            &&& forall|i: int| 0 <= i < t.len() ==> allowed(files, count, start, #[trigger] t[i])
            &&& forall|i: int, j: int|
                0 <= i < j < t.len() ==> in_order(#[trigger] t[i], #[trigger] t[j])
            &&& t.len() > 0
            &&& t.last() == (IconStep::Use {
                icon: search(files, count, turn_to(count, start)),
            })
        }),
    decreases count - start,
{
    let t = trace(files, count, turn_to(count, start));
    if start < count {
        lemma_unfold(files, count, start);
        let own = own_steps(files, start);
        assert(forall|i: int|
            0 <= i < own.len() ==> allowed(files, count, start, #[trigger] own[i]));
        assert(forall|i: int, j: int|
            0 <= i < j < own.len() ==> in_order(#[trigger] own[i], #[trigger] own[j]));
        if !good(files, start) {
            lemma_trace(files, count, start + 1);
            let rest = trace(files, count, turn_to(count, start + 1));
            assert forall|i: int| 0 <= i < t.len() implies allowed(
                files,
                count,
                start,
                #[trigger] t[i],
            ) by {
                if i >= own.len() {
                    assert(t[i] == rest[i - own.len()]);
                    assert(allowed(files, count, start + 1, rest[i - own.len()]));
                } else {
                    assert(t[i] == own[i]);
                }
            }
            assert forall|i: int, j: int| 0 <= i < j < t.len() implies in_order(
                #[trigger] t[i],
                #[trigger] t[j],
            ) by {
                if j >= own.len() {
                    assert(t[j] == rest[j - own.len()]);
                    assert(allowed(files, count, start + 1, rest[j - own.len()]));
                    if i >= own.len() {
                        assert(t[i] == rest[i - own.len()]);
                    } else {
                        assert(t[i] == own[i]);
                    }
                } else {
                    assert(t[i] == own[i] && t[j] == own[j]);
                }
            }
            assert(t.last() == rest.last());
        }
    } else {
        assert(turn_to(count, start) is LoadDefault);
    }
}

/// An image is loaded only for a candidate that exists, and only as long as no
/// candidate before it could be used.
pub proof fn law_only_present_candidates_are_loaded(files: Files, count: usize, i: int)
    requires
        0 <= i < steps(files, count).len(),
        steps(files, count)[i] is Load,
    ensures
        steps(files, count)[i] matches IconStep::Load { index } && {
            &&& index < count
            &&& due(files, 0, index as int)
        },
{
    lemma_trace(files, count, 0);
    assert(allowed(files, count, 0, steps(files, count)[i]));
}

proof fn lemma_due_is_loaded(files: Files, count: usize, start: int, index: int)
    requires
        0 <= start <= index < count,
        due(files, start, index),
    ensures
        trace(files, count, turn_to(count, start)).contains(
            IconStep::Load { index: index as usize },
        ),
    decreases index - start,
{
    let t = trace(files, count, turn_to(count, start));
    lemma_unfold(files, count, start);
    let own = own_steps(files, start);
    if start == index {
        assert(t[1] == own[1]);
    } else {
        assert(!good(files, start));
        lemma_due_is_loaded(files, count, start + 1, index);
        let rest = trace(files, count, turn_to(count, start + 1));
        let i = rest.index_of(IconStep::Load { index: index as usize });
        assert(t[own.len() + i] == rest[i]);
    }
}

/// Every candidate that exists is loaded, as long as no candidate before it
/// could be used.
pub proof fn law_due_candidates_are_loaded(files: Files, count: usize, index: usize)
    requires
        index < count,
        due(files, 0, index as int),
    ensures
        steps(files, count).contains(IconStep::Load { index }),
{
    lemma_due_is_loaded(files, count, 0, index as int);
}

/// The candidates are checked in order, and loaded in order, each at most once.
pub proof fn law_candidates_are_tried_in_order(files: Files, count: usize, i: int, j: int)
    requires
        0 <= i < j < steps(files, count).len(),
    ensures
        steps(files, count)[i] matches IconStep::Check { index: a } ==> (steps(
            files,
            count,
        )[j] matches IconStep::Check { index: b } ==> a < b),
        steps(files, count)[i] matches IconStep::Load { index: a } ==> (steps(
            files,
            count,
        )[j] matches IconStep::Load { index: b } ==> a < b),
{
    lemma_trace(files, count, 0);
    assert(in_order(steps(files, count)[i], steps(files, count)[j]));
}

/// A search ends, with the handle that it is for.
pub proof fn law_search_ends_with_its_handle(files: Files, count: usize)
    ensures
        steps(files, count).len() > 0,
        steps(files, count).last() == (IconStep::Use {
            icon: search(files, count, turn_to(count, 0)),
        }),
{
    lemma_trace(files, count, 0);
}

/// The search ends with the handle of the first candidate whose file exists and
/// whose image loads with a handle other than 0.
pub proof fn law_first_nonzero_handle_is_used(
    files: Files,
    count: usize,
    index: int,
    handle: isize,
)
    requires
        0 <= index < count,
        (files.present)(index),
        (files.load)(index) == Some(handle),
        handle != 0,
        forall|i: int|
            0 <= i < index ==> #[trigger] (files.present)(i) ==> (files.load)(i) == None::<isize>
                || (files.load)(i) == Some(0isize),
    ensures
        search(files, count, turn_to(count, 0)) == handle,
        steps(files, count).last() == (IconStep::Use { icon: handle }),
        forall|i: int|
            0 <= i < steps(files, count).len() ==> #[trigger] steps(
                files,
                count,
            )[i] !is LoadDefault,
{
    assert forall|i: int| 0 <= i < index implies !#[trigger] good(files, i) by {
        assert((files.present)(i) ==> (files.load)(i) == None::<isize> || (files.load)(i) == Some(
            0isize,
        ));
    }
    law_first_good_candidate_is_used(files, count, index);
    law_search_ends_with_its_handle(files, count);
    lemma_no_default(files, count, 0, index);
}

proof fn lemma_no_default(files: Files, count: usize, start: int, index: int)
    requires
        0 <= start <= index < count,
        good(files, index),
        forall|i: int| start <= i < index ==> !#[trigger] good(files, i),
    ensures
        ({
            let t = trace(files, count, turn_to(count, start));
            forall|i: int| 0 <= i < t.len() ==> #[trigger] t[i] !is LoadDefault
        }),
    decreases index - start,
{
    let t = trace(files, count, turn_to(count, start));
    let own = own_steps(files, start);
    lemma_unfold(files, count, start);
    if start < index {
        assert(!good(files, start));
        lemma_no_default(files, count, start + 1, index);
        let rest = trace(files, count, turn_to(count, start + 1));
        assert forall|i: int| 0 <= i < t.len() implies #[trigger] t[i] !is LoadDefault by {
            if i >= own.len() {
                assert(t[i] == rest[i - own.len()]);
            } else {
                assert(t[i] == own[i]);
            }
        }
    }
}

proof fn lemma_default_resource(files: Files, count: usize, start: int)
    requires
        0 <= start <= count,
    ensures
        ({
            let t = trace(files, count, turn_to(count, start));
            forall|i: int|
                0 <= i < t.len() ==> (#[trigger] t[i] matches IconStep::LoadDefault { resource }
                    ==> resource == 32512)
        }),
    decreases count - start,
{
    let t = trace(files, count, turn_to(count, start));
    if start < count {
        let own = own_steps(files, start);
        lemma_unfold(files, count, start);
        if !good(files, start) {
            lemma_default_resource(files, count, start + 1);
            let rest = trace(files, count, turn_to(count, start + 1));
            assert forall|i: int| 0 <= i < t.len() implies (
            #[trigger] t[i] matches IconStep::LoadDefault { resource } ==> resource == 32512) by {
                if i >= own.len() {
                    assert(t[i] == rest[i - own.len()]);
                } else {
                    assert(t[i] == own[i]);
                }
            }
        }
    }
}

/// Where every candidate is missing, or loads without a handle, the default
/// application icon is loaded, and the search ends with its handle, or with 0
/// where that fails too.
pub proof fn law_default_icon_without_candidates(files: Files, count: usize)
    requires
        forall|i: int|
            0 <= i < count ==> #[trigger] (files.present)(i) ==> (files.load)(i) == None::<isize>
                || (files.load)(i) == Some(0isize),
    ensures
        files.default matches Some(handle) ==> search(files, count, turn_to(count, 0)) == handle,
        files.default is None ==> search(files, count, turn_to(count, 0)) == 0,
        forall|i: int|
            0 <= i < steps(files, count).len() ==> (
            #[trigger] steps(files, count)[i] matches IconStep::LoadDefault { resource }
                ==> resource == 32512),
{
    assert forall|i: int| 0 <= i < count implies !#[trigger] good(files, i) by {
        assert((files.present)(i) ==> (files.load)(i) == None::<isize> || (files.load)(i) == Some(
            0isize,
        ));
    }
    law_default_is_used_last(files, count);
    lemma_default_resource(files, count, 0);
}

/// The icon beside the executable comes first, and a place that is not known is
/// left out.
pub proof fn law_candidates<P>(beside: P, working: P)
    ensures
        known(Some(beside)) + known(Some(working)) == seq![beside, working],
        known(Some(beside)) + known(None::<P>) == seq![beside],
        known(None::<P>) + known(Some(working)) == seq![working],
        (known(None::<P>) + known(None::<P>)).len() == 0,
{
    assert(known(Some(beside)) + known(Some(working)) =~= seq![beside, working]);
    assert(known(Some(beside)) + known(None::<P>) =~= seq![beside]);
    assert(known(None::<P>) + known(Some(working)) =~= seq![working]);
}

/// Every image is asked for as an icon of 16 by 16 pixels, shared and from a file.
/// The name ends with a terminator, and a reader of it sees exactly the path.
pub proof fn law_images_are_small_icons(path: Seq<u16>)
    ensures
        request_for(path).kind == 1,
        request_for(path).width == 16,
        request_for(path).height == 16,
        request_for(path).flags == 0x8050,
        request_for(path).name.len() == path.len() + 1,
        request_for(path).name.last() == 0,
        forall|i: int| 0 <= i < path.len() ==> #[trigger] request_for(path).name[i] == path[i],
        !path.contains(0) ==> wide::until_zero(request_for(path).name) == path,
{
    assert(0x10u32 | 0x40 | 0x8000 == 0x8050) by (bit_vector);
    if !path.contains(0) {
        wide::lemma_until_zero(path, seq![]);
        assert(path.push(0) =~= path + seq![0u16] + Seq::<u16>::empty());
    }
}

} // verus!
